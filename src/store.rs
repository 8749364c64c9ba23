//! An in-memory user repository that keeps emails, usernames and ids
//! unique, and hands out ids in increasing order.
use vstd::prelude::*;
use crate::user::{Model, NewUser};
use crate::decimal::same_text;

verus! {

/// Why an insert was refused.
#[derive(Clone, Copy, Debug, PartialEq, Eq, Structural)]
pub enum InsertError {
    /// Another user already has this email or this username.
    UniqueViolation,
    /// No id is left to hand out.
    IdsExhausted,
}

/// Some stored user has this email or this username.
pub open spec fn identity_taken(users: Seq<Model>, email: Seq<char>, username: Seq<char>) -> bool {
    exists|i: int| 0 <= i < users.len() && (#[trigger] users[i].email@ == email || users[i].username@ == username)
}

/// What inserting a user with this email and username gives.
pub open spec fn insert_verdict(users: Seq<Model>, next_id: int, email: Seq<char>, username: Seq<char>) -> Result<i32, InsertError> {
    if identity_taken(users, email, username) {
        Err(InsertError::UniqueViolation)
    } else if next_id >= i32::MAX {
        Err(InsertError::IdsExhausted)
    } else {
        Ok(next_id as i32)
    }
}

/// The record stored for a new user under id `id` at instant `now`.
pub open spec fn stored_record(new: NewUser, id: i32, now: i64) -> Model {
    Model {
        id,
        username: new.username,
        email: new.email,
        password: new.password_hash,
        first_name: new.first_name,
        last_name: new.last_name,
        account_type: new.account_type,
        avatar_url: new.avatar_url,
        is_active: true,
        created_at: now,
        updated_at: now,
    }
}

/// The first user, in order of insertion, with this id.
pub open spec fn first_with_id(users: Seq<Model>, id: i32) -> Option<Model>
    decreases users.len(),
{
    if users.len() == 0 {
        None
    } else if users[0].id == id {
        Some(users[0])
    } else {
        first_with_id(users.drop_first(), id)
    }
}

/// The user matches the identifier by email or by username.
pub open spec fn answers_to(m: Model, identifier: Seq<char>) -> bool {
    m.email@ == identifier || m.username@ == identifier
}

/// The first user, in order of insertion, whose email or username is the
/// identifier.
pub open spec fn first_with_identifier(users: Seq<Model>, identifier: Seq<char>) -> Option<Model>
    decreases users.len(),
{
    if users.len() == 0 {
        None
    } else if answers_to(users[0], identifier) {
        Some(users[0])
    } else {
        first_with_identifier(users.drop_first(), identifier)
    }
}

/// The users, in order of insertion, and the next id to hand out.
pub struct UserStore {
    users: Vec<Model>,
    next_id: i32,
}

impl View for UserStore {
    type V = Seq<Model>;

    closed spec fn view(&self) -> Seq<Model> {
        self.users@
    }
}

impl UserStore {
    /// The id the next insert hands out.
    pub closed spec fn next_id(&self) -> int {
        self.next_id as int
    }

    /// Emails, usernames and ids are each unique, and every id is positive
    /// and below the next one.
    pub closed spec fn wf(&self) -> bool {
        &&& 1 <= self.next_id
        &&& forall|i: int| 0 <= i < self.users@.len() ==> 1 <= #[trigger] self.users@[i].id < self.next_id
        &&& forall|i: int, j: int|
            0 <= i < j < self.users@.len() ==> #[trigger] self.users@[i].email@ != #[trigger] self.users@[j].email@
                && self.users@[i].username@ != self.users@[j].username@ && self.users@[i].id != self.users@[j].id
    }

    /// An empty store whose first id is 1.
    pub fn new() -> (r: UserStore)
        ensures
            r.wf(),
            r@ == Seq::<Model>::empty(),
            r.next_id() == 1,
    {
        UserStore { users: Vec::new(), next_id: 1 }
    }

    /// The number of stored users.
    pub fn len(&self) -> (r: usize)
        ensures
            r == self@.len(),
    {
        self.users.len()
    }

    /// Whether some stored user has this email or this username.
    fn is_taken(&self, email: &str, username: &str) -> (r: bool)
        ensures
            r == identity_taken(self@, email@, username@),
    {
        let mut i: usize = 0;
        while i < self.users.len()
            invariant
                0 <= i <= self.users@.len(),
                forall|k: int| #![trigger self.users@[k]] 0 <= k < i ==> self.users@[k].email@ != email@ && self.users@[k].username@ != username@,
            decreases self.users.len() - i,
        {
            let u = &self.users[i];
            if same_text(u.email.as_str(), email) || same_text(u.username.as_str(), username) {
                return true;
            }
            i = i + 1;
        }
        false
    }

    /// Stores a new user at instant `now`, refusing a duplicate email or
    /// username. On success the new user's id is returned.
    pub fn insert(&mut self, new: NewUser, now: i64) -> (r: Result<i32, InsertError>)
        requires
            old(self).wf(),
        ensures
            final(self).wf(),
            r == insert_verdict(old(self)@, old(self).next_id(), new.email@, new.username@),
            r matches Ok(id) ==> final(self)@ == old(self)@.push(stored_record(new, id, now)) && final(self).next_id() == id + 1,
            r is Err ==> final(self)@ == old(self)@ && final(self).next_id() == old(self).next_id(),
    {
        if self.is_taken(new.email.as_str(), new.username.as_str()) {
            return Err(InsertError::UniqueViolation);
        }
        if self.next_id == i32::MAX {
            return Err(InsertError::IdsExhausted);
        }
        let id = self.next_id;
        let ghost prev = self.users@;
        let ghost rec = stored_record(new, id, now);
        let m = Model {
            id,
            username: new.username,
            email: new.email,
            password: new.password_hash,
            first_name: new.first_name,
            last_name: new.last_name,
            account_type: new.account_type,
            avatar_url: new.avatar_url,
            is_active: true,
            created_at: now,
            updated_at: now,
        };
        self.users.push(m);
        self.next_id = id + 1;
        assert forall|i: int, j: int| 0 <= i < j < self.users@.len() implies #[trigger] self.users@[i].email@
            != #[trigger] self.users@[j].email@ && self.users@[i].username@ != self.users@[j].username@
            && self.users@[i].id != self.users@[j].id by {
            if j == prev.len() {
                assert(self.users@[i] == prev[i]);
                assert(!(prev[i].email@ == rec.email@ || prev[i].username@ == rec.username@));
            }
        }
        Ok(id)
    }

    /// The stored user with this id.
    pub fn find_by_id(&self, id: i32) -> (r: Option<Model>)
        ensures
            r == first_with_id(self@, id),
    {
        let mut i: usize = 0;
        assert(self@.subrange(0, self@.len() as int) =~= self@);
        while i < self.users.len()
            invariant
                0 <= i <= self.users@.len(),
                first_with_id(self@, id) == first_with_id(self@.subrange(i as int, self@.len() as int), id),
            decreases self.users.len() - i,
        {
            let ghost rest = self@.subrange(i as int, self@.len() as int);
            assert(rest.drop_first() =~= self@.subrange(i + 1, self@.len() as int));
            if self.users[i].id == id {
                return Some(self.users[i].duplicate());
            }
            i = i + 1;
        }
        None
    }

    /// The first stored user whose email or username is the identifier.
    pub fn find_by_identifier(&self, identifier: &str) -> (r: Option<Model>)
        ensures
            r == first_with_identifier(self@, identifier@),
    {
        let mut i: usize = 0;
        assert(self@.subrange(0, self@.len() as int) =~= self@);
        while i < self.users.len()
            invariant
                0 <= i <= self.users@.len(),
                first_with_identifier(self@, identifier@) == first_with_identifier(
                    self@.subrange(i as int, self@.len() as int),
                    identifier@,
                ),
            decreases self.users.len() - i,
        {
            let ghost rest = self@.subrange(i as int, self@.len() as int);
            assert(rest.drop_first() =~= self@.subrange(i + 1, self@.len() as int));
            let u = &self.users[i];
            if same_text(u.email.as_str(), identifier) || same_text(u.username.as_str(), identifier) {
                return Some(u.duplicate());
            }
            i = i + 1;
        }
        None
    }
}

/// Of two registrations that share an email or a username, once the first
/// has been stored the second is refused as a uniqueness violation.
pub proof fn lemma_duplicate_identity_refused(
    users: Seq<Model>,
    next_id: int,
    first: NewUser,
    second: NewUser,
    now: i64,
)
    requires
        insert_verdict(users, next_id, first.email@, first.username@) is Ok,
        second.email@ == first.email@ || second.username@ == first.username@,
    ensures
        insert_verdict(
            users.push(stored_record(first, next_id as i32, now)),
            next_id + 1,
            second.email@,
            second.username@,
        ) == Err::<i32, InsertError>(InsertError::UniqueViolation),
{
    let after = users.push(stored_record(first, next_id as i32, now));
    assert(after[users.len() as int].email@ == first.email@);
    assert(identity_taken(after, second.email@, second.username@));
}

/// Into an empty store, any first registration succeeds, with id 1.
pub proof fn lemma_first_registration_succeeds(email: Seq<char>, username: Seq<char>)
    ensures
        insert_verdict(Seq::<Model>::empty(), 1, email, username) == Ok::<i32, InsertError>(1),
{
}

} // verus!
