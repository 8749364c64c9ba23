//! Decimal text for integers: the subject of a token is a user id written in
//! base ten, and configuration values are parsed from text.
use vstd::prelude::*;
use vstd::string::*;

verus! {

pub open spec fn is_digit(c: char) -> bool {
    '0' <= c && c <= '9'
}

pub open spec fn digit_value(c: char) -> int {
    c as int - '0' as int
}

pub open spec fn digit_char(d: int) -> char
    recommends
        0 <= d < 10,
{
    if d == 0 { '0' } else if d == 1 { '1' } else if d == 2 { '2' } else if d == 3 { '3' }
    else if d == 4 { '4' } else if d == 5 { '5' } else if d == 6 { '6' } else if d == 7 { '7' }
    else if d == 8 { '8' } else { '9' }
}

/// Every character of `s` is an ASCII digit, and there is at least one.
pub open spec fn all_digits(s: Seq<char>) -> bool {
    s.len() > 0 && forall|i: int| 0 <= i < s.len() ==> is_digit(#[trigger] s[i])
}

/// The number that a string of digits denotes in base ten.
pub open spec fn digits_value(s: Seq<char>) -> int
    decreases s.len(),
{
    if s.len() == 0 {
        0
    } else {
        digits_value(s.drop_last()) * 10 + digit_value(s.last())
    }
}

/// The base-ten digits of `n`, most significant first, without leading zeros.
pub open spec fn digits_of(n: nat) -> Seq<char>
    decreases n,
{
    if n < 10 {
        seq![digit_char(n as int)]
    } else {
        digits_of(n / 10).push(digit_char((n % 10) as int))
    }
}

/// How an integer is written: its digits, after a minus sign when negative.
pub open spec fn decimal_of(n: int) -> Seq<char> {
    if n < 0 {
        seq!['-'].add(digits_of((-n) as nat))
    } else {
        digits_of(n as nat)
    }
}

/// The value of an unsigned decimal: an optional `+` and then digits.
pub open spec fn unsigned_value(s: Seq<char>) -> Option<int> {
    if s.len() > 0 && s[0] == '+' && all_digits(s.drop_first()) {
        Some(digits_value(s.drop_first()))
    } else if all_digits(s) {
        Some(digits_value(s))
    } else {
        None
    }
}

/// The value of a signed decimal: an optional `+` or `-` and then digits.
pub open spec fn signed_value(s: Seq<char>) -> Option<int> {
    if s.len() > 0 && s[0] == '-' && all_digits(s.drop_first()) {
        Some(-digits_value(s.drop_first()))
    } else {
        unsigned_value(s)
    }
}

pub open spec fn parsed_i32(s: Seq<char>) -> Option<i32> {
    match signed_value(s) {
        Some(v) => if i32::MIN <= v && v <= i32::MAX {
            Some(v as i32)
        } else {
            None
        },
        None => None,
    }
}

pub open spec fn parsed_u32(s: Seq<char>) -> Option<u32> {
    match unsigned_value(s) {
        Some(v) => if v <= u32::MAX {
            Some(v as u32)
        } else {
            None
        },
        None => None,
    }
}

pub open spec fn parsed_u16(s: Seq<char>) -> Option<u16> {
    match unsigned_value(s) {
        Some(v) => if v <= u16::MAX {
            Some(v as u16)
        } else {
            None
        },
        None => None,
    }
}

pub open spec fn parsed_bool(s: Seq<char>) -> Option<bool> {
    if s == "true"@ {
        Some(true)
    } else if s == "false"@ {
        Some(false)
    } else {
        None
    }
}

proof fn lemma_digits_value_nonneg(s: Seq<char>)
    requires
        forall|i: int| 0 <= i < s.len() ==> is_digit(#[trigger] s[i]),
    ensures
        digits_value(s) >= 0,
    decreases s.len(),
{
    if s.len() > 0 {
        lemma_digits_value_nonneg(s.drop_last());
    }
}

/// A prefix of a string of digits never denotes more than the whole.
proof fn lemma_prefix_value_le(s: Seq<char>, k: int)
    requires
        forall|i: int| 0 <= i < s.len() ==> is_digit(#[trigger] s[i]),
        0 <= k <= s.len(),
    ensures
        digits_value(s.subrange(0, k)) <= digits_value(s),
    decreases s.len(),
{
    if k < s.len() {
        lemma_prefix_value_le(s.drop_last(), k);
        assert(s.drop_last().subrange(0, k) =~= s.subrange(0, k));
        lemma_digits_value_nonneg(s.drop_last());
    } else {
        assert(s.subrange(0, k) =~= s);
    }
}

proof fn lemma_digit_char(d: int)
    requires
        0 <= d < 10,
    ensures
        is_digit(digit_char(d)),
        digit_value(digit_char(d)) == d,
{
}

proof fn lemma_digits_of_props(n: nat)
    ensures
        all_digits(digits_of(n)),
        digits_value(digits_of(n)) == n,
    decreases n,
{
    lemma_digit_char((n % 10) as int);
    if n < 10 {
        let s = digits_of(n);
        assert(s.drop_last() =~= Seq::<char>::empty());
        assert(digits_value(s) == digits_value(s.drop_last()) * 10 + digit_value(s.last()));
    } else {
        lemma_digits_of_props(n / 10);
        let s = digits_of(n);
        assert(s.drop_last() =~= digits_of(n / 10));
        assert(digits_value(s) == digits_value(s.drop_last()) * 10 + digit_value(s.last()));
        assert((n / 10) * 10 + n % 10 == n) by (nonlinear_arith);
    }
}

/// Reading back the decimal text of an `i32` gives the same `i32`.
pub proof fn lemma_i32_decimal_round_trip(n: i32)
    ensures
        parsed_i32(decimal_of(n as int)) == Some(n),
{
    if n < 0 {
        let m = (-(n as int)) as nat;
        lemma_digits_of_props(m);
        let s = decimal_of(n as int);
        assert(s.drop_first() =~= digits_of(m));
    } else {
        lemma_digits_of_props(n as nat);
        let s = decimal_of(n as int);
        assert(!is_digit('+'));
        assert(!is_digit('-'));
        assert(is_digit(s[0]));
    }
}

/// Relies on the `Display` of `i32` (through `to_string`): base-ten digits,
/// preceded by `-` for a negative number.
#[verifier::external_body]
pub(crate) fn i32_to_decimal(n: i32) -> (r: String)
    ensures
        r@ == decimal_of(n as int),
{
    n.to_string()
}

/// Reads the digits of `s` from position `start` on, stopping early with
/// `None` once their value exceeds `limit`.
fn digits_from(s: &str, start: usize, limit: u64) -> (r: Option<u64>)
    requires
        start <= s@.len(),
        limit >= 9,
    ensures
        match r {
            Some(v) => all_digits(s@.subrange(start as int, s@.len() as int)) && v == digits_value(
                s@.subrange(start as int, s@.len() as int),
            ) && v <= limit,
            None => !all_digits(s@.subrange(start as int, s@.len() as int)) || digits_value(
                s@.subrange(start as int, s@.len() as int),
            ) > limit,
        },
{
    let len = s.unicode_len();
    if start >= len {
        return None;
    }
    let ghost t = s@.subrange(start as int, s@.len() as int);
    let mut acc: u64 = 0;
    let mut i: usize = start;
    while i < len
        invariant
            len == s@.len(),
            start <= i <= len,
            start < len,
            t == s@.subrange(start as int, s@.len() as int),
            forall|j: int| 0 <= j < i - start ==> is_digit(#[trigger] t[j]),
            acc == digits_value(t.subrange(0, i - start)),
            acc <= limit,
            limit >= 9,
        decreases len - i,
    {
        let c = s.get_char(i);
        if !('0' <= c && c <= '9') {
            assert(!is_digit(t[i - start]));
            return None;
        }
        let d = (c as u32 - '0' as u32) as u64;
        assert(d <= 9);
        proof {
            let p = t.subrange(0, i - start + 1);
            assert(p.drop_last() =~= t.subrange(0, i - start));
            assert(p.last() == c);
        }
        if acc > (limit - d) / 10 {
            proof {
                let p = t.subrange(0, i - start + 1);
                assert(digits_value(p) > limit) by (nonlinear_arith)
                    requires
                        digits_value(p) == acc * 10 + d,
                        acc > (limit - d) / 10,
                        d <= 9,
                        d <= limit,
                ;
                if all_digits(t) {
                    lemma_prefix_value_le(t, i - start + 1);
                }
            }
            return None;
        }
        acc = acc * 10 + d;
        i = i + 1;
    }
    assert(t.subrange(0, i - start) =~= t);
    Some(acc)
}

/// Parses a base-ten `i32` as `str::parse` does: an optional sign, then
/// digits, with no other characters.
pub fn parse_i32(s: &str) -> (r: Option<i32>)
    ensures
        r == parsed_i32(s@),
{
    let len = s.unicode_len();
    if len == 0 {
        return None;
    }
    let c = s.get_char(0);
    if c == '-' || c == '+' {
        proof {
            assert(s@.drop_first() =~= s@.subrange(1, s@.len() as int));
            assert(!is_digit(s@[0]));
        }
        match digits_from(s, 1, 2147483648) {
            Some(v) => {
                if c == '-' {
                    Some((0 - (v as i64)) as i32)
                } else if v <= 2147483647 {
                    Some(v as i32)
                } else {
                    None
                }
            },
            None => None,
        }
    } else {
        assert(s@.subrange(0, s@.len() as int) =~= s@);
        match digits_from(s, 0, 2147483647) {
            Some(v) => Some(v as i32),
            None => None,
        }
    }
}

/// Parses a base-ten unsigned number no larger than `limit`: an optional
/// `+`, then digits.
fn parse_unsigned(s: &str, limit: u64) -> (r: Option<u64>)
    requires
        limit >= 9,
    ensures
        match r {
            Some(v) => unsigned_value(s@) == Some(v as int) && v <= limit,
            None => match unsigned_value(s@) {
                Some(v) => v > limit,
                None => true,
            },
        },
{
    let len = s.unicode_len();
    if len == 0 {
        return None;
    }
    let c = s.get_char(0);
    if c == '+' {
        proof {
            assert(s@.drop_first() =~= s@.subrange(1, s@.len() as int));
            assert(!is_digit(s@[0]));
        }
        digits_from(s, 1, limit)
    } else {
        assert(s@.subrange(0, s@.len() as int) =~= s@);
        if c == '-' {
            assert(!is_digit(s@[0]));
            return None;
        }
        digits_from(s, 0, limit)
    }
}

/// Parses a `u32` as `str::parse` does.
pub fn parse_u32(s: &str) -> (r: Option<u32>)
    ensures
        r == parsed_u32(s@),
{
    match parse_unsigned(s, 4294967295) {
        Some(v) => Some(v as u32),
        None => None,
    }
}

/// Parses a `u16` as `str::parse` does.
pub fn parse_u16(s: &str) -> (r: Option<u16>)
    ensures
        r == parsed_u16(s@),
{
    match parse_unsigned(s, 65535) {
        Some(v) => Some(v as u16),
        None => None,
    }
}

/// Whether two strings hold the same characters.
pub fn same_text(a: &str, b: &str) -> (r: bool)
    ensures
        r == (a@ == b@),
{
    let x = a.to_owned();
    let y = b.to_owned();
    x == y
}

/// Parses a `bool` as `str::parse` does: exactly `true` or `false`.
pub fn parse_bool(s: &str) -> (r: Option<bool>)
    ensures
        r == parsed_bool(s@),
{
    if same_text(s, "true") {
        Some(true)
    } else if same_text(s, "false") {
        Some(false)
    } else {
        None
    }
}

} // verus!
