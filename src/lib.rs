//! Account and session layer of an event-hosting platform: password hashing,
//! signed bearer tokens, registration and login flows, and resolution of the
//! caller's identity from a bearer token.
pub mod auth;
pub mod config;
pub mod decimal;
pub mod identity;
pub mod password;
pub mod store;
pub mod token;
pub mod user;
