//! Core of a session-authenticated todo manager.
//!
//! The crate is organised in three layers.  [`database`] realises the storage
//! contract of the application (users, sessions, todo rows) over plain
//! in-process data, with every query and mutation verified against a
//! mathematical view of the store.  [`todo`] holds the business rules:
//! credential hashing and checking, session issuance and rotation, and the
//! ownership checks that guard every todo operation.  [`config`] carries the
//! caller-side settings (current session id, list filter and sort order).
//!
//! Calls into outside crates (bcrypt for password hashing, uuid for session
//! ids, chrono for the clock) stand behind small trusted wrappers; everything
//! around them is verified.

pub mod clock;
pub mod config;
pub mod database;
pub mod dates;
pub mod form;
pub mod text;
pub mod todo;
