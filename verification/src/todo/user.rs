//! Registration: hash the password, insert the user row.

use crate::database::{StoreView, has_user, spec_add_user};
use crate::todo::{Todo, TodoError};
use vstd::prelude::*;

verus! {

/// Whether `password` matches the bcrypt hash `hash`.  This names the
/// result of `bcrypt::verify`, which depends on its two arguments alone
/// (the salt and cost are read back out of the hash text).
pub uninterp spec fn bcrypt_verifies(password: Seq<char>, hash: Seq<char>) -> bool;

/// Whether `hash` is a well-formed bcrypt hash text.  This names the
/// condition under which `bcrypt::verify` returns at all: it fails exactly
/// when the hash text does not split into prefix, cost and base64 parts or
/// carries a cost outside the allowed range — a function of the hash text
/// alone, never of the password.
pub uninterp spec fn bcrypt_hash_wf(hash: Seq<char>) -> bool;

/// Relies on bcrypt::hash: the result is a well-formed bcrypt hash of
/// `password` (with a random salt at the default cost) that
/// `bcrypt::verify` accepts for `password`, as the crate documents for its
/// hash/verify pair.
#[verifier::external_body]
pub(crate) fn hash_password(password: &str) -> (r: Result<String, ()>)
    ensures
        r matches Ok(h) ==> bcrypt_verifies(password@, h@) && bcrypt_hash_wf(h@),
{
    match bcrypt::hash(password, bcrypt::DEFAULT_COST) {
        Ok(h) => Ok(h),
        Err(_) => Err(()),
    }
}

/// Relies on bcrypt::verify: whether `password` matches the bcrypt hash
/// `hash`; deterministic in its arguments, and it returns a value exactly
/// when the hash text is a well-formed bcrypt hash.
#[verifier::external_body]
pub(crate) fn verify_password(password: &str, hash: &str) -> (r: Result<bool, ()>)
    ensures
        r is Ok <==> bcrypt_hash_wf(hash@),
        r matches Ok(b) ==> b == bcrypt_verifies(password@, hash@),
{
    match bcrypt::verify(password, hash) {
        Ok(b) => Ok(b),
        Err(_) => Err(()),
    }
}

/// Registration over the store: insert the row carrying the hash, turning
/// the store's duplicate error into the service's.
pub open spec fn spec_register(s: StoreView, name: Seq<char>, hash: Seq<char>) -> (
    StoreView,
    Result<(), TodoError>,
) {
    let (s1, r) = spec_add_user(s, name, hash);
    match r {
        Ok(_) => (s1, Ok(())),
        Err(_) => (s1, Err(TodoError::DuplicateUser)),
    }
}

/// Registering the same name twice always leaves the second call with the
/// duplicate error, whatever either password hashed to.
pub proof fn lemma_duplicate_registration(
    s: StoreView,
    name: Seq<char>,
    h1: Seq<char>,
    h2: Seq<char>,
)
    ensures
        spec_register(spec_register(s, name, h1).0, name, h2).1 == Err::<(), TodoError>(
            TodoError::DuplicateUser,
        ),
{
    crate::database::lemma_register_twice(s, name, h1, h2);
}

impl Todo {
    /// Register `name` with `password`: the password is hashed with bcrypt
    /// and only the hash is stored.
    pub fn add_user(&mut self, name: &str, password: &str) -> (r: Result<(), TodoError>)
        requires
            old(self).wf(),
        ensures
            final(self).wf(),
            match r {
                Ok(_) => {
                    &&& !has_user(old(self)@.users, name@)
                    &&& exists|h: Seq<char>|
                        #[trigger] bcrypt_verifies(password@, h) && bcrypt_hash_wf(h) && (
                        final(self)@, Ok::<(), TodoError>(())) == spec_register(
                            old(self)@,
                            name@,
                            h,
                        )
                },
                Err(e) => {
                    &&& final(self)@ == old(self)@
                    &&& (e == TodoError::DuplicateUser || e == TodoError::HashUserPassword)
                    &&& (e == TodoError::DuplicateUser ==> has_user(old(self)@.users, name@))
                },
            },
    {
        let hashed = match hash_password(password) {
            Ok(h) => h,
            Err(_) => {
                return Err(TodoError::HashUserPassword);
            },
        };
        match self.database.add_user(name, hashed.as_str()) {
            Ok(_) => {
                proof {
                    assert(bcrypt_verifies(password@, hashed@) && bcrypt_hash_wf(hashed@) && (
                    self@, Ok::<(), TodoError>(())) == spec_register(old(self)@, name@, hashed@));
                }
                Ok(())
            },
            Err(_) => Err(TodoError::DuplicateUser),
        }
    }
}

} // verus!
