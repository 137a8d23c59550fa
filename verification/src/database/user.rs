//! User rows: insertion and lookup.

use crate::clock;
use crate::database::{
    Database, DbError, StoreView, User, UserV, has_session, has_user, lemma_map_values_push,
    lemma_session_with_is, lemma_user_named_is, session_with, spec_session_live, user_named,
    view_user_result,
};
use crate::text::str_eq;
use vstd::prelude::*;

verus! {

/// Inserting a user row fails exactly on a taken name; otherwise the row is
/// appended.
pub open spec fn spec_add_user(s: StoreView, name: Seq<char>, pass: Seq<char>) -> (
    StoreView,
    Result<(), DbError>,
) {
    if has_user(s.users, name) {
        (s, Err(DbError::DuplicateUserName))
    } else {
        (StoreView { users: s.users.push(UserV { name, password: pass }), ..s }, Ok(()))
    }
}

/// Lookup by name fails exactly when the name is absent.
pub open spec fn spec_get_user(s: StoreView, name: Seq<char>) -> Result<UserV, DbError> {
    if has_user(s.users, name) {
        Ok(user_named(s.users, name))
    } else {
        Err(DbError::NotFoundUser)
    }
}

/// The session-to-user join at moment `now`: fails exactly when the
/// session id is absent or expired, or its user row is gone.  An expired
/// row that no purge has removed yet still counts as absent.
pub open spec fn spec_get_user_from_sess(s: StoreView, sess: u128, now: u64) -> Result<
    UserV,
    DbError,
> {
    if spec_session_live(s.sessions, sess, now) && has_user(
        s.users,
        session_with(s.sessions, sess).user_name,
    ) {
        Ok(user_named(s.users, session_with(s.sessions, sess).user_name))
    } else {
        Err(DbError::NotFoundSession)
    }
}

/// Registering any name twice leaves the second call with the duplicate
/// error, whatever either password is.
pub proof fn lemma_register_twice(s: StoreView, name: Seq<char>, p1: Seq<char>, p2: Seq<char>)
    ensures
        spec_add_user(spec_add_user(s, name, p1).0, name, p2).1 == Err::<(), DbError>(
            DbError::DuplicateUserName,
        ),
{
    let s1 = spec_add_user(s, name, p1).0;
    if !has_user(s.users, name) {
        assert(s1.users[s.users.len() as int].name == name);
        assert(has_user(s1.users, name));
    }
}

impl Database {
    /// Insert a user row carrying `name` and the already-hashed password
    /// `pass`.
    pub fn add_user(&mut self, name: &str, pass: &str) -> (r: Result<(), DbError>)
        requires
            old(self).wf(),
        ensures
            final(self).wf(),
            final(self)@ == spec_add_user(old(self)@, name@, pass@).0,
            r == spec_add_user(old(self)@, name@, pass@).1,
    {
        let n = self.users.len();
        let mut i: usize = 0;
        while i < n
            invariant
                i <= n,
                n == self.users.len(),
                *self == *old(self),
                self.wf(),
                forall|j: int| 0 <= j < i ==> self@.users[j].name != name@,
            decreases n - i,
        {
            if str_eq(self.users[i].name.as_str(), name) {
                proof {
                    assert(self@.users[i as int].name == name@);
                    assert(has_user(self@.users, name@));
                }
                return Err(DbError::DuplicateUserName);
            }
            i = i + 1;
        }
        proof {
            assert(!has_user(self@.users, name@));
        }
        let row = User { name: name.to_owned(), password: pass.to_owned() };
        proof {
            assert(row@ == (UserV { name: name@, password: pass@ }));
        }
        self.users.push(row);
        proof {
            lemma_map_values_push(old(self).users@, |u: User| u@, row);
            assert(final(self)@ =~= spec_add_user(old(self)@, name@, pass@).0);
        }
        Ok(())
    }

    /// Fetch the user row carrying `name`.
    pub fn get_user(&self, name: &str) -> (r: Result<User, DbError>)
        requires
            self.wf(),
        ensures
            match r {
                Ok(u) => spec_get_user(self@, name@) == Ok::<UserV, DbError>(u@),
                Err(e) => spec_get_user(self@, name@) == Err::<UserV, DbError>(e),
            },
    {
        let n = self.users.len();
        let mut i: usize = 0;
        while i < n
            invariant
                i <= n,
                n == self.users.len(),
                self.wf(),
                forall|j: int| 0 <= j < i ==> self@.users[j].name != name@,
            decreases n - i,
        {
            if str_eq(self.users[i].name.as_str(), name) {
                proof {
                    lemma_user_named_is(self@.users, name@, i as int);
                }
                let u = &self.users[i];
                return Ok(User { name: u.name.clone(), password: u.password.clone() });
            }
            i = i + 1;
        }
        proof {
            assert(!has_user(self@.users, name@));
        }
        Err(DbError::NotFoundUser)
    }

    /// Join the session row carrying `sess` to its user row, resolving
    /// only a session still alive at `now`.
    pub fn get_user_from_sess_at(&self, sess: u128, now: u64) -> (r: Result<User, DbError>)
        requires
            self.wf(),
        ensures
            view_user_result(r) == spec_get_user_from_sess(self@, sess, now),
    {
        let n = self.sessions.len();
        let mut i: usize = 0;
        while i < n
            invariant
                i <= n,
                n == self.sessions.len(),
                self.wf(),
                forall|j: int| 0 <= j < i ==> self@.sessions[j].id != sess,
            decreases n - i,
        {
            if self.sessions[i].id == sess {
                proof {
                    lemma_session_with_is(self@.sessions, self@.issued, sess, i as int);
                }
                if self.sessions[i].expires_at < now {
                    return Err(DbError::NotFoundSession);
                }
                let found = self.get_user(self.sessions[i].user_name.as_str());
                return match found {
                    Ok(u) => Ok(u),
                    Err(_) => Err(DbError::NotFoundSession),
                };
            }
            i = i + 1;
        }
        proof {
            assert(!has_session(self@.sessions, sess));
        }
        Err(DbError::NotFoundSession)
    }

    /// Join the session row carrying `sess` to its user row, as of now.
    pub fn get_user_from_sess(&self, sess: u128) -> (r: Result<User, DbError>)
        requires
            self.wf(),
        ensures
            exists|now: u64|
                view_user_result(r) == #[trigger] spec_get_user_from_sess(self@, sess, now),
    {
        let now = clock::current_time();
        let r = self.get_user_from_sess_at(sess, now);
        proof {
            assert(view_user_result(r) == spec_get_user_from_sess(self@, sess, now));
        }
        r
    }
}

} // verus!
