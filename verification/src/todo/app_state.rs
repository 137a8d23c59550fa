//! Login and session renewal.

use crate::database::{
    DbError, StoreView, fresh_session_id, has_session, has_user, lemma_filter_sessions_ids,
    purge_keep, remove_keep, remove_session, session_dead, session_with, spec_is_session_valid,
    spec_make_new_session, spec_purge, spec_update_session, store_wf, user_named,
};
use crate::clock;
use crate::todo::user::{bcrypt_hash_wf, bcrypt_verifies, verify_password};
use crate::todo::{Todo, TodoError};
use vstd::prelude::*;

verus! {

/// Login over the store: find the user, check the password against the
/// stored hash, and on success issue a session carrying `sid` at `now`.  A
/// stored hash that is not a well-formed bcrypt hash cannot be checked and
/// is reported as a hashing failure.
pub open spec fn spec_login(
    s: StoreView,
    name: Seq<char>,
    password: Seq<char>,
    sid: u128,
    now: u64,
) -> (StoreView, Result<u128, TodoError>) {
    if !has_user(s.users, name) {
        (s, Err(TodoError::NotFoundUser))
    } else if !bcrypt_hash_wf(user_named(s.users, name).password) {
        (s, Err(TodoError::HashUserPassword))
    } else if !bcrypt_verifies(password, user_named(s.users, name).password) {
        (s, Err(TodoError::WrongPassword))
    } else {
        let (s1, r) = spec_make_new_session(s, name, sid, now);
        match r {
            Ok(id) => (s1, Ok(id)),
            Err(e) => (
                s1,
                Err(
                    if e == DbError::NotFoundUser {
                        TodoError::NotFoundUser
                    } else {
                        TodoError::FailDbAccess
                    },
                ),
            ),
        }
    }
}

/// Renewal over the store: purge expired rows (which commits), and if the
/// session survived, rotate it to `new_id`.  An unknown or expired session
/// is a normal `None`, not an error.
pub open spec fn spec_check_session(s: StoreView, sess: u128, new_id: u128, now: u64) -> (
    StoreView,
    Result<Option<u128>, TodoError>,
) {
    let s1 = spec_is_session_valid(s, sess, now).0;
    if !has_session(spec_purge(s.sessions, now), sess) {
        (s1, Ok(None))
    } else {
        let (s2, r) = spec_update_session(s1, sess, new_id, now);
        match r {
            Ok(n) => (s2, Ok(Some(n))),
            Err(e) => (
                s2,
                if e == DbError::NotFoundSession {
                    Ok(None)
                } else {
                    Err(TodoError::FailDbAccess)
                },
            ),
        }
    }
}

/// For a registered user whose stored hash is a well-formed bcrypt hash —
/// as every hash the service stores is — a password the hash does not
/// accept is always turned away as `WrongPassword`, with the store
/// untouched; and login never succeeds with it: success implies the hash
/// accepted the password.
pub proof fn lemma_login_wrong_password(
    s: StoreView,
    name: Seq<char>,
    password: Seq<char>,
    sid: u128,
    now: u64,
)
    requires
        has_user(s.users, name),
    ensures
        bcrypt_hash_wf(user_named(s.users, name).password) && !bcrypt_verifies(
            password,
            user_named(s.users, name).password,
        ) ==> spec_login(s, name, password, sid, now) == (
            s,
            Err::<u128, TodoError>(TodoError::WrongPassword),
        ),
        spec_login(s, name, password, sid, now).1 is Ok ==> bcrypt_verifies(
            password,
            user_named(s.users, name).password,
        ),
{
}

/// Renewing twice in sequence, feeding the second call the first call's
/// output, never hands out the same id twice: the three ids are pairwise
/// distinct.
pub proof fn lemma_check_session_never_repeats(
    s: StoreView,
    sess: u128,
    id1: u128,
    now1: u64,
    id2: u128,
    now2: u64,
)
    requires
        store_wf(s),
    ensures
        ({
            let (s1, r1) = spec_check_session(s, sess, id1, now1);
            let (s2, r2) = spec_check_session(s1, id1, id2, now2);
            (r1 == Ok::<Option<u128>, TodoError>(Some(id1)) && r2 == Ok::<Option<u128>, TodoError>(
                Some(id2),
            )) ==> id1 != sess && id2 != id1 && id2 != sess
        }),
{
    let (s1, r1) = spec_check_session(s, sess, id1, now1);
    let (s2, r2) = spec_check_session(s1, id1, id2, now2);
    if r1 == Ok::<Option<u128>, TodoError>(Some(id1)) && r2 == Ok::<Option<u128>, TodoError>(
        Some(id2),
    ) {
        lemma_filter_sessions_ids(s.sessions, s.issued, purge_keep(now1));
        // the first renewal rotated: sess was live, id1 was never issued
        assert(has_session(spec_purge(s.sessions, now1), sess));
        assert(!s.issued.contains(id1));
        assert(s.issued.contains(sess));
        assert(s1.issued == s.issued.push(id1));
        // the second renewal rotated id1 to id2: id2 was not issued in s1
        assert(!s1.issued.contains(id2));
        assert(s1.issued.contains(id1)) by {
            assert(s1.issued.last() == id1);
        }
        assert(s1.issued.contains(sess)) by {
            let m = choose|m: int| 0 <= m < s.issued.len() && s.issued[m] == sess;
            assert(s1.issued[m] == sess);
        }
    }
}

/// After a successful renewal the pre-rotation id is dead: it stays on the
/// issued record and is no longer a live session.
pub proof fn lemma_rotated_id_retired(s: StoreView, sess: u128, new_id: u128, now: u64)
    requires
        store_wf(s),
        spec_check_session(s, sess, new_id, now).1 == Ok::<Option<u128>, TodoError>(Some(new_id)),
    ensures
        session_dead(spec_check_session(s, sess, new_id, now).0, sess),
{
    lemma_filter_sessions_ids(s.sessions, s.issued, purge_keep(now));
    let purged = spec_purge(s.sessions, now);
    // the rotation purges the already-purged table once more
    lemma_filter_sessions_ids(purged, s.issued, purge_keep(now));
    let purged2 = spec_purge(purged, now);
    lemma_filter_sessions_ids(purged2, s.issued, remove_keep(sess));
    let s2 = spec_check_session(s, sess, new_id, now).0;
    let removed = remove_session(purged2, sess);
    assert(s.issued.contains(sess)) by {
        assert(has_session(purged, sess));
    }
    assert(s2.issued.contains(sess)) by {
        let m = choose|m: int| 0 <= m < s.issued.len() && s.issued[m] == sess;
        assert(s2.issued[m] == sess);
    }
    assert forall|k: int| 0 <= k < s2.sessions.len() implies (#[trigger] s2.sessions[k]).id
        != sess by {
        if k < removed.len() {
            assert(has_session(removed, s2.sessions[k].id));
        } else {
            assert(s2.sessions[k].id == new_id);
            assert(!s.issued.contains(new_id));
        }
    }
    assert(!has_session(s2.sessions, sess)) by {
        if has_session(s2.sessions, sess) {
            let k = choose|k: int|
                0 <= k < s2.sessions.len() && (#[trigger] s2.sessions[k]).id == sess;
            assert(s2.sessions[k].id == sess);
        }
    }
}

/// A dead id never renews again: the check reports `None`, and the id is
/// still dead afterwards.
pub proof fn lemma_stale_id_stays_invalid(s: StoreView, dead: u128, new_id: u128, now: u64)
    requires
        store_wf(s),
        session_dead(s, dead),
    ensures
        spec_check_session(s, dead, new_id, now).1 == Ok::<Option<u128>, TodoError>(None),
        session_dead(spec_check_session(s, dead, new_id, now).0, dead),
{
    lemma_filter_sessions_ids(s.sessions, s.issued, purge_keep(now));
    assert(!has_session(spec_purge(s.sessions, now), dead)) by {
        if has_session(spec_purge(s.sessions, now), dead) {
            assert(has_session(s.sessions, dead));
        }
    }
}

/// Once dead, dead for good: no operation of the service — registration,
/// login, renewal, creation, completion or editing — ever brings a
/// rotated-away or expired session id back to life.
pub proof fn lemma_dead_id_survives_every_operation(
    s: StoreView,
    dead: u128,
    name: Seq<char>,
    password: Seq<char>,
    hash: Seq<char>,
    sid: u128,
    now: u64,
    sess: u128,
    item: crate::database::ItemTodoV,
    today: crate::dates::Date,
    id: u32,
    done: bool,
)
    requires
        store_wf(s),
        session_dead(s, dead),
    ensures
        session_dead(crate::todo::user::spec_register(s, name, hash).0, dead),
        session_dead(spec_login(s, name, password, sid, now).0, dead),
        session_dead(spec_check_session(s, sess, sid, now).0, dead),
        session_dead(crate::todo::edit_todo::spec_todo_add(s, sess, item, today, now).0, dead),
        session_dead(
            crate::todo::edit_todo::spec_todo_change_done(s, id, sess, done, now).0,
            dead,
        ),
        session_dead(crate::todo::edit_todo::spec_todo_edit(s, item, sess, today, now).0, dead),
{
    // registration and the todo operations leave sessions and the issued
    // record untouched; login may issue a fresh id, which cannot equal a
    // dead id already on the issued record
    crate::database::lemma_dead_session_stays_dead(s, dead, name, sid, sid, now);
    // renewal: the purge commits first, then rotation applies to the
    // purged store
    let s1 = spec_is_session_valid(s, sess, now).0;
    lemma_filter_sessions_ids(s.sessions, s.issued, purge_keep(now));
    assert(session_dead(s1, dead)) by {
        if has_session(s1.sessions, dead) {
            assert(has_session(s.sessions, dead));
        }
    }
    assert(store_wf(s1));
    crate::database::lemma_dead_session_stays_dead(s1, dead, name, sess, sid, now);
}

impl Todo {
    /// Log `name` in with `password`, issuing the session `sid` at moment
    /// `now` on success.
    pub fn login_at(&mut self, name: &str, password: &str, sid: u128, now: u64) -> (r: Result<
        u128,
        TodoError,
    >)
        requires
            old(self).wf(),
        ensures
            final(self).wf(),
            (final(self)@, r) == spec_login(old(self)@, name@, password@, sid, now),
    {
        let user = match self.database.get_user(name) {
            Ok(u) => u,
            Err(e) => {
                return Err(
                    if matches!(e, DbError::NotFoundUser) {
                        TodoError::NotFoundUser
                    } else {
                        TodoError::FailDbAccess
                    },
                );
            },
        };
        let ok = match verify_password(password, user.password.as_str()) {
            Ok(b) => b,
            Err(_) => {
                return Err(TodoError::HashUserPassword);
            },
        };
        if !ok {
            return Err(TodoError::WrongPassword);
        }
        match self.database.make_new_session_at(name, sid, now) {
            Ok(id) => Ok(id),
            Err(e) => Err(
                if matches!(e, DbError::NotFoundUser) {
                    TodoError::NotFoundUser
                } else {
                    TodoError::FailDbAccess
                },
            ),
        }
    }

    /// Log `name` in with `password`, issuing a freshly drawn session now.
    pub fn login(&mut self, name: &str, password: &str) -> (r: Result<u128, TodoError>)
        requires
            old(self).wf(),
        ensures
            final(self).wf(),
            exists|sid: u128, now: u64|
                (final(self)@, r) == #[trigger] spec_login(old(self)@, name@, password@, sid, now),
            match r {
                Ok(id) => {
                    &&& has_user(old(self)@.users, name@)
                    &&& bcrypt_verifies(password@, user_named(old(self)@.users, name@).password)
                    &&& !old(self)@.issued.contains(id)
                    &&& exists|now: u64|
                        (final(self)@, r) == #[trigger] spec_login(
                            old(self)@,
                            name@,
                            password@,
                            id,
                            now,
                        )
                },
                Err(e) => {
                    &&& final(self)@ == old(self)@
                    &&& (e == TodoError::NotFoundUser <==> !has_user(old(self)@.users, name@))
                    &&& (e == TodoError::WrongPassword ==> !bcrypt_verifies(
                        password@,
                        user_named(old(self)@.users, name@).password,
                    ))
                    &&& (e == TodoError::NotFoundUser || e == TodoError::WrongPassword || e
                        == TodoError::HashUserPassword || e == TodoError::FailDbAccess)
                },
            },
    {
        let sid = fresh_session_id();
        let now = clock::current_time();
        let r = self.login_at(name, password, sid, now);
        proof {
            assert((self@, r) == spec_login(old(self)@, name@, password@, sid, now));
            if let Ok(id) = r {
                assert(id == sid);
                assert((self@, r) == spec_login(old(self)@, name@, password@, id, now));
                assert(spec_make_new_session(old(self)@, name@, sid, now).1 == Ok::<u128, DbError>(
                    sid,
                ));
                assert(!old(self)@.issued.contains(id));
            }
        }
        r
    }

    /// Check `sess` at moment `now` and, when it is valid, rotate it to
    /// `new_id`.  `None` means the session is unknown or expired.
    pub fn is_valid_session_at(&mut self, sess: u128, new_id: u128, now: u64) -> (r: Result<
        Option<u128>,
        TodoError,
    >)
        requires
            old(self).wf(),
        ensures
            final(self).wf(),
            (final(self)@, r) == spec_check_session(old(self)@, sess, new_id, now),
    {
        let valid = match self.database.is_session_valid_at(sess, now) {
            Ok(b) => b,
            Err(_) => {
                return Err(TodoError::FailDbAccess);
            },
        };
        if !valid {
            return Ok(None);
        }
        match self.database.update_session_at(sess, new_id, now) {
            Ok(n) => Ok(Some(n)),
            Err(e) => {
                if matches!(e, DbError::NotFoundSession) {
                    Ok(None)
                } else {
                    Err(TodoError::FailDbAccess)
                }
            },
        }
    }

    /// Check `sess` now and, when it is valid, rotate it to a freshly
    /// drawn id.  `None` means the session is unknown or expired.
    pub fn is_valid_session(&mut self, sess: u128) -> (r: Result<Option<u128>, TodoError>)
        requires
            old(self).wf(),
        ensures
            final(self).wf(),
            exists|nid: u128, now: u64|
                (final(self)@, r) == #[trigger] spec_check_session(old(self)@, sess, nid, now),
            final(self)@.users == old(self)@.users,
            final(self)@.todos == old(self)@.todos,
            final(self)@.next_todo_id == old(self)@.next_todo_id,
            forall|id: u128|
                #[trigger] has_session(final(self)@.sessions, id) ==> has_session(
                    old(self)@.sessions,
                    id,
                ) || (r matches Ok(n) && n == Some(id)),
            match r {
                Ok(Some(n)) => {
                    &&& !old(self)@.issued.contains(n)
                    &&& n != sess
                    &&& has_session(old(self)@.sessions, sess)
                    &&& !has_session(final(self)@.sessions, sess)
                    &&& has_session(final(self)@.sessions, n)
                    &&& final(self)@.issued == old(self)@.issued.push(n)
                },
                Ok(None) => final(self)@.issued == old(self)@.issued,
                Err(e) => e == TodoError::FailDbAccess && final(self)@.issued == old(
                    self,
                )@.issued,
            },
    {
        let ghost s0 = old(self)@;
        let nid = fresh_session_id();
        let now = clock::current_time();
        let r = self.is_valid_session_at(sess, nid, now);
        proof {
            assert((self@, r) == spec_check_session(s0, sess, nid, now));
            let purged = spec_purge(s0.sessions, now);
            lemma_filter_sessions_ids(s0.sessions, s0.issued, purge_keep(now));
            let s1 = spec_is_session_valid(s0, sess, now).0;
            if !has_session(purged, sess) {
                // nothing to rotate: the purge alone committed
                assert(forall|id: u128|
                    #[trigger] has_session(self@.sessions, id) ==> has_session(s0.sessions, id));
            } else {
                assert(store_wf(s1));
                lemma_filter_sessions_ids(s1.sessions, s1.issued, purge_keep(now));
                let purged2 = spec_purge(s1.sessions, now);
                lemma_filter_sessions_ids(purged2, s1.issued, remove_keep(sess));
                let removed = remove_session(purged2, sess);
                if spec_update_session(s1, sess, nid, now).1 is Ok {
                    lemma_rotated_id_retired(s0, sess, nid, now);
                    assert forall|id: u128| #[trigger] has_session(self@.sessions, id) implies (
                    has_session(s0.sessions, id) || id == nid) by {
                        let k = choose|k: int|
                            0 <= k < self@.sessions.len() && (#[trigger] self@.sessions[k]).id
                                == id;
                        if k < removed.len() {
                            assert(removed[k] == self@.sessions[k]);
                            assert(has_session(removed, id));
                            assert(has_session(s1.sessions, id));
                        } else {
                            assert(self@.sessions[k].id == id);
                        }
                    }
                    assert(has_session(self@.sessions, nid)) by {
                        assert(self@.sessions.last().id == nid);
                    }
                    assert(s0.issued.contains(sess)) by {
                        assert(has_session(purged, sess));
                    }
                } else {
                    // the rotation rolled back on top of the committed purge
                    assert(forall|id: u128|
                        #[trigger] has_session(self@.sessions, id) ==> has_session(
                            s0.sessions,
                            id,
                        ));
                }
            }
        }
        r
    }
}

} // verus!
