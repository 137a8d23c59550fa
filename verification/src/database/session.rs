//! Session rows: issuance, rotation and validity.
//!
//! A session is a 128-bit id bound to a user, with a sliding expiry.
//! Rotation deletes the old row and inserts a fresh one in a single
//! transaction; the store records every id it ever issued and refuses to
//! issue one twice, so a rotated-away or expired id can never come back.

use crate::clock;
use crate::database::{
    Database, DbError, Session, SessionV, StoreView, has_session, has_user,
    lemma_map_values_push, lemma_session_with_is, session_with, sessions_wf, store_wf,
};
use vstd::prelude::*;

verus! {

/// How long a freshly issued or rotated session lives, in seconds.
pub const SESSION_TTL_SECONDS: u64 = 1209600;

/// The expiry stamped on a session issued at `now` (saturating at the far
/// end of the clock).
pub open spec fn spec_expiry(now: u64) -> u64 {
    if now + SESSION_TTL_SECONDS > u64::MAX {
        u64::MAX
    } else {
        (now + SESSION_TTL_SECONDS) as u64
    }
}

fn expiry_at(now: u64) -> (r: u64)
    ensures
        r == spec_expiry(now),
{
    if now > u64::MAX - SESSION_TTL_SECONDS {
        u64::MAX
    } else {
        now + SESSION_TTL_SECONDS
    }
}

/// The rows whose `keep` condition holds, in order.
pub open spec fn filter_sessions(sessions: Seq<SessionV>, keep: spec_fn(SessionV) -> bool) -> Seq<
    SessionV,
>
    decreases sessions.len(),
{
    if sessions.len() == 0 {
        Seq::empty()
    } else {
        let rest = filter_sessions(sessions.drop_last(), keep);
        if keep(sessions.last()) {
            rest.push(sessions.last())
        } else {
            rest
        }
    }
}

/// The condition a session row must meet to survive a purge at `now`.
pub open spec fn purge_keep(now: u64) -> spec_fn(SessionV) -> bool {
    |x: SessionV| x.expires_at >= now
}

/// The condition a session row must meet to survive the deletion of `id`.
pub open spec fn remove_keep(id: u128) -> spec_fn(SessionV) -> bool {
    |x: SessionV| x.id != id
}

/// The session rows still alive at `now`: expiry strictly before `now` is
/// purged.
pub open spec fn spec_purge(sessions: Seq<SessionV>, now: u64) -> Seq<SessionV> {
    filter_sessions(sessions, purge_keep(now))
}

/// All rows but the one carrying `id`.
pub open spec fn remove_session(sessions: Seq<SessionV>, id: u128) -> Seq<SessionV> {
    filter_sessions(sessions, remove_keep(id))
}

/// What filtering does to the rows: uniqueness and the issued-record are
/// kept, an id survives exactly when its row meets the condition, and a
/// surviving row is unchanged.
pub proof fn lemma_filter_sessions_ids(
    sessions: Seq<SessionV>,
    issued: Seq<u128>,
    keep: spec_fn(SessionV) -> bool,
)
    requires
        sessions_wf(sessions, issued),
    ensures
        sessions_wf(filter_sessions(sessions, keep), issued),
        forall|id: u128|
            #[trigger] has_session(filter_sessions(sessions, keep), id) <==> (has_session(
                sessions,
                id,
            ) && keep(session_with(sessions, id))),
        forall|id: u128|
            #[trigger] has_session(filter_sessions(sessions, keep), id) ==> session_with(
                filter_sessions(sessions, keep),
                id,
            ) == session_with(sessions, id),
    decreases sessions.len(),
{
    let p = filter_sessions(sessions, keep);
    if sessions.len() == 0 {
        assert(forall|id: u128| !has_session(p, id));
    } else {
        let rest = sessions.drop_last();
        let last = sessions.last();
        assert(forall|i: int| 0 <= i < rest.len() ==> #[trigger] rest[i] == sessions[i]);
        assert(sessions_wf(rest, issued));
        lemma_filter_sessions_ids(rest, issued, keep);
        let pr = filter_sessions(rest, keep);
        // the filtered suffix relation: p is pr, possibly with `last` appended
        assert(forall|i: int| 0 <= i < pr.len() ==> #[trigger] p[i] == pr[i]);
        // uniqueness of ids in p, and issued-membership
        if keep(last) {
            assert(p == pr.push(last));
            assert forall|i: int, j: int| 0 <= i < j < p.len() implies (#[trigger] p[i]).id != (
            #[trigger] p[j]).id by {
                if j == p.len() - 1 {
                    assert(p[j] == last);
                    if pr[i].id == last.id {
                        assert(has_session(pr, last.id));
                        let k = choose|k: int|
                            0 <= k < rest.len() && (#[trigger] rest[k]).id == last.id;
                        assert(sessions[k].id == sessions[sessions.len() - 1].id);
                        assert(false);
                    }
                }
            }
            assert forall|i: int| 0 <= i < p.len() implies issued.contains(
                (#[trigger] p[i]).id,
            ) by {
                if i == p.len() - 1 {
                    assert(p[i] == last);
                    assert(issued.contains(sessions[sessions.len() - 1].id));
                }
            }
        }
        assert(sessions_wf(p, issued));
        // membership, forward
        assert forall|id: u128| #[trigger] has_session(p, id) implies (has_session(sessions, id)
            && keep(session_with(sessions, id)) && session_with(p, id) == session_with(
            sessions,
            id,
        )) by {
            let i = choose|i: int| 0 <= i < p.len() && (#[trigger] p[i]).id == id;
            lemma_session_with_is(p, issued, id, i);
            if keep(last) && i == p.len() - 1 {
                assert(p[i] == last);
                lemma_session_with_is(sessions, issued, id, sessions.len() - 1);
            } else {
                assert(p[i] == pr[i]);
                assert(has_session(pr, id));
                lemma_session_with_is(pr, issued, id, i);
                let j = choose|j: int| 0 <= j < rest.len() && (#[trigger] rest[j]).id == id;
                lemma_session_with_is(rest, issued, id, j);
                lemma_session_with_is(sessions, issued, id, j);
            }
        }
        // membership, backward
        assert forall|id: u128|
            has_session(sessions, id) && keep(session_with(sessions, id)) implies #[trigger] has_session(
            p,
            id,
        ) by {
            let i = choose|i: int| 0 <= i < sessions.len() && (#[trigger] sessions[i]).id == id;
            lemma_session_with_is(sessions, issued, id, i);
            if i == sessions.len() - 1 {
                assert(p[p.len() - 1].id == id);
            } else {
                assert(rest[i] == sessions[i]);
                lemma_session_with_is(rest, issued, id, i);
                assert(has_session(rest, id));
                assert(keep(session_with(rest, id)));
                assert(has_session(pr, id));
                let k = choose|k: int| 0 <= k < pr.len() && (#[trigger] pr[k]).id == id;
                assert(p[k].id == id);
            }
        }
    }
}

/// Issuing a session: fails on an unknown user (the foreign key) or an
/// already-issued id (the primary key); otherwise the row is appended with
/// expiry `now + TTL` and the id is recorded as issued.
pub open spec fn spec_make_new_session(s: StoreView, name: Seq<char>, id: u128, now: u64) -> (
    StoreView,
    Result<u128, DbError>,
) {
    if !has_user(s.users, name) {
        (s, Err(DbError::NotFoundUser))
    } else if s.issued.contains(id) {
        (s, Err(DbError::FailDbAccess))
    } else {
        (
            StoreView {
                sessions: s.sessions.push(
                    SessionV { id, user_name: name, expires_at: spec_expiry(now) },
                ),
                issued: s.issued.push(id),
                ..s
            },
            Ok(id),
        )
    }
}

/// Rotation, as one transaction: purge the expired rows, find the old row,
/// delete it, insert a fresh row for the same user.  On any failure the
/// whole transaction rolls back and the store is unchanged.
pub open spec fn spec_update_session(s: StoreView, id: u128, new_id: u128, now: u64) -> (
    StoreView,
    Result<u128, DbError>,
) {
    let purged = spec_purge(s.sessions, now);
    if !has_session(purged, id) {
        (s, Err(DbError::NotFoundSession))
    } else if s.issued.contains(new_id) {
        (s, Err(DbError::FailDbAccess))
    } else {
        (
            StoreView {
                sessions: remove_session(purged, id).push(
                    SessionV {
                        id: new_id,
                        user_name: session_with(purged, id).user_name,
                        expires_at: spec_expiry(now),
                    },
                ),
                issued: s.issued.push(new_id),
                ..s
            },
            Ok(new_id),
        )
    }
}

/// The validity check: purge the expired rows (this commits), then report
/// whether the id is still present.
pub open spec fn spec_is_session_valid(s: StoreView, sess: u128, now: u64) -> (
    StoreView,
    Result<bool, DbError>,
) {
    let purged = spec_purge(s.sessions, now);
    (StoreView { sessions: purged, ..s }, Ok(has_session(purged, sess)))
}

/// Clone a session row; the copy carries the same view.
fn clone_session(s: &Session) -> (r: Session)
    ensures
        r@ == s@,
{
    Session { id: s.id, user_name: s.user_name.clone(), expires_at: s.expires_at }
}

/// Build the purged table: the rows of `v` still alive at `now`.
fn purge_sessions(v: &Vec<Session>, now: u64) -> (r: Vec<Session>)
    ensures
        r@.map_values(|s: Session| s@) == spec_purge(v@.map_values(|s: Session| s@), now),
{
    let ghost sv = v@.map_values(|s: Session| s@);
    let mut out: Vec<Session> = Vec::new();
    let n = v.len();
    let mut i: usize = 0;
    while i < n
        invariant
            i <= n,
            n == v@.len(),
            sv == v@.map_values(|s: Session| s@),
            out@.map_values(|s: Session| s@) == filter_sessions(sv.take(i as int), purge_keep(now)),
        decreases n - i,
    {
        let ghost out_pre = out@;
        proof {
            assert(sv.take(i as int + 1).drop_last() =~= sv.take(i as int));
            assert(sv.take(i as int + 1).last() == sv[i as int]);
        }
        if v[i].expires_at >= now {
            let row = clone_session(&v[i]);
            out.push(row);
            proof {
                assert(out@.map_values(|s: Session| s@) =~= out_pre.map_values(
                    |s: Session| s@,
                ).push(sv[i as int]));
            }
        }
        i = i + 1;
    }
    proof {
        assert(sv.take(n as int) =~= sv);
    }
    out
}

/// Build the table without the row carrying `id`.
fn remove_sessions_vec(v: &Vec<Session>, id: u128) -> (r: Vec<Session>)
    ensures
        r@.map_values(|s: Session| s@) == remove_session(v@.map_values(|s: Session| s@), id),
{
    let ghost sv = v@.map_values(|s: Session| s@);
    let mut out: Vec<Session> = Vec::new();
    let n = v.len();
    let mut i: usize = 0;
    while i < n
        invariant
            i <= n,
            n == v@.len(),
            sv == v@.map_values(|s: Session| s@),
            out@.map_values(|s: Session| s@) == filter_sessions(sv.take(i as int), remove_keep(id)),
        decreases n - i,
    {
        let ghost out_pre = out@;
        proof {
            assert(sv.take(i as int + 1).drop_last() =~= sv.take(i as int));
            assert(sv.take(i as int + 1).last() == sv[i as int]);
        }
        if v[i].id != id {
            let row = clone_session(&v[i]);
            out.push(row);
            proof {
                assert(out@.map_values(|s: Session| s@) =~= out_pre.map_values(
                    |s: Session| s@,
                ).push(sv[i as int]));
            }
        }
        i = i + 1;
    }
    proof {
        assert(sv.take(n as int) =~= sv);
    }
    out
}

/// Index of the row carrying `id`, if any.
pub(crate) fn session_index(v: &Vec<Session>, id: u128) -> (r: Option<usize>)
    ensures
        match r {
            Some(i) => i < v@.len() && v@[i as int]@.id == id,
            None => !has_session(v@.map_values(|s: Session| s@), id),
        },
{
    let n = v.len();
    let mut i: usize = 0;
    while i < n
        invariant
            i <= n,
            n == v@.len(),
            forall|j: int| 0 <= j < i ==> (#[trigger] v@[j])@.id != id,
        decreases n - i,
    {
        if v[i].id == id {
            return Some(i);
        }
        i = i + 1;
    }
    None
}

/// Whether `id` was ever issued.
fn issued_contains(v: &Vec<u128>, id: u128) -> (r: bool)
    ensures
        r == v@.contains(id),
{
    let n = v.len();
    let mut i: usize = 0;
    while i < n
        invariant
            i <= n,
            n == v@.len(),
            forall|j: int| 0 <= j < i ==> v@[j] != id,
        decreases n - i,
    {
        if v[i] == id {
            return true;
        }
        i = i + 1;
    }
    false
}

/// Relies on uuid: `Uuid::now_v7()` draws a fresh time-ordered id.  Nothing
/// is promised of the value; freshness is enforced against the store's
/// issued-id record by the callers.  Like the rest of the application,
/// this inherits uuid's panic when the host clock is set before the Unix
/// epoch.
#[verifier::external_body]
pub(crate) fn fresh_session_id() -> u128 {
    uuid::Uuid::now_v7().as_u128()
}

impl Database {
    /// Issue a session for `user_name` with the given id, at moment `now`.
    pub fn make_new_session_at(&mut self, user_name: &str, id: u128, now: u64) -> (r: Result<
        u128,
        DbError,
    >)
        requires
            old(self).wf(),
        ensures
            final(self).wf(),
            final(self)@ == spec_make_new_session(old(self)@, user_name@, id, now).0,
            r == spec_make_new_session(old(self)@, user_name@, id, now).1,
    {
        if self.get_user(user_name).is_err() {
            return Err(DbError::NotFoundUser);
        }
        if issued_contains(&self.issued, id) {
            return Err(DbError::FailDbAccess);
        }
        let row = Session { id, user_name: user_name.to_owned(), expires_at: expiry_at(now) };
        self.sessions.push(row);
        self.issued.push(id);
        proof {
            lemma_map_values_push(old(self).sessions@, |s: Session| s@, row);
            assert(self@ =~= spec_make_new_session(old(self)@, user_name@, id, now).0);
            // the fresh id was never issued, so it collides with no live row
            assert forall|k: int|
                0 <= k < self@.sessions.len() implies self@.issued.contains(
                (#[trigger] self@.sessions[k]).id) by {
                if k < old(self)@.sessions.len() {
                    let past = old(self)@.issued;
                    let m = choose|m: int|
                        0 <= m < past.len() && past[m] == old(self)@.sessions[k].id;
                    assert(self@.issued[m] == old(self)@.sessions[k].id);
                } else {
                    assert(self@.issued.last() == id);
                }
            }
            assert forall|k1: int, k2: int|
                0 <= k1 < k2 < self@.sessions.len() implies (
            #[trigger] self@.sessions[k1]).id != (#[trigger] self@.sessions[k2]).id by {
                if k2 == self@.sessions.len() - 1 {
                    if old(self)@.sessions[k1].id == id {
                        assert(old(self)@.issued.contains(id));
                    }
                }
            }
        }
        Ok(id)
    }

    /// Issue a session for `user_name` with a freshly drawn id, now.
    pub fn make_new_session(&mut self, user_name: &str) -> (r: Result<u128, DbError>)
        requires
            old(self).wf(),
        ensures
            final(self).wf(),
            exists|id: u128, now: u64|
                (final(self)@, r) == #[trigger] spec_make_new_session(
                    old(self)@,
                    user_name@,
                    id,
                    now,
                ),
            match r {
                Ok(id) => {
                    &&& has_user(old(self)@.users, user_name@)
                    &&& !old(self)@.issued.contains(id)
                    &&& exists|now: u64|
                        (final(self)@, r) == #[trigger] spec_make_new_session(
                            old(self)@,
                            user_name@,
                            id,
                            now,
                        )
                },
                Err(e) => {
                    &&& final(self)@ == old(self)@
                    &&& (e == DbError::NotFoundUser <==> !has_user(old(self)@.users, user_name@))
                    &&& (e == DbError::NotFoundUser || e == DbError::FailDbAccess)
                },
            },
    {
        let id = fresh_session_id();
        let now = clock::current_time();
        let r = self.make_new_session_at(user_name, id, now);
        proof {
            assert((self@, r) == spec_make_new_session(old(self)@, user_name@, id, now));
        }
        r
    }

    /// Rotate the session `id` at moment `now`: purge expired rows, delete
    /// the old row, insert a fresh row carrying `new_id` for the same user.
    pub fn update_session_at(&mut self, id: u128, new_id: u128, now: u64) -> (r: Result<
        u128,
        DbError,
    >)
        requires
            old(self).wf(),
        ensures
            final(self).wf(),
            final(self)@ == spec_update_session(old(self)@, id, new_id, now).0,
            r == spec_update_session(old(self)@, id, new_id, now).1,
    {
        let ghost sv = old(self)@.sessions;
        let ghost issued0 = old(self)@.issued;
        proof {
            lemma_filter_sessions_ids(sv, issued0, purge_keep(now));
        }
        let purged = purge_sessions(&self.sessions, now);
        let found = session_index(&purged, id);
        let idx = match found {
            Some(i) => i,
            None => {
                return Err(DbError::NotFoundSession);
            },
        };
        proof {
            lemma_session_with_is(spec_purge(sv, now), issued0, id, idx as int);
        }
        if issued_contains(&self.issued, new_id) {
            return Err(DbError::FailDbAccess);
        }
        let user_name = purged[idx].user_name.clone();
        let mut kept = remove_sessions_vec(&purged, id);
        proof {
            lemma_filter_sessions_ids(spec_purge(sv, now), issued0, remove_keep(id));
        }
        let row = Session { id: new_id, user_name, expires_at: expiry_at(now) };
        let ghost kept_seq = kept@;
        let ghost kept_v = kept@.map_values(|s: Session| s@);
        kept.push(row);
        proof {
            lemma_map_values_push(kept_seq, |s: Session| s@, row);
        }
        self.sessions = kept;
        self.issued.push(new_id);
        proof {
            let target = spec_update_session(old(self)@, id, new_id, now).0;
            assert(kept@.map_values(|s: Session| s@) =~= kept_v.push(row@));
            assert(self@ =~= target);
            // well-formedness of the rotated table
            let removed = remove_session(spec_purge(sv, now), id);
            assert forall|k: int|
                0 <= k < self@.sessions.len() implies self@.issued.contains(
                (#[trigger] self@.sessions[k]).id) by {
                if k < removed.len() {
                    assert(has_session(removed, removed[k].id));
                    let m = choose|m: int|
                        0 <= m < issued0.len() && issued0[m] == removed[k].id;
                    assert(self@.issued[m] == removed[k].id);
                } else {
                    assert(self@.issued.last() == new_id);
                }
            }
            assert forall|k1: int, k2: int|
                0 <= k1 < k2 < self@.sessions.len() implies (
            #[trigger] self@.sessions[k1]).id != (#[trigger] self@.sessions[k2]).id by {
                if k2 == self@.sessions.len() - 1 {
                    if removed[k1].id == new_id {
                        assert(has_session(removed, new_id));
                        assert(issued0.contains(new_id));
                    }
                }
            }
        }
        Ok(new_id)
    }

    /// Rotate the session `id` with a freshly drawn id, now.
    pub fn update_session(&mut self, id: u128) -> (r: Result<u128, DbError>)
        requires
            old(self).wf(),
        ensures
            final(self).wf(),
            exists|nid: u128, now: u64|
                (final(self)@, r) == #[trigger] spec_update_session(old(self)@, id, nid, now),
            match r {
                Ok(new_id) => {
                    &&& new_id != id
                    &&& !old(self)@.issued.contains(new_id)
                    &&& !has_session(final(self)@.sessions, id)
                    &&& has_session(final(self)@.sessions, new_id)
                    &&& final(self)@.issued == old(self)@.issued.push(new_id)
                    &&& exists|now: u64|
                        (final(self)@, r) == #[trigger] spec_update_session(
                            old(self)@,
                            id,
                            new_id,
                            now,
                        )
                },
                Err(e) => {
                    &&& final(self)@ == old(self)@
                    &&& (e == DbError::NotFoundSession || e == DbError::FailDbAccess)
                },
            },
    {
        let new_id = fresh_session_id();
        let now = clock::current_time();
        let r = self.update_session_at(id, new_id, now);
        proof {
            assert((self@, r) == spec_update_session(old(self)@, id, new_id, now));
            if r is Ok {
                let purged = spec_purge(old(self)@.sessions, now);
                lemma_filter_sessions_ids(old(self)@.sessions, old(self)@.issued, purge_keep(now));
                lemma_filter_sessions_ids(purged, old(self)@.issued, remove_keep(id));
                let removed = remove_session(purged, id);
                let fin = self@.sessions;
                assert(fin == removed.push(
                    SessionV {
                        id: new_id,
                        user_name: session_with(purged, id).user_name,
                        expires_at: spec_expiry(now),
                    },
                ));
                // the old id is gone: it is not in the removed table, and
                // the appended row carries the fresh id
                assert(!has_session(removed, id));
                assert forall|k: int| 0 <= k < fin.len() implies (#[trigger] fin[k]).id != id by {
                    if k < removed.len() {
                        assert(has_session(removed, fin[k].id));
                    } else {
                        assert(fin[k].id == new_id);
                        assert(old(self)@.issued.contains(id)) by {
                            assert(has_session(purged, id));
                        }
                    }
                }
                assert(!has_session(fin, id)) by {
                    if has_session(fin, id) {
                        let k = choose|k: int| 0 <= k < fin.len() && (#[trigger] fin[k]).id == id;
                    }
                }
                assert(fin[fin.len() - 1].id == new_id);
                assert(has_session(fin, new_id));
                assert(old(self)@.issued.contains(id)) by {
                    assert(has_session(purged, id));
                }
                assert(new_id != id);
            }
        }
        r
    }

    /// Purge expired rows at moment `now`, then report whether `sess` is
    /// still present.
    pub fn is_session_valid_at(&mut self, sess: u128, now: u64) -> (r: Result<bool, DbError>)
        requires
            old(self).wf(),
        ensures
            final(self).wf(),
            final(self)@ == spec_is_session_valid(old(self)@, sess, now).0,
            r == spec_is_session_valid(old(self)@, sess, now).1,
    {
        let ghost sv = old(self)@.sessions;
        proof {
            lemma_filter_sessions_ids(sv, old(self)@.issued, purge_keep(now));
        }
        let purged = purge_sessions(&self.sessions, now);
        self.sessions = purged;
        proof {
            assert(self@ =~= spec_is_session_valid(old(self)@, sess, now).0);
        }
        let found = session_index(&self.sessions, sess);
        match found {
            Some(i) => {
                proof {
                    assert(has_session(self@.sessions, sess)) by {
                        assert(self@.sessions[i as int].id == sess);
                    }
                }
                Ok(true)
            },
            None => Ok(false),
        }
    }

    /// Purge expired rows now, then report whether `sess` is still present.
    pub fn is_session_valid(&mut self, sess: u128) -> (r: Result<bool, DbError>)
        requires
            old(self).wf(),
        ensures
            final(self).wf(),
            final(self)@.users == old(self)@.users,
            final(self)@.issued == old(self)@.issued,
            final(self)@.todos == old(self)@.todos,
            final(self)@.next_todo_id == old(self)@.next_todo_id,
            exists|now: u64|
                (final(self)@, r) == #[trigger] spec_is_session_valid(old(self)@, sess, now),
            match r {
                Ok(b) => b ==> has_session(old(self)@.sessions, sess),
                Err(_) => false,
            },
    {
        let now = clock::current_time();
        let r = self.is_session_valid_at(sess, now);
        proof {
            assert((self@, r) == spec_is_session_valid(old(self)@, sess, now));
            lemma_filter_sessions_ids(old(self)@.sessions, old(self)@.issued, purge_keep(now));
        }
        r
    }
}

/// An id the store has issued but no longer lists: a dead session id.
pub open spec fn session_dead(s: StoreView, id: u128) -> bool {
    s.issued.contains(id) && !has_session(s.sessions, id)
}

/// A successful rotation hands out an id that was never issued before, and
/// afterwards the issued record has grown by exactly that id.  This is why
/// no two rotations ever agree on an id.
pub proof fn lemma_rotation_issues_fresh(s: StoreView, id: u128, new_id: u128, now: u64)
    requires
        store_wf(s),
    ensures
        spec_update_session(s, id, new_id, now).1 == Ok::<u128, DbError>(new_id) ==> {
            &&& !s.issued.contains(new_id)
            &&& s.issued.contains(id)
            &&& new_id != id
            &&& spec_update_session(s, id, new_id, now).0.issued == s.issued.push(new_id)
        },
{
    lemma_filter_sessions_ids(s.sessions, s.issued, purge_keep(now));
    if spec_update_session(s, id, new_id, now).1 == Ok::<u128, DbError>(new_id) {
        assert(has_session(spec_purge(s.sessions, now), id));
    }
}

/// Rotating a session twice in sequence, feeding the second call the first
/// call's output, never yields the same id twice: the three ids in play are
/// pairwise distinct.
pub proof fn lemma_rotation_never_repeats(
    s: StoreView,
    sess: u128,
    id1: u128,
    now1: u64,
    id2: u128,
    now2: u64,
)
    requires
        store_wf(s),
    ensures
        ({
            let (s1, r1) = spec_update_session(s, sess, id1, now1);
            let (s2, r2) = spec_update_session(s1, id1, id2, now2);
            (r1 is Ok && r2 is Ok) ==> id1 != sess && id2 != id1 && id2 != sess
        }),
{
    let (s1, r1) = spec_update_session(s, sess, id1, now1);
    let (s2, r2) = spec_update_session(s1, id1, id2, now2);
    if r1 is Ok && r2 is Ok {
        lemma_rotation_issues_fresh(s, sess, id1, now1);
        // the second rotation's definition refuses an id already issued
        assert(!s1.issued.contains(id2));
        assert(s1.issued == s.issued.push(id1));
        assert(s.issued.contains(sess));
        assert(s1.issued.contains(sess)) by {
            let m = choose|m: int| 0 <= m < s.issued.len() && s.issued[m] == sess;
            assert(s1.issued[m] == sess);
        }
        assert(s1.issued.contains(id1)) by {
            assert(s1.issued.last() == id1);
        }
    }
}

/// After a successful rotation the pre-rotation id is dead: still on the
/// issued record, but no longer a live session.
pub proof fn lemma_rotation_retires_old(s: StoreView, sess: u128, new_id: u128, now: u64)
    requires
        store_wf(s),
        spec_update_session(s, sess, new_id, now).1 is Ok,
    ensures
        session_dead(spec_update_session(s, sess, new_id, now).0, sess),
{
    lemma_filter_sessions_ids(s.sessions, s.issued, purge_keep(now));
    let purged = spec_purge(s.sessions, now);
    lemma_filter_sessions_ids(purged, s.issued, remove_keep(sess));
    let s2 = spec_update_session(s, sess, new_id, now).0;
    let removed = remove_session(purged, sess);
    assert(s.issued.contains(sess)) by {
        assert(has_session(purged, sess));
    }
    assert(s2.issued.contains(sess)) by {
        let m = choose|m: int| 0 <= m < s.issued.len() && s.issued[m] == sess;
        assert(s2.issued[m] == sess);
    }
    assert forall|k: int| 0 <= k < s2.sessions.len() implies (#[trigger] s2.sessions[k]).id
        != sess by {
        if k < removed.len() {
            assert(has_session(removed, s2.sessions[k].id));
        } else {
            assert(s2.sessions[k].id == new_id);
            assert(!s.issued.contains(new_id));
        }
    }
    assert(!has_session(s2.sessions, sess)) by {
        if has_session(s2.sessions, sess) {
            let k = choose|k: int|
                0 <= k < s2.sessions.len() && (#[trigger] s2.sessions[k]).id == sess;
        }
    }
}

/// A dead session id stays dead across every session operation: issuance
/// and rotation only add ids that were never issued, and purging only
/// removes rows.
pub proof fn lemma_dead_session_stays_dead(
    s: StoreView,
    dead: u128,
    name: Seq<char>,
    id: u128,
    new_id: u128,
    now: u64,
)
    requires
        store_wf(s),
        session_dead(s, dead),
    ensures
        session_dead(spec_make_new_session(s, name, id, now).0, dead),
        session_dead(spec_update_session(s, id, new_id, now).0, dead),
        session_dead(spec_is_session_valid(s, id, now).0, dead),
        spec_is_session_valid(s, dead, now).1 == Ok::<bool, DbError>(false),
{
    lemma_filter_sessions_ids(s.sessions, s.issued, purge_keep(now));
    let purged = spec_purge(s.sessions, now);
    lemma_filter_sessions_ids(purged, s.issued, remove_keep(id));
    // issuance
    let s1 = spec_make_new_session(s, name, id, now).0;
    assert(s1.issued.contains(dead)) by {
        let m = choose|m: int| 0 <= m < s.issued.len() && s.issued[m] == dead;
        assert(s1.issued[m] == dead);
    }
    assert(!has_session(s1.sessions, dead)) by {
        if spec_make_new_session(s, name, id, now).1 is Ok {
            if has_session(s1.sessions, dead) {
                let k = choose|k: int|
                    0 <= k < s1.sessions.len() && (#[trigger] s1.sessions[k]).id == dead;
                if k < s.sessions.len() {
                    assert(s.sessions[k].id == dead);
                    assert(has_session(s.sessions, dead));
                } else {
                    assert(s1.sessions[k].id == id);
                    assert(!s.issued.contains(id));
                }
            }
        }
    }
    // rotation
    let s2 = spec_update_session(s, id, new_id, now).0;
    assert(s2.issued.contains(dead)) by {
        let m = choose|m: int| 0 <= m < s.issued.len() && s.issued[m] == dead;
        if spec_update_session(s, id, new_id, now).1 is Ok {
            assert(s2.issued[m] == dead);
        }
    }
    assert(!has_session(s2.sessions, dead)) by {
        if spec_update_session(s, id, new_id, now).1 is Ok {
            let removed = remove_session(purged, id);
            if has_session(s2.sessions, dead) {
                let k = choose|k: int|
                    0 <= k < s2.sessions.len() && (#[trigger] s2.sessions[k]).id == dead;
                if k < removed.len() {
                    assert(has_session(removed, dead));
                    assert(has_session(s.sessions, dead));
                } else {
                    assert(s2.sessions[k].id == new_id);
                    assert(!s.issued.contains(new_id));
                }
            }
        }
    }
    // validity check
    let s3 = spec_is_session_valid(s, id, now).0;
    assert(!has_session(s3.sessions, dead)) by {
        if has_session(s3.sessions, dead) {
            assert(has_session(s.sessions, dead));
        }
    }
    assert(!has_session(spec_purge(s.sessions, now), dead)) by {
        if has_session(spec_purge(s.sessions, now), dead) {
            assert(has_session(s.sessions, dead));
        }
    }
}

} // verus!
