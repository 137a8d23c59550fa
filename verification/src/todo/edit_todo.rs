//! Creation and mutation of todo items, scoped by session.

use crate::clock;
use crate::database::{
    ItemTodo, ItemTodoV, StoreView, has_todo, lemma_visible_rows, spec_add_todo_item,
    spec_change_done, spec_edit_todo, spec_get_todo_by_id, spec_get_user_from_sess,
    spec_list_todos, spec_session_live, stored_item, todo_visible,
};
use crate::dates::{Date, date_le};
use crate::text::{is_blank, is_blank_text};
use crate::todo::{Todo, TodoError};
use vstd::prelude::*;

verus! {

/// The note field as stored: a note that trims down to nothing is stored
/// as no note at all.
pub open spec fn normalize_work(w: Option<Seq<char>>) -> Option<Seq<char>> {
    match w {
        Some(t) => if is_blank_text(t) {
            None
        } else {
            Some(t)
        },
        None => None,
    }
}

/// A blank note (empty or whitespace only) is stored as absent; any other
/// note is stored exactly as given.
pub proof fn lemma_blank_work_stored_none(w: Option<Seq<char>>)
    ensures
        w matches Some(t) && is_blank_text(t) ==> normalize_work(w) is None,
        w matches Some(t) && !is_blank_text(t) ==> normalize_work(w) == w,
        w is None ==> normalize_work(w) is None,
{
}

/// Creation over the store at moment `now`: resolve the session to its
/// user, overwrite the owner field with that user (whatever the caller
/// sent), normalize the note, and insert with the date defaults.
pub open spec fn spec_todo_add(
    s: StoreView,
    sess: u128,
    item: ItemTodoV,
    today: Date,
    now: u64,
) -> (StoreView, Result<(), TodoError>) {
    match spec_get_user_from_sess(s, sess, now) {
        Err(_) => (s, Err(TodoError::NotFoundSession)),
        Ok(u) => {
            let fixed = ItemTodoV { user_name: u.name, work: normalize_work(item.work), ..item };
            let (s1, r) = spec_add_todo_item(s, fixed, today);
            match r {
                Ok(_) => (s1, Ok(())),
                Err(_) => (s1, Err(TodoError::FailDbAccess)),
            }
        },
    }
}

/// Completion over the store at moment `now`: the verify-then-mutate rule.
/// The row must be visible to the live session's user; only then is its
/// done flag set.
pub open spec fn spec_todo_change_done(
    s: StoreView,
    id: u32,
    sess: u128,
    done: bool,
    now: u64,
) -> (StoreView, Result<(), TodoError>) {
    if spec_get_todo_by_id(s, id, sess, now) is Err {
        (s, Err(TodoError::NotFoundTodo))
    } else {
        let (s1, r) = spec_change_done(s, id, done);
        match r {
            Ok(_) => (s1, Ok(())),
            Err(_) => (s1, Err(TodoError::NotFoundTodo)),
        }
    }
}

/// Editing over the store at moment `now`: normalize the note, verify the
/// row is visible to the live session's user, then overwrite it with the
/// date defaults.
pub open spec fn spec_todo_edit(
    s: StoreView,
    item: ItemTodoV,
    sess: u128,
    today: Date,
    now: u64,
) -> (StoreView, Result<(), TodoError>) {
    let fixed = ItemTodoV { work: normalize_work(item.work), ..item };
    if spec_get_todo_by_id(s, item.id, sess, now) is Err {
        (s, Err(TodoError::NotFoundTodo))
    } else {
        let (s1, r) = spec_edit_todo(s, fixed, today);
        match r {
            Ok(_) => (s1, Ok(())),
            Err(_) => (s1, Err(TodoError::NotFoundTodo)),
        }
    }
}

/// Editing a row id that does not exist is always refused with
/// `NotFoundTodo`, and every stored row is left exactly as it was.
pub proof fn lemma_edit_missing_id(
    s: StoreView,
    item: ItemTodoV,
    sess: u128,
    today: Date,
    now: u64,
)
    requires
        !has_todo(s.todos, item.id),
    ensures
        spec_todo_edit(s, item, sess, today, now) == (
            s,
            Err::<(), TodoError>(TodoError::NotFoundTodo),
        ),
{
}

/// A created item shows up in a listing of its creator's session: while
/// the todo id space is not exhausted, adding through a session that
/// resolves succeeds, the appended row carries the normalized note, the
/// given title, today's update stamp and an unset done flag, and the
/// listing whose reference date its start date has reached contains it.
pub proof fn lemma_added_item_listed(
    s: StoreView,
    sess: u128,
    item: ItemTodoV,
    today: Date,
    now: u64,
    ref_date: Date,
    only_incomplete: bool,
)
    requires
        spec_get_user_from_sess(s, sess, now) is Ok,
        s.next_todo_id < u32::MAX,
        date_le(
            match item.start_date {
                Some(d) => d,
                None => today,
            },
            ref_date,
        ),
    ensures
        spec_todo_add(s, sess, item, today, now).1 is Ok,
        ({
            let s1 = spec_todo_add(s, sess, item, today, now).0;
            spec_get_user_from_sess(s, sess, now) matches Ok(u) ==> {
                let stored = stored_item(
                    ItemTodoV { user_name: u.name, work: normalize_work(item.work), ..item },
                    s.next_todo_id,
                    today,
                );
                &&& s1.todos == s.todos.push(stored)
                &&& stored.work == normalize_work(item.work)
                &&& stored.title == item.title
                &&& !stored.done
                &&& stored.update_date == Some(today)
                &&& spec_list_todos(s1, sess, ref_date, only_incomplete, now).contains(stored)
            }
        }),
{
    let s1 = spec_todo_add(s, sess, item, today, now).0;
    if let Ok(u) = spec_get_user_from_sess(s, sess, now) {
        let stored = stored_item(
            ItemTodoV { user_name: u.name, work: normalize_work(item.work), ..item },
            s.next_todo_id,
            today,
        );
        let owner = crate::database::session_with(s.sessions, sess).user_name;
        assert(spec_session_live(s.sessions, sess, now));
        assert(u == crate::database::user_named(s.users, owner));
        assert(u.name == owner);
        assert(s1.todos == s.todos.push(stored));
        assert(todo_visible(stored, owner, ref_date, only_incomplete));
        lemma_visible_rows(s1.todos, owner, ref_date, only_incomplete);
        assert(s1.todos[s1.todos.len() - 1] == stored);
        assert(crate::database::visible(s1.todos, owner, ref_date, only_incomplete).contains(
            stored,
        ));
    }
}

impl Todo {
    /// Create a todo for the user of a session live at `now`, dated with
    /// `today`.  The item's id, owner, update date and done flag are
    /// ignored; a blank note is stored as absent.
    pub fn add_todo_at(&mut self, sess: u128, item: &ItemTodo, today: Date, now: u64) -> (r:
        Result<(), TodoError>)
        requires
            old(self).wf(),
        ensures
            final(self).wf(),
            (final(self)@, r) == spec_todo_add(old(self)@, sess, item@, today, now),
    {
        let user = match self.database.get_user_from_sess_at(sess, now) {
            Ok(u) => u,
            Err(_) => {
                return Err(TodoError::NotFoundSession);
            },
        };
        let work: Option<String> = match &item.work {
            Some(w) => {
                if is_blank(w.as_str()) {
                    None
                } else {
                    Some(w.clone())
                }
            },
            None => None,
        };
        let fixed = ItemTodo {
            id: item.id,
            user_name: user.name,
            title: item.title.clone(),
            work,
            update_date: item.update_date,
            start_date: item.start_date,
            end_date: item.end_date,
            done: item.done,
        };
        proof {
            assert(fixed@ =~= (ItemTodoV {
                user_name: user@.name,
                work: normalize_work(item@.work),
                ..item@
            }));
        }
        match self.database.add_todo_item_on(&fixed, today) {
            Ok(_) => Ok(()),
            Err(_) => Err(TodoError::FailDbAccess),
        }
    }

    /// Create a todo for the session's user, dated with today's date from
    /// the clock.
    pub fn add_todo(&mut self, sess: u128, item: &ItemTodo) -> (r: Result<(), TodoError>)
        requires
            old(self).wf(),
        ensures
            final(self).wf(),
            exists|today: Date, now: u64|
                {
                    &&& 1 <= today.month <= 12
                    &&& 1 <= today.day <= 31
                    &&& (final(self)@, r) == #[trigger] spec_todo_add(
                        old(self)@,
                        sess,
                        item@,
                        today,
                        now,
                    )
                },
    {
        let today = clock::today();
        let now = clock::current_time();
        let r = self.add_todo_at(sess, item, today, now);
        proof {
            assert((self@, r) == spec_todo_add(old(self)@, sess, item@, today, now));
        }
        r
    }

    /// Set the done flag of the row carrying `id`, provided the user of a
    /// session live at `now` may see it.
    pub fn change_done_at(&mut self, id: u32, sess: u128, done: bool, now: u64) -> (r: Result<
        (),
        TodoError,
    >)
        requires
            old(self).wf(),
        ensures
            final(self).wf(),
            (final(self)@, r) == spec_todo_change_done(old(self)@, id, sess, done, now),
    {
        match self.database.get_todo_item_with_id_at(id, sess, now) {
            Ok(_) => {},
            Err(_) => {
                return Err(TodoError::NotFoundTodo);
            },
        };
        match self.database.change_done(id, done) {
            Ok(_) => Ok(()),
            Err(_) => Err(TodoError::NotFoundTodo),
        }
    }

    /// Set the done flag of the row carrying `id`, provided the session's
    /// user may see it.
    pub fn change_done(&mut self, id: u32, sess: u128, done: bool) -> (r: Result<(), TodoError>)
        requires
            old(self).wf(),
        ensures
            final(self).wf(),
            exists|now: u64|
                (final(self)@, r) == #[trigger] spec_todo_change_done(
                    old(self)@,
                    id,
                    sess,
                    done,
                    now,
                ),
    {
        let now = clock::current_time();
        let r = self.change_done_at(id, sess, done, now);
        proof {
            assert((self@, r) == spec_todo_change_done(old(self)@, id, sess, done, now));
        }
        r
    }

    /// Overwrite the row carrying the item's id, dated with `today`,
    /// provided the user of a session live at `now` may see it.  The owner
    /// and done flag are kept; a blank note is stored as absent.
    pub fn edit_todo_at(&mut self, item: &ItemTodo, sess: u128, today: Date, now: u64) -> (r:
        Result<(), TodoError>)
        requires
            old(self).wf(),
        ensures
            final(self).wf(),
            (final(self)@, r) == spec_todo_edit(old(self)@, item@, sess, today, now),
    {
        let work: Option<String> = match &item.work {
            Some(w) => {
                if is_blank(w.as_str()) {
                    None
                } else {
                    Some(w.clone())
                }
            },
            None => None,
        };
        let fixed = ItemTodo {
            id: item.id,
            user_name: item.user_name.clone(),
            title: item.title.clone(),
            work,
            update_date: item.update_date,
            start_date: item.start_date,
            end_date: item.end_date,
            done: item.done,
        };
        proof {
            assert(fixed@ =~= (ItemTodoV { work: normalize_work(item@.work), ..item@ }));
        }
        match self.database.get_todo_item_with_id_at(item.id, sess, now) {
            Ok(_) => {},
            Err(_) => {
                return Err(TodoError::NotFoundTodo);
            },
        };
        match self.database.edit_todo_on(&fixed, today) {
            Ok(_) => Ok(()),
            Err(_) => Err(TodoError::NotFoundTodo),
        }
    }

    /// Overwrite the row carrying the item's id, dated with today's date
    /// from the clock, provided the session's user may see it.
    pub fn edit_todo(&mut self, item: &ItemTodo, sess: u128) -> (r: Result<(), TodoError>)
        requires
            old(self).wf(),
        ensures
            final(self).wf(),
            exists|today: Date, now: u64|
                {
                    &&& 1 <= today.month <= 12
                    &&& 1 <= today.day <= 31
                    &&& (final(self)@, r) == #[trigger] spec_todo_edit(
                        old(self)@,
                        item@,
                        sess,
                        today,
                        now,
                    )
                },
    {
        let today = clock::today();
        let now = clock::current_time();
        let r = self.edit_todo_at(item, sess, today, now);
        proof {
            assert((self@, r) == spec_todo_edit(old(self)@, item@, sess, today, now));
        }
        r
    }
}

} // verus!
