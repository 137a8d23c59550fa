//! Retrieval of todo items, scoped by session.

use crate::clock;
use crate::config::ItemSortOrder;
use crate::database::{
    DbError, ItemTodo, ItemTodoV, StoreView, has_todo, lemma_visible_rows, session_with,
    sorted_by_order, spec_get_todo_by_id, spec_get_user_from_sess, spec_session_live, todo_with,
    visible,
};
use crate::dates::{Date, date_le};
use crate::todo::edit_todo::{spec_todo_change_done, spec_todo_edit};
use crate::todo::{Todo, TodoError};
use vstd::prelude::*;

verus! {

/// What a listing hands the boundary at moment `now`: the visible rows of
/// the resolved user, or `NotFoundSession` when the session does not
/// resolve (unknown, expired, or its user row gone).
pub open spec fn spec_todo_list(
    s: StoreView,
    sess: u128,
    ref_date: Date,
    only_incomplete: bool,
    now: u64,
) -> Result<Seq<ItemTodoV>, TodoError> {
    match spec_get_user_from_sess(s, sess, now) {
        Err(_) => Err(TodoError::NotFoundSession),
        Ok(u) => Ok(visible(s.todos, u.name, ref_date, only_incomplete)),
    }
}

/// A fetched item, seen at the spec level.
pub open spec fn view_todo_result(r: Result<ItemTodo, TodoError>) -> Result<
    ItemTodoV,
    TodoError,
> {
    match r {
        Ok(t) => Ok(t@),
        Err(e) => Err(e),
    }
}

/// The listing rule in both directions: with `only_incomplete` set, no
/// listed row is done; with it clear, every owned row that has started is
/// listed, whatever its dates or done flag.
pub proof fn lemma_listing_filter(todos: Seq<ItemTodoV>, owner: Seq<char>, ref_date: Date)
    ensures
        forall|k: int|
            0 <= k < visible(todos, owner, ref_date, true).len() ==> !(#[trigger] visible(
                todos,
                owner,
                ref_date,
                true,
            )[k]).done,
        forall|i: int|
            0 <= i < todos.len() && (#[trigger] todos[i]).user_name == owner && (match todos[i]
                .start_date {
                Some(d) => date_le(d, ref_date),
                None => false,
            }) ==> visible(todos, owner, ref_date, false).contains(todos[i]),
{
    lemma_visible_rows(todos, owner, ref_date, true);
    lemma_visible_rows(todos, owner, ref_date, false);
}

/// With a live session of a user other than the row's owner, lookup,
/// completion and editing are all refused with `NotFoundTodo` — the same
/// answer a missing row gives — and the store is untouched.
pub proof fn lemma_cross_owner_all_denied(
    s: StoreView,
    id: u32,
    sess: u128,
    done: bool,
    item: ItemTodoV,
    today: Date,
    now: u64,
)
    requires
        spec_session_live(s.sessions, sess, now),
        has_todo(s.todos, id),
        todo_with(s.todos, id).user_name != session_with(s.sessions, sess).user_name,
    ensures
        spec_get_todo_by_id(s, id, sess, now) == Err::<ItemTodoV, DbError>(DbError::NotFoundTodo),
        spec_todo_change_done(s, id, sess, done, now) == (
            s,
            Err::<(), TodoError>(TodoError::NotFoundTodo),
        ),
        item.id == id ==> spec_todo_edit(s, item, sess, today, now) == (
            s,
            Err::<(), TodoError>(TodoError::NotFoundTodo),
        ),
{
}

impl Todo {
    /// List the rows of the user of a session live at `now` that started
    /// on or before `today`, optionally only the incomplete ones, in the
    /// given order.  A session that does not resolve is refused.
    pub fn get_todo_list_at(
        &self,
        sess: u128,
        only_incomplete: bool,
        sort_order: ItemSortOrder,
        today: Date,
        now: u64,
    ) -> (r: Result<Vec<ItemTodo>, TodoError>)
        requires
            self.wf(),
        ensures
            match r {
                Ok(items) => {
                    let got = items@.map_values(|t: ItemTodo| t@);
                    &&& spec_todo_list(self@, sess, today, only_incomplete, now) matches Ok(rows)
                        && got.to_multiset() == rows.to_multiset()
                    &&& sorted_by_order(got, sort_order)
                },
                Err(e) => spec_todo_list(self@, sess, today, only_incomplete, now) == Err::<
                    Seq<ItemTodoV>,
                    TodoError,
                >(e),
            },
    {
        let user = match self.database.get_user_from_sess_at(sess, now) {
            Ok(u) => u,
            Err(_) => {
                return Err(TodoError::NotFoundSession);
            },
        };
        match self.database.get_todo_item_at(sess, today, only_incomplete, sort_order, now) {
            Ok(items) => {
                proof {
                    // the resolved user row carries the session's user name
                    assert(user@.name == session_with(self@.sessions, sess).user_name);
                }
                Ok(items)
            },
            Err(_) => Err(TodoError::FailDbAccess),
        }
    }

    /// List the rows of the session's user as of today's date from the
    /// clock.  A session that does not resolve is refused.
    pub fn get_todo_list(
        &self,
        sess: u128,
        only_incomplete: bool,
        sort_order: ItemSortOrder,
    ) -> (r: Result<Vec<ItemTodo>, TodoError>)
        requires
            self.wf(),
        ensures
            match r {
                Ok(items) => {
                    let got = items@.map_values(|t: ItemTodo| t@);
                    &&& sorted_by_order(got, sort_order)
                    &&& exists|today: Date, now: u64|
                        {
                            &&& 1 <= today.month <= 12
                            &&& 1 <= today.day <= 31
                            &&& #[trigger] spec_todo_list(
                                self@,
                                sess,
                                today,
                                only_incomplete,
                                now,
                            ) matches Ok(rows) && got.to_multiset() == rows.to_multiset()
                        }
                },
                Err(e) => exists|today: Date, now: u64|
                    #[trigger] spec_todo_list(self@, sess, today, only_incomplete, now) == Err::<
                        Seq<ItemTodoV>,
                        TodoError,
                    >(e),
            },
    {
        let today = clock::today();
        let now = clock::current_time();
        let r = self.get_todo_list_at(sess, only_incomplete, sort_order, today, now);
        proof {
            match r {
                Ok(_) => {},
                Err(e) => {
                    assert(spec_todo_list(self@, sess, today, only_incomplete, now) == Err::<
                        Seq<ItemTodoV>,
                        TodoError,
                    >(e));
                },
            }
        }
        r
    }

    /// Fetch the row carrying `id`, provided it belongs to the user of a
    /// session live at `now`; a missing row and a foreign row are
    /// indistinguishable.
    pub fn get_todo_with_id_at(&self, id: u32, sess: u128, now: u64) -> (r: Result<
        ItemTodo,
        TodoError,
    >)
        requires
            self.wf(),
        ensures
            match r {
                Ok(t) => spec_get_todo_by_id(self@, id, sess, now) == Ok::<ItemTodoV, DbError>(
                    t@,
                ),
                Err(e) => e == TodoError::NotFoundTodo && spec_get_todo_by_id(
                    self@,
                    id,
                    sess,
                    now,
                ) is Err,
            },
    {
        match self.database.get_todo_item_with_id_at(id, sess, now) {
            Ok(t) => Ok(t),
            Err(_) => Err(TodoError::NotFoundTodo),
        }
    }

    /// Fetch the row carrying `id`, provided it belongs to the session's
    /// user, as of now.
    pub fn get_todo_with_id(&self, id: u32, sess: u128) -> (r: Result<ItemTodo, TodoError>)
        requires
            self.wf(),
        ensures
            exists|now: u64|
                match view_todo_result(r) {
                    Ok(t) => #[trigger] spec_get_todo_by_id(self@, id, sess, now) == Ok::<
                        ItemTodoV,
                        DbError,
                    >(t),
                    Err(e) => e == TodoError::NotFoundTodo && spec_get_todo_by_id(
                        self@,
                        id,
                        sess,
                        now,
                    ) is Err,
                },
    {
        let now = clock::current_time();
        let r = self.get_todo_with_id_at(id, sess, now);
        proof {
            match view_todo_result(r) {
                Ok(t) => {
                    assert(spec_get_todo_by_id(self@, id, sess, now) == Ok::<ItemTodoV, DbError>(
                        t,
                    ));
                },
                Err(e) => {
                    assert(spec_get_todo_by_id(self@, id, sess, now) is Err);
                },
            }
        }
        r
    }
}

} // verus!
