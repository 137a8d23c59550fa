//! Todo rows: insertion with defaults, listing with filter and order,
//! lookup scoped by session, completion and editing.

use crate::config::ItemSortOrder;
use crate::database::session::session_index;
use crate::database::{
    Database, DbError, ItemTodo, ItemTodoV, StoreView, clone_item, has_session, has_todo,
    lemma_map_values_push, lemma_session_with_is, lemma_todo_with_is, session_with,
    spec_session_live, todo_with, view_item_result,
};
use crate::dates::{Date, date_le, far_future, far_future_date};
use crate::text::str_eq;
use vstd::prelude::*;

verus! {

broadcast use vstd::seq_lib::group_to_multiset_ensures;

/// Comparison on optional dates: an absent date sorts first, as NULL does
/// in the store's order.
pub open spec fn opt_date_le(a: Option<Date>, b: Option<Date>) -> bool {
    match (a, b) {
        (Option::None, _) => true,
        (Option::Some(x), Option::None) => false,
        (Option::Some(x), Option::Some(y)) => date_le(x, y),
    }
}

pub open spec fn opt_date_lt(a: Option<Date>, b: Option<Date>) -> bool {
    opt_date_le(a, b) && a != b
}

/// The order a listing follows: the primary date column of `order`, with
/// the documented secondary column breaking ties.
pub open spec fn item_le(order: ItemSortOrder, a: ItemTodoV, b: ItemTodoV) -> bool {
    match order {
        ItemSortOrder::StartAsc => opt_date_lt(a.start_date, b.start_date) || (a.start_date
            == b.start_date && opt_date_le(a.update_date, b.update_date)),
        ItemSortOrder::StartDesc => opt_date_lt(b.start_date, a.start_date) || (a.start_date
            == b.start_date && opt_date_le(a.update_date, b.update_date)),
        ItemSortOrder::EndAsc => opt_date_lt(a.end_date, b.end_date) || (a.end_date == b.end_date
            && opt_date_le(a.update_date, b.update_date)),
        ItemSortOrder::EndDesc => opt_date_lt(b.end_date, a.end_date) || (a.end_date == b.end_date
            && opt_date_le(a.update_date, b.update_date)),
        ItemSortOrder::UpdateAsc => opt_date_lt(a.update_date, b.update_date) || (a.update_date
            == b.update_date && opt_date_le(a.end_date, b.end_date)),
        ItemSortOrder::UpdateDesc => opt_date_lt(b.update_date, a.update_date) || (a.update_date
            == b.update_date && opt_date_le(a.end_date, b.end_date)),
    }
}

pub open spec fn sorted_by_order(s: Seq<ItemTodoV>, order: ItemSortOrder) -> bool {
    forall|i: int, j: int|
        0 <= i < j < s.len() ==> item_le(order, #[trigger] s[i], #[trigger] s[j])
}

/// `item_le` is total for every order.
pub proof fn lemma_item_le_total(order: ItemSortOrder, a: ItemTodoV, b: ItemTodoV)
    ensures
        item_le(order, a, b) || item_le(order, b, a),
{
}

/// `item_le` is transitive for every order.
pub proof fn lemma_item_le_trans(order: ItemSortOrder, a: ItemTodoV, b: ItemTodoV, c: ItemTodoV)
    requires
        item_le(order, a, b),
        item_le(order, b, c),
    ensures
        item_le(order, a, c),
{
}

/// In a listing sorted ascending by end date, end dates never decrease,
/// and rows with equal end dates keep their update dates non-decreasing.
pub proof fn lemma_sorted_end_asc(s: Seq<ItemTodoV>)
    requires
        sorted_by_order(s, ItemSortOrder::EndAsc),
    ensures
        forall|i: int, j: int|
            0 <= i < j < s.len() ==> opt_date_le((#[trigger] s[i]).end_date, (
            #[trigger] s[j]).end_date),
        forall|i: int, j: int|
            0 <= i < j < s.len() && (#[trigger] s[i]).end_date == (#[trigger] s[j]).end_date
                ==> opt_date_le(s[i].update_date, s[j].update_date),
{
    assert forall|i: int, j: int| 0 <= i < j < s.len() implies opt_date_le(
        (#[trigger] s[i]).end_date,
        (#[trigger] s[j]).end_date,
    ) by {
        assert(item_le(ItemSortOrder::EndAsc, s[i], s[j]));
    }
}

/// The inclusion rule of a listing: owned by `owner`, started on or before
/// `ref_date`, and — when only incomplete rows are wanted — not done.
pub open spec fn todo_visible(
    t: ItemTodoV,
    owner: Seq<char>,
    ref_date: Date,
    only_incomplete: bool,
) -> bool {
    &&& t.user_name == owner
    &&& match t.start_date {
        Option::Some(d) => date_le(d, ref_date),
        Option::None => false,
    }
    &&& (!only_incomplete || !t.done)
}

/// The rows a listing returns, in table order.
pub open spec fn visible(
    todos: Seq<ItemTodoV>,
    owner: Seq<char>,
    ref_date: Date,
    only_incomplete: bool,
) -> Seq<ItemTodoV>
    decreases todos.len(),
{
    if todos.len() == 0 {
        Seq::empty()
    } else {
        let rest = visible(todos.drop_last(), owner, ref_date, only_incomplete);
        if todo_visible(todos.last(), owner, ref_date, only_incomplete) {
            rest.push(todos.last())
        } else {
            rest
        }
    }
}

/// A row is listed exactly when the inclusion rule admits it: nothing else
/// is dropped, nothing else sneaks in.
pub proof fn lemma_visible_rows(
    todos: Seq<ItemTodoV>,
    owner: Seq<char>,
    ref_date: Date,
    only_incomplete: bool,
)
    ensures
        forall|k: int|
            0 <= k < visible(todos, owner, ref_date, only_incomplete).len() ==> todo_visible(
                #[trigger] visible(todos, owner, ref_date, only_incomplete)[k],
                owner,
                ref_date,
                only_incomplete,
            ),
        forall|k: int|
            0 <= k < visible(todos, owner, ref_date, only_incomplete).len() ==> todos.contains(
                #[trigger] visible(todos, owner, ref_date, only_incomplete)[k],
            ),
        forall|i: int|
            0 <= i < todos.len() && todo_visible(#[trigger] todos[i], owner, ref_date,
            only_incomplete) ==> visible(todos, owner, ref_date, only_incomplete).contains(
                todos[i],
            ),
    decreases todos.len(),
{
    let v = visible(todos, owner, ref_date, only_incomplete);
    if todos.len() > 0 {
        let rest = todos.drop_last();
        let last = todos.last();
        lemma_visible_rows(rest, owner, ref_date, only_incomplete);
        let vr = visible(rest, owner, ref_date, only_incomplete);
        assert(forall|i: int| 0 <= i < rest.len() ==> #[trigger] rest[i] == todos[i]);
        assert(forall|i: int| 0 <= i < vr.len() ==> #[trigger] v[i] == vr[i]);
        assert forall|k: int| 0 <= k < v.len() implies todos.contains(#[trigger] v[k]) by {
            if todo_visible(last, owner, ref_date, only_incomplete) && k == v.len() - 1 {
                assert(todos[todos.len() - 1] == v[k]);
            } else {
                assert(vr.contains(v[k]));
                let m = choose|m: int| 0 <= m < rest.len() && rest[m] == v[k];
                assert(todos[m] == v[k]);
            }
        }
        assert forall|i: int|
            0 <= i < todos.len() && todo_visible(#[trigger] todos[i], owner, ref_date,
            only_incomplete) implies v.contains(todos[i]) by {
            if i == todos.len() - 1 {
                assert(v[v.len() - 1] == todos[i]);
            } else {
                assert(rest[i] == todos[i]);
                assert(vr.contains(rest[i]));
                let m = choose|m: int| 0 <= m < vr.len() && vr[m] == todos[i];
                assert(v[m] == todos[i]);
            }
        }
    }
}

/// The rows a listing returns for `sess` at moment `now`: the visible rows
/// of the session's user, or nothing when the session is unknown or
/// expired.
pub open spec fn spec_list_todos(
    s: StoreView,
    sess: u128,
    ref_date: Date,
    only_incomplete: bool,
    now: u64,
) -> Seq<ItemTodoV> {
    if spec_session_live(s.sessions, sess, now) {
        visible(s.todos, session_with(s.sessions, sess).user_name, ref_date, only_incomplete)
    } else {
        Seq::empty()
    }
}

/// The row an insert writes: the table assigns the id, stamps the update
/// date with today, starts today when no start is given, and falls back to
/// the far-future sentinel when no deadline is given.  A new row is never
/// done.
pub open spec fn stored_item(item: ItemTodoV, id: u32, today: Date) -> ItemTodoV {
    ItemTodoV {
        id,
        user_name: item.user_name,
        title: item.title,
        work: item.work,
        update_date: Some(today),
        start_date: if item.start_date is Some {
            item.start_date
        } else {
            Some(today)
        },
        end_date: if item.end_date is Some {
            item.end_date
        } else {
            Some(far_future())
        },
        done: false,
    }
}

/// Insertion appends the stored form of the row and advances the id
/// counter; it fails only when the id space is exhausted.
pub open spec fn spec_add_todo_item(s: StoreView, item: ItemTodoV, today: Date) -> (
    StoreView,
    Result<(), DbError>,
) {
    if s.next_todo_id == u32::MAX {
        (s, Err(DbError::FailDbAccess))
    } else {
        (
            StoreView {
                todos: s.todos.push(stored_item(item, s.next_todo_id, today)),
                next_todo_id: (s.next_todo_id + 1) as u32,
                ..s
            },
            Ok(()),
        )
    }
}

/// Lookup by id through the session join at moment `now`: the row only
/// comes back when it exists and belongs to the user of a live session; a
/// missing row, a foreign row and a dead session are indistinguishable.
pub open spec fn spec_get_todo_by_id(s: StoreView, id: u32, sess: u128, now: u64) -> Result<
    ItemTodoV,
    DbError,
> {
    if spec_session_live(s.sessions, sess, now) && has_todo(s.todos, id) && todo_with(
        s.todos,
        id,
    ).user_name == session_with(s.sessions, sess).user_name {
        Ok(todo_with(s.todos, id))
    } else {
        Err(DbError::NotFoundTodo)
    }
}

/// With a live session of a *different* user, lookup by id is denied with
/// the same error a missing row gives.
pub proof fn lemma_cross_owner_denied(s: StoreView, id: u32, sess: u128, now: u64)
    requires
        spec_session_live(s.sessions, sess, now),
        has_todo(s.todos, id),
        todo_with(s.todos, id).user_name != session_with(s.sessions, sess).user_name,
    ensures
        spec_get_todo_by_id(s, id, sess, now) == Err::<ItemTodoV, DbError>(DbError::NotFoundTodo),
{
}

/// The row transformer of a completion update.
pub open spec fn set_done_fn(id: u32, done: bool) -> spec_fn(ItemTodoV) -> ItemTodoV {
    |t: ItemTodoV|
        if t.id == id {
            ItemTodoV { done, ..t }
        } else {
            t
        }
}

/// Setting the done flag rewrites exactly the row carrying `id`, and fails
/// exactly when no row carries it.
pub open spec fn spec_change_done(s: StoreView, id: u32, done: bool) -> (
    StoreView,
    Result<(), DbError>,
) {
    if has_todo(s.todos, id) {
        (StoreView { todos: s.todos.map_values(set_done_fn(id, done)), ..s }, Ok(()))
    } else {
        (s, Err(DbError::NotFoundTodo))
    }
}

/// The row an edit writes: id, owner and done flag are kept, the named
/// fields are overwritten, the update date is stamped with today, and the
/// date defaults are applied as on insert.
pub open spec fn edited_item(orig: ItemTodoV, item: ItemTodoV, today: Date) -> ItemTodoV {
    ItemTodoV {
        id: orig.id,
        user_name: orig.user_name,
        title: item.title,
        work: item.work,
        update_date: Some(today),
        start_date: if item.start_date is Some {
            item.start_date
        } else {
            Some(today)
        },
        end_date: if item.end_date is Some {
            item.end_date
        } else {
            Some(far_future())
        },
        done: orig.done,
    }
}

/// The row transformer of an edit.
pub open spec fn edit_fn(item: ItemTodoV, today: Date) -> spec_fn(ItemTodoV) -> ItemTodoV {
    |t: ItemTodoV|
        if t.id == item.id {
            edited_item(t, item, today)
        } else {
            t
        }
}

/// Editing rewrites exactly the row carrying the item's id, and fails
/// exactly when no row carries it.
pub open spec fn spec_edit_todo(s: StoreView, item: ItemTodoV, today: Date) -> (
    StoreView,
    Result<(), DbError>,
) {
    if has_todo(s.todos, item.id) {
        (StoreView { todos: s.todos.map_values(edit_fn(item, today)), ..s }, Ok(()))
    } else {
        (s, Err(DbError::NotFoundTodo))
    }
}

/// Index of the row carrying `id`, if any.
fn todo_index(v: &Vec<ItemTodo>, id: u32) -> (r: Option<usize>)
    ensures
        match r {
            Some(i) => i < v@.len() && v@[i as int]@.id == id,
            None => !has_todo(v@.map_values(|t: ItemTodo| t@), id),
        },
{
    let n = v.len();
    let mut i: usize = 0;
    while i < n
        invariant
            i <= n,
            n == v@.len(),
            forall|j: int| 0 <= j < i ==> (#[trigger] v@[j])@.id != id,
        decreases n - i,
    {
        if v[i].id == id {
            return Some(i);
        }
        i = i + 1;
    }
    None
}

/// Whether `a` comes no later than `b` in the given order.
fn item_le_exec(order: ItemSortOrder, a: &ItemTodo, b: &ItemTodo) -> (r: bool)
    ensures
        r == item_le(order, a@, b@),
{
    match order {
        ItemSortOrder::StartAsc => opt_lt(a.start_date, b.start_date) || (opt_eq(
            a.start_date,
            b.start_date,
        ) && opt_le(a.update_date, b.update_date)),
        ItemSortOrder::StartDesc => opt_lt(b.start_date, a.start_date) || (opt_eq(
            a.start_date,
            b.start_date,
        ) && opt_le(a.update_date, b.update_date)),
        ItemSortOrder::EndAsc => opt_lt(a.end_date, b.end_date) || (opt_eq(a.end_date, b.end_date)
            && opt_le(a.update_date, b.update_date)),
        ItemSortOrder::EndDesc => opt_lt(b.end_date, a.end_date) || (opt_eq(a.end_date, b.end_date)
            && opt_le(a.update_date, b.update_date)),
        ItemSortOrder::UpdateAsc => opt_lt(a.update_date, b.update_date) || (opt_eq(
            a.update_date,
            b.update_date,
        ) && opt_le(a.end_date, b.end_date)),
        ItemSortOrder::UpdateDesc => opt_lt(b.update_date, a.update_date) || (opt_eq(
            a.update_date,
            b.update_date,
        ) && opt_le(a.end_date, b.end_date)),
    }
}

fn date_eq(a: Date, b: Date) -> (r: bool)
    ensures
        r == (a == b),
{
    a.year == b.year && a.month == b.month && a.day == b.day
}

fn opt_eq(a: Option<Date>, b: Option<Date>) -> (r: bool)
    ensures
        r == (a == b),
{
    match (a, b) {
        (Option::None, Option::None) => true,
        (Option::Some(x), Option::Some(y)) => date_eq(x, y),
        _ => false,
    }
}

fn opt_le(a: Option<Date>, b: Option<Date>) -> (r: bool)
    ensures
        r == opt_date_le(a, b),
{
    match (a, b) {
        (Option::None, _) => true,
        (Option::Some(_), Option::None) => false,
        (Option::Some(x), Option::Some(y)) => x.on_or_before(y),
    }
}

fn opt_lt(a: Option<Date>, b: Option<Date>) -> (r: bool)
    ensures
        r == opt_date_lt(a, b),
{
    opt_le(a, b) && !opt_eq(a, b)
}

/// Place `x` into the sorted vector `v`, keeping it sorted.
fn insert_sorted(v: &mut Vec<ItemTodo>, x: ItemTodo, order: ItemSortOrder)
    requires
        sorted_by_order(old(v)@.map_values(|t: ItemTodo| t@), order),
    ensures
        sorted_by_order(final(v)@.map_values(|t: ItemTodo| t@), order),
        final(v)@.map_values(|t: ItemTodo| t@).to_multiset() == old(v)@.map_values(
            |t: ItemTodo| t@,
        ).to_multiset().insert(x@),
{
    let ghost before = v@.map_values(|t: ItemTodo| t@);
    let n = v.len();
    let mut p: usize = 0;
    while p < n
        invariant
            p <= n,
            n == v@.len(),
            *v == *old(v),
            before == v@.map_values(|t: ItemTodo| t@),
            forall|k: int| 0 <= k < p ==> item_le(order, #[trigger] before[k], x@),
        ensures
            p <= n,
            n == v@.len(),
            *v == *old(v),
            before == v@.map_values(|t: ItemTodo| t@),
            forall|k: int| 0 <= k < p ==> item_le(order, #[trigger] before[k], x@),
            p < n ==> !item_le(order, before[p as int], x@),
        decreases n - p,
    {
        if !item_le_exec(order, &v[p], &x) {
            break;
        }
        p = p + 1;
    }
    proof {
        if p < n {
            lemma_item_le_total(order, before[p as int], x@);
        }
    }
    v.insert(p, x);
    proof {
        let after = v@.map_values(|t: ItemTodo| t@);
        assert(after =~= before.insert(p as int, x@));
        assert(after.to_multiset() == before.to_multiset().insert(x@));
        assert forall|i: int, j: int| 0 <= i < j < after.len() implies item_le(
            order,
            #[trigger] after[i],
            #[trigger] after[j],
        ) by {
            let pi = p as int;
            if j < pi {
                assert(after[i] == before[i] && after[j] == before[j]);
            } else if i < pi && j == pi {
                assert(after[i] == before[i] && after[j] == x@);
            } else if i < pi && j > pi {
                assert(after[i] == before[i] && after[j] == before[j - 1]);
                if j - 1 == i {
                    lemma_item_le_trans(order, before[i], x@, x@);
                }
            } else if i == pi {
                assert(after[i] == x@ && after[j] == before[j - 1]);
                assert(pi < before.len());
                assert(item_le(order, x@, before[pi]));
                if j - 1 > pi {
                    lemma_item_le_trans(order, x@, before[pi], before[j - 1]);
                }
            } else {
                assert(after[i] == before[i - 1] && after[j] == before[j - 1]);
            }
        }
    }
}

impl Database {
    /// Insert a todo row for `item`, dated with `today`: the id, update
    /// date and done flag of `item` are ignored, and missing dates take
    /// their defaults.
    pub fn add_todo_item_on(&mut self, item: &ItemTodo, today: Date) -> (r: Result<(), DbError>)
        requires
            old(self).wf(),
        ensures
            final(self).wf(),
            final(self)@ == spec_add_todo_item(old(self)@, item@, today).0,
            r == spec_add_todo_item(old(self)@, item@, today).1,
    {
        if self.next_todo_id == u32::MAX {
            return Err(DbError::FailDbAccess);
        }
        let id = self.next_todo_id;
        let start_date = match item.start_date {
            Some(d) => Some(d),
            None => Some(today),
        };
        let end_date = match item.end_date {
            Some(d) => Some(d),
            None => Some(far_future_date()),
        };
        let work: Option<String> = match &item.work {
            Some(w) => Some(w.clone()),
            None => None,
        };
        let row = ItemTodo {
            id,
            user_name: item.user_name.clone(),
            title: item.title.clone(),
            work,
            update_date: Some(today),
            start_date,
            end_date,
            done: false,
        };
        proof {
            assert(row@ == stored_item(item@, old(self)@.next_todo_id, today));
        }
        self.todos.push(row);
        self.next_todo_id = id + 1;
        proof {
            lemma_map_values_push(old(self).todos@, |t: ItemTodo| t@, row);
            assert(self@ =~= spec_add_todo_item(old(self)@, item@, today).0);
        }
        Ok(())
    }

    /// Insert a todo row for `item`, dated with today's date from the
    /// clock.
    pub fn add_todo_item(&mut self, item: &ItemTodo) -> (r: Result<(), DbError>)
        requires
            old(self).wf(),
        ensures
            final(self).wf(),
            exists|today: Date|
                {
                    &&& 1 <= today.month <= 12
                    &&& 1 <= today.day <= 31
                    &&& (final(self)@, r) == #[trigger] spec_add_todo_item(
                        old(self)@,
                        item@,
                        today,
                    )
                },
    {
        let today = crate::clock::today();
        let r = self.add_todo_item_on(item, today);
        proof {
            assert((self@, r) == spec_add_todo_item(old(self)@, item@, today));
        }
        r
    }

    /// List the rows of the session's user that started on or before
    /// `ref_date`, optionally only the incomplete ones, in the given
    /// order.  A session that is unknown, or expired at `now`, yields an
    /// empty listing.
    pub fn get_todo_item_at(
        &self,
        sess: u128,
        ref_date: Date,
        only_incomplete: bool,
        sort_order: ItemSortOrder,
        now: u64,
    ) -> (r: Result<Vec<ItemTodo>, DbError>)
        requires
            self.wf(),
        ensures
            match r {
                Ok(items) => {
                    let got = items@.map_values(|t: ItemTodo| t@);
                    &&& got.to_multiset() == spec_list_todos(
                        self@,
                        sess,
                        ref_date,
                        only_incomplete,
                        now,
                    ).to_multiset()
                    &&& sorted_by_order(got, sort_order)
                },
                Err(_) => false,
            },
    {
        let ghost sv = self@.sessions;
        let ghost tv = self@.todos;
        let si = match session_index(&self.sessions, sess) {
            Some(i) => i,
            None => {
                let none_found: Vec<ItemTodo> = Vec::new();
                proof {
                    assert(none_found@.map_values(|t: ItemTodo| t@) =~= Seq::<ItemTodoV>::empty());
                }
                return Ok(none_found);
            },
        };
        proof {
            lemma_session_with_is(sv, self@.issued, sess, si as int);
        }
        if self.sessions[si].expires_at < now {
            let expired: Vec<ItemTodo> = Vec::new();
            proof {
                assert(expired@.map_values(|t: ItemTodo| t@) =~= Seq::<ItemTodoV>::empty());
            }
            return Ok(expired);
        }
        let ghost ownerv = session_with(sv, sess).user_name;
        let owner = &self.sessions[si].user_name;
        let mut out: Vec<ItemTodo> = Vec::new();
        let n = self.todos.len();
        let mut i: usize = 0;
        while i < n
            invariant
                i <= n,
                n == self.todos@.len(),
                tv == self.todos@.map_values(|t: ItemTodo| t@),
                owner@ == ownerv,
                out@.map_values(|t: ItemTodo| t@).to_multiset() == visible(
                    tv.take(i as int),
                    ownerv,
                    ref_date,
                    only_incomplete,
                ).to_multiset(),
                sorted_by_order(out@.map_values(|t: ItemTodo| t@), sort_order),
            decreases n - i,
        {
            proof {
                assert(tv.take(i as int + 1).drop_last() =~= tv.take(i as int));
                assert(tv.take(i as int + 1).last() == tv[i as int]);
            }
            let t = &self.todos[i];
            let started = match t.start_date {
                Some(d) => d.on_or_before(ref_date),
                None => false,
            };
            let keep = started && (!only_incomplete || !t.done) && str_eq(
                t.user_name.as_str(),
                owner.as_str(),
            );
            if keep {
                let x = clone_item(t);
                insert_sorted(&mut out, x, sort_order);
            }
            i = i + 1;
        }
        proof {
            assert(tv.take(n as int) =~= tv);
        }
        Ok(out)
    }

    /// List the rows of the session's user that started on or before
    /// `ref_date`, as of now.
    pub fn get_todo_item(
        &self,
        sess: u128,
        ref_date: Date,
        only_incomplete: bool,
        sort_order: ItemSortOrder,
    ) -> (r: Result<Vec<ItemTodo>, DbError>)
        requires
            self.wf(),
        ensures
            match r {
                Ok(items) => {
                    let got = items@.map_values(|t: ItemTodo| t@);
                    &&& sorted_by_order(got, sort_order)
                    &&& exists|now: u64|
                        got.to_multiset() == #[trigger] spec_list_todos(
                            self@,
                            sess,
                            ref_date,
                            only_incomplete,
                            now,
                        ).to_multiset()
                },
                Err(_) => false,
            },
    {
        let now = crate::clock::current_time();
        let r = self.get_todo_item_at(sess, ref_date, only_incomplete, sort_order, now);
        proof {
            if let Ok(items) = &r {
                assert(items@.map_values(|t: ItemTodo| t@).to_multiset() == spec_list_todos(
                    self@,
                    sess,
                    ref_date,
                    only_incomplete,
                    now,
                ).to_multiset());
            }
        }
        r
    }

    /// Fetch the row carrying `id`, scoped to the user of a session live
    /// at `now`.
    pub fn get_todo_item_with_id_at(&self, id: u32, sess: u128, now: u64) -> (r: Result<
        ItemTodo,
        DbError,
    >)
        requires
            self.wf(),
        ensures
            view_item_result(r) == spec_get_todo_by_id(self@, id, sess, now),
    {
        let si = match session_index(&self.sessions, sess) {
            Some(i) => i,
            None => {
                return Err(DbError::NotFoundTodo);
            },
        };
        proof {
            lemma_session_with_is(self@.sessions, self@.issued, sess, si as int);
        }
        if self.sessions[si].expires_at < now {
            return Err(DbError::NotFoundTodo);
        }
        let ti = match todo_index(&self.todos, id) {
            Some(i) => i,
            None => {
                return Err(DbError::NotFoundTodo);
            },
        };
        proof {
            lemma_todo_with_is(self@.todos, self@.next_todo_id, id, ti as int);
        }
        let t = &self.todos[ti];
        if str_eq(t.user_name.as_str(), self.sessions[si].user_name.as_str()) {
            Ok(clone_item(t))
        } else {
            Err(DbError::NotFoundTodo)
        }
    }

    /// Fetch the row carrying `id`, scoped to the session's user, as of
    /// now.
    pub fn get_todo_item_with_id(&self, id: u32, sess: u128) -> (r: Result<ItemTodo, DbError>)
        requires
            self.wf(),
        ensures
            exists|now: u64|
                view_item_result(r) == #[trigger] spec_get_todo_by_id(self@, id, sess, now),
    {
        let now = crate::clock::current_time();
        let r = self.get_todo_item_with_id_at(id, sess, now);
        proof {
            assert(view_item_result(r) == spec_get_todo_by_id(self@, id, sess, now));
        }
        r
    }

    /// Set the done flag of the row carrying `id`.  No ownership check is
    /// made here; the service layer performs its lookup first.
    pub fn change_done(&mut self, id: u32, done: bool) -> (r: Result<(), DbError>)
        requires
            old(self).wf(),
        ensures
            final(self).wf(),
            final(self)@ == spec_change_done(old(self)@, id, done).0,
            r == spec_change_done(old(self)@, id, done).1,
    {
        let ti = match todo_index(&self.todos, id) {
            Some(i) => i,
            None => {
                return Err(DbError::NotFoundTodo);
            },
        };
        let mut row = self.todos.remove(ti);
        row.done = done;
        self.todos.insert(ti, row);
        proof {
            assert(old(self)@.todos[ti as int].id == id);
            assert(has_todo(old(self)@.todos, id));
            assert(self@.todos =~= old(self)@.todos.map_values(set_done_fn(id, done)));
            assert(self@ =~= spec_change_done(old(self)@, id, done).0);
            assert forall|k: int| 0 <= k < self@.todos.len() implies (#[trigger] self@.todos[k]).id
                == old(self)@.todos[k].id && self@.todos[k].update_date
                == old(self)@.todos[k].update_date && self@.todos[k].start_date
                == old(self)@.todos[k].start_date && self@.todos[k].end_date
                == old(self)@.todos[k].end_date by {}
        }
        Ok(())
    }

    /// Overwrite the row carrying the item's id, dated with `today`: the
    /// owner and the done flag are kept, everything else is taken from
    /// `item` with the insert-time date defaults.
    pub fn edit_todo_on(&mut self, item: &ItemTodo, today: Date) -> (r: Result<(), DbError>)
        requires
            old(self).wf(),
        ensures
            final(self).wf(),
            final(self)@ == spec_edit_todo(old(self)@, item@, today).0,
            r == spec_edit_todo(old(self)@, item@, today).1,
    {
        let ti = match todo_index(&self.todos, item.id) {
            Some(i) => i,
            None => {
                return Err(DbError::NotFoundTodo);
            },
        };
        let orig = self.todos.remove(ti);
        let start_date = match item.start_date {
            Some(d) => Some(d),
            None => Some(today),
        };
        let end_date = match item.end_date {
            Some(d) => Some(d),
            None => Some(far_future_date()),
        };
        let work: Option<String> = match &item.work {
            Some(w) => Some(w.clone()),
            None => None,
        };
        let row = ItemTodo {
            id: orig.id,
            user_name: orig.user_name,
            title: item.title.clone(),
            work,
            update_date: Some(today),
            start_date,
            end_date,
            done: orig.done,
        };
        self.todos.insert(ti, row);
        proof {
            assert(old(self)@.todos[ti as int].id == item@.id);
            assert(has_todo(old(self)@.todos, item@.id));
            assert(row@ == edited_item(old(self)@.todos[ti as int], item@, today));
            assert(self@.todos =~= old(self)@.todos.map_values(edit_fn(item@, today)));
            assert(self@ =~= spec_edit_todo(old(self)@, item@, today).0);
            assert forall|k: int| 0 <= k < self@.todos.len() implies (#[trigger] self@.todos[k]).id
                == old(self)@.todos[k].id by {}
        }
        Ok(())
    }

    /// Overwrite the row carrying the item's id, dated with today's date
    /// from the clock.
    pub fn edit_todo(&mut self, item: &ItemTodo) -> (r: Result<(), DbError>)
        requires
            old(self).wf(),
        ensures
            final(self).wf(),
            exists|today: Date|
                {
                    &&& 1 <= today.month <= 12
                    &&& 1 <= today.day <= 31
                    &&& (final(self)@, r) == #[trigger] spec_edit_todo(old(self)@, item@, today)
                },
    {
        let today = crate::clock::today();
        let r = self.edit_todo_on(item, today);
        proof {
            assert((self@, r) == spec_edit_todo(old(self)@, item@, today));
        }
        r
    }
}

} // verus!
