//! The storage gateway: typed rows, typed errors, and the store itself.
//!
//! The store keeps three tables — users, sessions and todo items — as plain
//! vectors, together with the id counter of the todo table and the record of
//! every session id ever issued.  Its mathematical view is [`StoreView`];
//! every query and mutation is specified as a function of that view, and the
//! invariant [`store_wf`] (unique user names, unique session and todo ids,
//! fully dated rows) is established by the constructor and preserved by
//! every operation.

mod new;
mod session;
mod todo;
mod user;

pub use new::empty_store;
pub use session::SESSION_TTL_SECONDS;
pub use session::filter_sessions;
pub use session::lemma_dead_session_stays_dead;
pub use session::lemma_filter_sessions_ids;
pub use session::lemma_rotation_issues_fresh;
pub use session::lemma_rotation_never_repeats;
pub use session::lemma_rotation_retires_old;
pub use session::purge_keep;
pub use session::remove_keep;
pub use session::remove_session;
pub use session::session_dead;
pub use session::spec_expiry;
pub use session::spec_is_session_valid;
pub use session::spec_make_new_session;
pub use session::spec_purge;
pub use session::spec_update_session;
pub(crate) use session::fresh_session_id;
pub use todo::edit_fn;
pub use todo::edited_item;
pub use todo::item_le;
pub use todo::lemma_cross_owner_denied;
pub use todo::lemma_item_le_total;
pub use todo::lemma_item_le_trans;
pub use todo::lemma_sorted_end_asc;
pub use todo::lemma_visible_rows;
pub use todo::opt_date_le;
pub use todo::opt_date_lt;
pub use todo::set_done_fn;
pub use todo::sorted_by_order;
pub use todo::spec_add_todo_item;
pub use todo::spec_change_done;
pub use todo::spec_edit_todo;
pub use todo::spec_get_todo_by_id;
pub use todo::spec_list_todos;
pub use todo::stored_item;
pub use todo::todo_visible;
pub use todo::visible;
pub use user::lemma_register_twice;
pub use user::spec_add_user;
pub use user::spec_get_user;
pub use user::spec_get_user_from_sess;

use crate::dates::Date;
use vstd::prelude::*;

verus! {

/// A row of the user table: the unique name and the password hash.
#[derive(Debug, Clone, PartialEq)]
pub struct User {
    pub name: String,
    pub password: String,
}

/// A row of the todo table.
#[derive(Debug, Clone, PartialEq)]
pub struct ItemTodo {
    pub id: u32,
    pub user_name: String,
    pub title: String,
    pub work: Option<String>,
    pub update_date: Option<Date>,
    pub start_date: Option<Date>,
    pub end_date: Option<Date>,
    pub done: bool,
}

/// A row of the session table.
#[derive(Debug, Clone)]
pub struct Session {
    pub id: u128,
    pub user_name: String,
    pub expires_at: u64,
}

/// The error vocabulary of the storage gateway.
#[derive(Debug, Clone, Copy, PartialEq, Eq, Structural)]
pub enum DbError {
    /// The store could not be opened.
    FailConnect,
    /// A storage-level fault outside the domain vocabulary.
    FailDbAccess,
    /// An insert hit the unique constraint on user names.
    DuplicateUserName,
    /// No user row matches.
    NotFoundUser,
    /// No session row matches.
    NotFoundSession,
    /// No todo row matches (or the row belongs to another user).
    NotFoundTodo,
}

#[verifier::ext_equal]
pub ghost struct UserV {
    pub name: Seq<char>,
    pub password: Seq<char>,
}

#[verifier::ext_equal]
pub ghost struct SessionV {
    pub id: u128,
    pub user_name: Seq<char>,
    pub expires_at: u64,
}

#[verifier::ext_equal]
pub ghost struct ItemTodoV {
    pub id: u32,
    pub user_name: Seq<char>,
    pub title: Seq<char>,
    pub work: Option<Seq<char>>,
    pub update_date: Option<Date>,
    pub start_date: Option<Date>,
    pub end_date: Option<Date>,
    pub done: bool,
}

impl View for User {
    type V = UserV;

    open spec fn view(&self) -> UserV {
        UserV { name: self.name@, password: self.password@ }
    }
}

impl View for Session {
    type V = SessionV;

    open spec fn view(&self) -> SessionV {
        SessionV { id: self.id, user_name: self.user_name@, expires_at: self.expires_at }
    }
}

impl View for ItemTodo {
    type V = ItemTodoV;

    open spec fn view(&self) -> ItemTodoV {
        ItemTodoV {
            id: self.id,
            user_name: self.user_name@,
            title: self.title@,
            work: self.work.deep_view(),
            update_date: self.update_date,
            start_date: self.start_date,
            end_date: self.end_date,
            done: self.done,
        }
    }
}

/// The mathematical state of the store.
#[verifier::ext_equal]
pub ghost struct StoreView {
    pub users: Seq<UserV>,
    pub sessions: Seq<SessionV>,
    /// Every session id the store has ever handed out, in order of issue.
    pub issued: Seq<u128>,
    pub todos: Seq<ItemTodoV>,
    pub next_todo_id: u32,
}

/// The store of the application: users, sessions and todo items.
///
/// The real application keeps these tables in a relational engine; this
/// store realises the same contract over plain values, so that everything
/// built on it can be verified.
#[derive(Debug)]
pub struct Database {
    pub users: Vec<User>,
    pub sessions: Vec<Session>,
    pub issued: Vec<u128>,
    pub todos: Vec<ItemTodo>,
    pub next_todo_id: u32,
}

impl View for Database {
    type V = StoreView;

    open spec fn view(&self) -> StoreView {
        StoreView {
            users: self.users@.map_values(|u: User| u@),
            sessions: self.sessions@.map_values(|s: Session| s@),
            issued: self.issued@,
            todos: self.todos@.map_values(|t: ItemTodo| t@),
            next_todo_id: self.next_todo_id,
        }
    }
}

/// User names are unique.
pub open spec fn users_wf(users: Seq<UserV>) -> bool {
    forall|i: int, j: int|
        0 <= i < j < users.len() ==> (#[trigger] users[i]).name != (#[trigger] users[j]).name
}

/// Session ids are unique, and every live session id was issued.
pub open spec fn sessions_wf(sessions: Seq<SessionV>, issued: Seq<u128>) -> bool {
    &&& forall|i: int, j: int|
        0 <= i < j < sessions.len() ==> (#[trigger] sessions[i]).id != (#[trigger] sessions[j]).id
    &&& forall|i: int| 0 <= i < sessions.len() ==> issued.contains((#[trigger] sessions[i]).id)
}

/// Todo ids are unique, below the id counter, and every stored row carries
/// all three dates.
pub open spec fn todos_wf(todos: Seq<ItemTodoV>, next_todo_id: u32) -> bool {
    &&& forall|i: int, j: int|
        0 <= i < j < todos.len() ==> (#[trigger] todos[i]).id != (#[trigger] todos[j]).id
    &&& forall|i: int| 0 <= i < todos.len() ==> (#[trigger] todos[i]).id < next_todo_id
    &&& forall|i: int|
        0 <= i < todos.len() ==> {
            &&& (#[trigger] todos[i]).update_date is Some
            &&& todos[i].start_date is Some
            &&& todos[i].end_date is Some
        }
}

/// The store invariant: every constructor establishes it and every
/// operation preserves it.
pub open spec fn store_wf(s: StoreView) -> bool {
    &&& users_wf(s.users)
    &&& sessions_wf(s.sessions, s.issued)
    &&& todos_wf(s.todos, s.next_todo_id)
}

impl Database {
    pub open spec fn wf(&self) -> bool {
        store_wf(self@)
    }
}

pub open spec fn has_user(users: Seq<UserV>, name: Seq<char>) -> bool {
    exists|i: int| 0 <= i < users.len() && (#[trigger] users[i]).name == name
}

/// The user row carrying `name`; meaningful under `users_wf` when
/// `has_user` holds.
pub open spec fn user_named(users: Seq<UserV>, name: Seq<char>) -> UserV {
    users[choose|i: int| 0 <= i < users.len() && (#[trigger] users[i]).name == name]
}

pub open spec fn has_session(sessions: Seq<SessionV>, id: u128) -> bool {
    exists|i: int| 0 <= i < sessions.len() && (#[trigger] sessions[i]).id == id
}

/// The session `id` is present and has not expired at `now`: the only kind
/// of session any read may resolve.  A row past its expiry counts as if it
/// never existed, whether or not a purge has removed it yet.
pub open spec fn spec_session_live(sessions: Seq<SessionV>, id: u128, now: u64) -> bool {
    has_session(sessions, id) && session_with(sessions, id).expires_at >= now
}

/// A fetched user row, seen at the spec level.
pub open spec fn view_user_result(r: Result<User, DbError>) -> Result<UserV, DbError> {
    match r {
        Ok(u) => Ok(u@),
        Err(e) => Err(e),
    }
}

/// A fetched todo row, seen at the spec level.
pub open spec fn view_item_result(r: Result<ItemTodo, DbError>) -> Result<ItemTodoV, DbError> {
    match r {
        Ok(t) => Ok(t@),
        Err(e) => Err(e),
    }
}

/// The session row carrying `id`; meaningful under `sessions_wf` when
/// `has_session` holds.
pub open spec fn session_with(sessions: Seq<SessionV>, id: u128) -> SessionV {
    sessions[choose|i: int| 0 <= i < sessions.len() && (#[trigger] sessions[i]).id == id]
}

pub open spec fn has_todo(todos: Seq<ItemTodoV>, id: u32) -> bool {
    exists|i: int| 0 <= i < todos.len() && (#[trigger] todos[i]).id == id
}

/// The todo row carrying `id`; meaningful under `todos_wf` when `has_todo`
/// holds.
pub open spec fn todo_with(todos: Seq<ItemTodoV>, id: u32) -> ItemTodoV {
    todos[choose|i: int| 0 <= i < todos.len() && (#[trigger] todos[i]).id == id]
}

/// Under uniqueness of names, the row found at any index carrying `name` is
/// the row `user_named` speaks of.
pub proof fn lemma_user_named_is(users: Seq<UserV>, name: Seq<char>, i: int)
    requires
        users_wf(users),
        0 <= i < users.len(),
        users[i].name == name,
    ensures
        has_user(users, name),
        user_named(users, name) == users[i],
{
    assert(has_user(users, name));
    let j = choose|j: int| 0 <= j < users.len() && (#[trigger] users[j]).name == name;
    if i < j {
        assert(users[i].name != users[j].name);
    } else if j < i {
        assert(users[j].name != users[i].name);
    }
}

/// Under uniqueness of session ids, the row found at any index carrying
/// `id` is the row `session_with` speaks of.
pub proof fn lemma_session_with_is(sessions: Seq<SessionV>, issued: Seq<u128>, id: u128, i: int)
    requires
        sessions_wf(sessions, issued),
        0 <= i < sessions.len(),
        sessions[i].id == id,
    ensures
        has_session(sessions, id),
        session_with(sessions, id) == sessions[i],
{
    assert(has_session(sessions, id));
    let j = choose|j: int| 0 <= j < sessions.len() && (#[trigger] sessions[j]).id == id;
    if i < j {
        assert(sessions[i].id != sessions[j].id);
    } else if j < i {
        assert(sessions[j].id != sessions[i].id);
    }
}

/// Under uniqueness of todo ids, the row found at any index carrying `id`
/// is the row `todo_with` speaks of.
pub proof fn lemma_todo_with_is(todos: Seq<ItemTodoV>, next_todo_id: u32, id: u32, i: int)
    requires
        todos_wf(todos, next_todo_id),
        0 <= i < todos.len(),
        todos[i].id == id,
    ensures
        has_todo(todos, id),
        todo_with(todos, id) == todos[i],
{
    assert(has_todo(todos, id));
    let j = choose|j: int| 0 <= j < todos.len() && (#[trigger] todos[j]).id == id;
    if i < j {
        assert(todos[i].id != todos[j].id);
    } else if j < i {
        assert(todos[j].id != todos[i].id);
    }
}

pub proof fn lemma_map_values_push<A, B>(s: Seq<A>, f: spec_fn(A) -> B, x: A)
    ensures
        (s.push(x)).map_values(f) == s.map_values(f).push(f(x)),
{
    assert((s.push(x)).map_values(f) =~= s.map_values(f).push(f(x)));
}

/// Clone a todo row; the copy carries the same view.
pub(crate) fn clone_item(item: &ItemTodo) -> (r: ItemTodo)
    ensures
        r@ == item@,
{
    let work: Option<String> = match &item.work {
        Some(w) => Some(w.clone()),
        None => None,
    };
    ItemTodo {
        id: item.id,
        user_name: item.user_name.clone(),
        title: item.title.clone(),
        work,
        update_date: item.update_date,
        start_date: item.start_date,
        end_date: item.end_date,
        done: item.done,
    }
}

} // verus!
