//! The business rules of the todo application.
//!
//! [`Todo`] wraps the store and enforces the service contract: passwords
//! are hashed and checked with bcrypt, sessions are issued on login and
//! rotated on every successful validity check, and every todo operation is
//! scoped to the user its session resolves to.

mod app_state;
mod edit_todo;
mod get_todo;
mod new;
mod user;

pub use app_state::lemma_check_session_never_repeats;
pub use app_state::lemma_dead_id_survives_every_operation;
pub use app_state::lemma_login_wrong_password;
pub use app_state::lemma_rotated_id_retired;
pub use app_state::lemma_stale_id_stays_invalid;
pub use app_state::spec_check_session;
pub use app_state::spec_login;
pub use edit_todo::lemma_added_item_listed;
pub use edit_todo::lemma_blank_work_stored_none;
pub use edit_todo::lemma_edit_missing_id;
pub use edit_todo::normalize_work;
pub use edit_todo::spec_todo_add;
pub use edit_todo::spec_todo_change_done;
pub use edit_todo::spec_todo_edit;
pub use get_todo::lemma_cross_owner_all_denied;
pub use get_todo::lemma_listing_filter;
pub use get_todo::spec_todo_list;
pub use get_todo::view_todo_result;
pub use user::bcrypt_hash_wf;
pub use user::bcrypt_verifies;
pub use user::lemma_duplicate_registration;
pub use user::spec_register;

use crate::database::{Database, StoreView, store_wf};
use vstd::prelude::*;

verus! {

/// The service error vocabulary handed to the boundary.
#[derive(Debug, Clone, Copy, PartialEq, Eq, Structural)]
pub enum TodoError {
    /// The store could not be opened.
    DbInit,
    /// Registration hit a taken user name.
    DuplicateUser,
    /// Hashing or checking a password failed inside bcrypt.
    HashUserPassword,
    /// No such user.
    NotFoundUser,
    /// The password does not match the stored hash.
    WrongPassword,
    /// The session is unknown or expired.
    NotFoundSession,
    /// The todo row is missing, or belongs to another user.
    NotFoundTodo,
    /// A storage-level fault outside the domain vocabulary.
    FailDbAccess,
}

/// The todo service: the store, guarded by the business rules.
#[derive(Debug)]
pub struct Todo {
    pub database: Database,
}

impl View for Todo {
    type V = StoreView;

    open spec fn view(&self) -> StoreView {
        self.database@
    }
}

impl Todo {
    pub open spec fn wf(&self) -> bool {
        store_wf(self@)
    }
}

} // verus!
