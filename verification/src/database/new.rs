//! Construction of an empty store.

use crate::database::{Database, StoreView};
use vstd::prelude::*;

verus! {

/// The view of a store holding no rows; todo ids are assigned from 1.
pub open spec fn empty_store() -> StoreView {
    StoreView {
        users: Seq::empty(),
        sessions: Seq::empty(),
        issued: Seq::empty(),
        todos: Seq::empty(),
        next_todo_id: 1,
    }
}

impl Database {
    /// A fresh store with no users, sessions or todo items.
    pub fn new() -> (r: Self)
        ensures
            r@ == empty_store(),
            r.wf(),
    {
        let r = Database {
            users: Vec::new(),
            sessions: Vec::new(),
            issued: Vec::new(),
            todos: Vec::new(),
            next_todo_id: 1,
        };
        proof {
            assert(r@ =~= empty_store());
        }
        r
    }
}

} // verus!
