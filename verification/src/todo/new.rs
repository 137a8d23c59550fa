//! Construction of the service.

use crate::database::{Database, empty_store};
use crate::todo::Todo;
use vstd::prelude::*;

verus! {

impl Todo {
    /// A service over a fresh, empty store.
    pub fn new() -> (r: Self)
        ensures
            r@ == empty_store(),
            r.wf(),
    {
        Todo { database: Database::new() }
    }
}

} // verus!
