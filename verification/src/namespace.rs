//! Identification of a target collection.

use vstd::prelude::*;

verus! {

/// The (database, collection) pair that identifies one collection.
#[derive(Debug, PartialEq)]
pub struct Namespace {
    pub db: String,
    pub coll: String,
}

impl Clone for Namespace {
    /// A clone names the same database and collection.
    fn clone(&self) -> (r: Namespace)
        ensures
            r.db@ == self.db@,
            r.coll@ == self.coll@,
    {
        Namespace { db: self.db.clone(), coll: self.coll.clone() }
    }
}

} // verus!
