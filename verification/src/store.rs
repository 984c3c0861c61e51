//! Where the persisted collections are kept.

use vstd::prelude::*;

verus! {

/// Structure to setup the storage of the persisted collections.
#[derive(Debug)]
pub struct StorageBuilder {
    /// Where the database lies.
    pub database_path: String,
}

impl StorageBuilder {
    /// Start a new builder, the database file location must be passed.
    pub fn new(database_path: &str) -> (res: Self)
        ensures
            res.database_path@ == database_path@,
    {
        StorageBuilder { database_path: database_path.to_owned() }
    }

    /// The database file location.
    pub fn database_path(&self) -> (res: &str)
        ensures
            res@ == self.database_path@,
    {
        self.database_path.as_str()
    }
}

} // verus!
