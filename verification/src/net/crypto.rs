//! Where the keys of the clients are kept.

use vstd::prelude::*;

verus! {

/// Structure to setup the database that holds the keys for encoding and
/// decoding messages.
#[derive(Debug)]
pub struct CryptoBuilder {
    /// Where the database lies.
    pub database_path: String,
}

impl CryptoBuilder {
    /// Start a new builder, the database file location must be passed.
    pub fn new(database_path: &str) -> (res: Self)
        ensures
            res.database_path@ == database_path@,
    {
        CryptoBuilder { database_path: database_path.to_owned() }
    }

    /// The database file location.
    pub fn database_path(&self) -> (res: &str)
        ensures
            res@ == self.database_path@,
    {
        self.database_path.as_str()
    }
}

} // verus!
