//! Database connection settings.

use vstd::prelude::*;

verus! {

/// The database name and credentials used to reach the price store.
#[derive(Clone, Debug)]
pub struct ConnectionDetails {
    pub database: String,
    pub username: String,
    pub password: String,
}

} // verus!
