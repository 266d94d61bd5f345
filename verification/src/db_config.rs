//! The settings of the store's connection pool.

use vstd::prelude::*;

verus! {

/// How many connections the pool holds at most.
pub const MAX_CONNECTIONS: u32 = 15;

/// The settings of the store.
#[derive(Debug, Clone, Copy, PartialEq, Eq, Structural)]
pub struct DbConfig;

impl DbConfig {
    /// How many connections the pool holds at most. Every operation takes
    /// one for the time of one query and gives it back.
    pub fn max_connections() -> (out: u32)
        ensures
            out == MAX_CONNECTIONS,
    {
        MAX_CONNECTIONS
    }
}

} // verus!
