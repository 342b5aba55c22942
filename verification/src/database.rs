//! Records as they are kept in the store.

pub mod anima;

use vstd::prelude::*;

verus! {

/// Records that know the key under which they are stored.
pub trait RedisKey {
    /// The key of the record.
    fn key(&self) -> String;
}

} // verus!
