//! Control-plane core of a storage-pool management daemon.
//!
//! The library tracks logical pools of block devices, publishes static
//! catalogs of error codes and RAID levels, derives stable object paths
//! for the entities it manages, and dispatches typed remote-procedure
//! requests onto the engine.  All state transitions and reply codes are
//! specified by contracts and verified.

pub mod catalog;
pub mod dispatch;
pub mod engine;
pub mod errors;
pub mod paths;
pub mod pool;

use vstd::prelude::*;

verus! {

/// Compares two string slices by contents.
pub fn str_eq(a: &str, b: &str) -> (r: bool)
    ensures
        r == (a@ == b@),
{
    let sa: String = a.to_owned();
    let sb: String = b.to_owned();
    sa == sb
}

} // verus!
