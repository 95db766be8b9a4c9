//! Error taxonomy of the control plane.
//!
//! `EngineError` reports failures of engine-level operations; `PoolError`
//! reports failures of operations on a single pool.  Argument validation
//! failures are detected by the dispatcher before any engine call and are
//! reported as catalog codes directly, so they have no variant here.

use vstd::prelude::*;

verus! {

/// Failure of an engine-level operation.
#[derive(Clone, Copy, Debug, PartialEq, Eq, Structural)]
pub enum EngineError {
    /// A pool with the requested name is already registered.
    NameConflict,
    /// The named pool, volume, or device is not registered.
    NotFound,
    /// A device path is unusable: empty, repeated in the request, or
    /// already owned by a pool.
    InvalidDevice,
    /// The device path is already owned by a pool, in either role.
    DeviceAlreadyOwned,
    /// The requested RAID level is not in the RAID catalog.
    UnsupportedRaidLevel,
}

/// Failure of an operation on a single pool.
#[derive(Clone, Copy, Debug, PartialEq, Eq, Structural)]
pub enum PoolError {
    /// The device path is already owned by this pool, in either role.
    DeviceAlreadyOwned,
    /// The path cannot reference a device (it is empty).
    InvalidPath,
    /// The pool has already been destroyed.
    AlreadyDestroyed,
}

} // verus!
