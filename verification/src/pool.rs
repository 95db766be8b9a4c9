//! A single storage pool: a named set of block devices, an optional set
//! of cache devices, and an assigned RAID level.
//!
//! A pool is `Active` from creation until `destroy` succeeds, which is a
//! terminal transition: every mutating operation on a `Destroyed` pool
//! fails with `AlreadyDestroyed`.  A pool alone can check ownership only
//! against its own membership; the engine enforces the global rule that a
//! device path is owned by at most one pool.

use vstd::prelude::*;

use crate::errors::PoolError;

verus! {

/// Lifecycle state of a pool.
#[derive(Clone, Copy, Debug, PartialEq, Eq, Structural)]
pub enum PoolState {
    Active,
    Destroyed,
}

/// The mathematical value of a pool.
pub ghost struct PoolModel {
    pub name: Seq<char>,
    pub block_devs: Seq<Seq<char>>,
    pub cache_devs: Seq<Seq<char>>,
    pub raid_level: u16,
    pub active: bool,
}

impl PoolModel {
    /// Whether the pool owns the device path as a block device.
    pub open spec fn owns_block(self, dev: Seq<char>) -> bool {
        self.block_devs.contains(dev)
    }

    /// Whether the pool owns the device path as a cache device.
    pub open spec fn owns_cache(self, dev: Seq<char>) -> bool {
        self.cache_devs.contains(dev)
    }

    /// Whether the pool owns the device path in either role.
    pub open spec fn owns(self, dev: Seq<char>) -> bool {
        self.owns_block(dev) || self.owns_cache(dev)
    }

    /// Well-formedness: a non-empty name, at least one block device, no
    /// repeated device, no device in both roles, no empty device path,
    /// and a RAID level drawn from the catalog.
    pub open spec fn wf(self) -> bool {
        &&& self.name.len() > 0
        &&& self.block_devs.len() > 0
        &&& self.block_devs.no_duplicates()
        &&& self.cache_devs.no_duplicates()
        &&& forall|d: Seq<char>| self.owns_block(d) ==> !self.owns_cache(d)
        &&& forall|i: int| 0 <= i < self.block_devs.len() ==> (#[trigger] self.block_devs[i]).len() > 0
        &&& forall|i: int| 0 <= i < self.cache_devs.len() ==> (#[trigger] self.cache_devs[i]).len() > 0
        &&& crate::catalog::raid_supported(self.raid_level)
    }
}

/// A storage pool.
pub struct SimPool {
    name: String,
    block_devs: Vec<String>,
    cache_devs: Vec<String>,
    raid_level: u16,
    state: PoolState,
}

impl View for SimPool {
    type V = PoolModel;

    closed spec fn view(&self) -> PoolModel {
        PoolModel {
            name: self.name@,
            block_devs: self.block_devs.deep_view(),
            cache_devs: self.cache_devs.deep_view(),
            raid_level: self.raid_level,
            active: self.state == PoolState::Active,
        }
    }
}

impl DeepView for SimPool {
    type V = PoolModel;

    open spec fn deep_view(&self) -> PoolModel {
        self.view()
    }
}

/// Tests whether a vector of strings contains the given string.
pub fn vec_contains_str(v: &Vec<String>, s: &str) -> (r: bool)
    ensures
        r == v.deep_view().contains(s@),
{
    let mut i: usize = 0;
    while i < v.len()
        invariant
            0 <= i <= v.len(),
            forall|j: int| 0 <= j < i ==> v.deep_view()[j] != s@,
        decreases v.len() - i,
    {
        if crate::str_eq(v[i].as_str(), s) {
            assert(v.deep_view()[i as int] == s@);
            return true;
        }
        i += 1;
    }
    assert(!v.deep_view().contains(s@));
    false
}

impl SimPool {
    /// Creates an `Active` pool with the given name, block devices, and
    /// RAID level, and no cache devices.  The engine validates the
    /// arguments before construction.
    pub fn new(name: String, block_devs: Vec<String>, raid_level: u16) -> (r: SimPool)
        ensures
            r@ == (PoolModel {
                name: name@,
                block_devs: block_devs.deep_view(),
                cache_devs: Seq::<Seq<char>>::empty(),
                raid_level: raid_level,
                active: true,
            }),
    {
        let r = SimPool {
            name,
            block_devs,
            cache_devs: Vec::new(),
            raid_level,
            state: PoolState::Active,
        };
        proof {
            assert(r.cache_devs.deep_view() =~= Seq::<Seq<char>>::empty());
        }
        r
    }

    /// The pool's name.
    pub fn name(&self) -> (r: &str)
        ensures
            r@ == self@.name,
    {
        self.name.as_str()
    }

    /// The pool's RAID level.
    pub fn raid_level(&self) -> (r: u16)
        ensures
            r == self@.raid_level,
    {
        self.raid_level
    }

    /// Whether the pool is still active.
    pub fn is_active(&self) -> (r: bool)
        ensures
            r == self@.active,
    {
        match self.state {
            PoolState::Active => true,
            PoolState::Destroyed => false,
        }
    }

    /// The pool's block devices, in attachment order.
    pub fn block_devs(&self) -> (r: &Vec<String>)
        ensures
            r.deep_view() == self@.block_devs,
    {
        &self.block_devs
    }

    /// The pool's cache devices, in attachment order.
    pub fn cache_devs(&self) -> (r: &Vec<String>)
        ensures
            r.deep_view() == self@.cache_devs,
    {
        &self.cache_devs
    }

    /// Whether the pool owns the device path in either role.
    pub fn owns_device(&self, dev: &str) -> (r: bool)
        ensures
            r == self@.owns(dev@),
    {
        vec_contains_str(&self.block_devs, dev) || vec_contains_str(&self.cache_devs, dev)
    }

    /// Attaches a block device to the pool.  Fails `AlreadyDestroyed` on
    /// a destroyed pool, `InvalidPath` on an empty path, and
    /// `DeviceAlreadyOwned` if this pool owns the path in either role;
    /// on failure the pool is unchanged.
    pub fn add_blockdev(&mut self, path: &str) -> (r: Result<(), PoolError>)
        ensures
            !old(self)@.active ==> r == Err::<(), PoolError>(PoolError::AlreadyDestroyed) && final(self)@ == old(self)@,
            old(self)@.active && path@.len() == 0 ==> r == Err::<(), PoolError>(PoolError::InvalidPath) && final(self)@ == old(self)@,
            old(self)@.active && path@.len() > 0 && old(self)@.owns(path@) ==> r == Err::<(), PoolError>(PoolError::DeviceAlreadyOwned) && final(self)@ == old(self)@,
            old(self)@.active && path@.len() > 0 && !old(self)@.owns(path@) ==> r == Ok::<(), PoolError>(()) && final(self)@ == (PoolModel {
                block_devs: old(self)@.block_devs.push(path@),
                ..old(self)@
            }),
    {
        if !self.is_active() {
            return Err(PoolError::AlreadyDestroyed);
        }
        if path.is_empty() {
            return Err(PoolError::InvalidPath);
        }
        if self.owns_device(path) {
            return Err(PoolError::DeviceAlreadyOwned);
        }
        self.block_devs.push(path.to_owned());
        proof {
            assert(self.block_devs.deep_view() =~= old(self)@.block_devs.push(path@));
        }
        Ok(())
    }

    /// Attaches a cache device to the pool, under the same contract as
    /// `add_blockdev` with the roles exchanged.
    pub fn add_cachedev(&mut self, path: &str) -> (r: Result<(), PoolError>)
        ensures
            !old(self)@.active ==> r == Err::<(), PoolError>(PoolError::AlreadyDestroyed) && final(self)@ == old(self)@,
            old(self)@.active && path@.len() == 0 ==> r == Err::<(), PoolError>(PoolError::InvalidPath) && final(self)@ == old(self)@,
            old(self)@.active && path@.len() > 0 && old(self)@.owns(path@) ==> r == Err::<(), PoolError>(PoolError::DeviceAlreadyOwned) && final(self)@ == old(self)@,
            old(self)@.active && path@.len() > 0 && !old(self)@.owns(path@) ==> r == Ok::<(), PoolError>(()) && final(self)@ == (PoolModel {
                cache_devs: old(self)@.cache_devs.push(path@),
                ..old(self)@
            }),
    {
        if !self.is_active() {
            return Err(PoolError::AlreadyDestroyed);
        }
        if path.is_empty() {
            return Err(PoolError::InvalidPath);
        }
        if self.owns_device(path) {
            return Err(PoolError::DeviceAlreadyOwned);
        }
        self.cache_devs.push(path.to_owned());
        proof {
            assert(self.cache_devs.deep_view() =~= old(self)@.cache_devs.push(path@));
        }
        Ok(())
    }

    /// Destroys the pool: the terminal `Active` to `Destroyed`
    /// transition.  Fails `AlreadyDestroyed` if the pool is already
    /// destroyed; repeated destruction is an error, not a no-op.
    pub fn destroy(&mut self) -> (r: Result<(), PoolError>)
        ensures
            !old(self)@.active ==> r == Err::<(), PoolError>(PoolError::AlreadyDestroyed) && final(self)@ == old(self)@,
            old(self)@.active ==> r == Ok::<(), PoolError>(()) && final(self)@ == (PoolModel { active: false, ..old(self)@ }),
    {
        if !self.is_active() {
            return Err(PoolError::AlreadyDestroyed);
        }
        self.state = PoolState::Destroyed;
        Ok(())
    }
}

} // verus!
