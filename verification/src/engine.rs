//! The engine: the process-wide, single-writer registry of named pools.
//!
//! The engine owns every pool exclusively.  It enforces the global
//! invariants: pool names are unique and non-empty, every registered pool
//! is active and well formed, and a device path is owned by at most one
//! pool, in at most one role.  Every mutating operation either commits
//! fully or fails and leaves the registry exactly as it was.

use vstd::prelude::*;

use crate::errors::EngineError;
use crate::paths::{pool_path_spec, device_path_spec, cache_path_spec};
use crate::paths::{pool_object_path, device_object_path, cache_object_path};
use crate::pool::{PoolModel, SimPool};

verus! {

/// Whether a pool with the given name is registered.
pub open spec fn registered(m: Seq<PoolModel>, name: Seq<char>) -> bool {
    exists|i: int| 0 <= i < m.len() && (#[trigger] m[i]).name == name
}

/// Whether some registered pool owns the device path as a block device.
pub open spec fn owned_block(m: Seq<PoolModel>, dev: Seq<char>) -> bool {
    exists|i: int| 0 <= i < m.len() && (#[trigger] m[i]).owns_block(dev)
}

/// Whether some registered pool owns the device path as a cache device.
pub open spec fn owned_cache(m: Seq<PoolModel>, dev: Seq<char>) -> bool {
    exists|i: int| 0 <= i < m.len() && (#[trigger] m[i]).owns_cache(dev)
}

/// Whether some registered pool owns the device path in either role.
pub open spec fn owned_any(m: Seq<PoolModel>, dev: Seq<char>) -> bool {
    exists|i: int| 0 <= i < m.len() && (#[trigger] m[i]).owns(dev)
}

/// Registered pool names are pairwise distinct.
pub open spec fn names_unique(m: Seq<PoolModel>) -> bool {
    forall|i: int, j: int|
        0 <= i < m.len() && 0 <= j < m.len() && i != j ==> (#[trigger] m[i]).name != (
        #[trigger] m[j]).name
}

/// No device path is owned by two different registered pools.
pub open spec fn devices_disjoint(m: Seq<PoolModel>) -> bool {
    forall|i: int, j: int, d: Seq<char>|
        0 <= i < m.len() && 0 <= j < m.len() && i != j && #[trigger] m[i].owns(d)
            ==> !(#[trigger] m[j].owns(d))
}

/// Well-formedness of the whole registry: every pool is well formed and
/// active, names are unique, and device ownership is exclusive.
pub open spec fn wf_model(m: Seq<PoolModel>) -> bool {
    &&& forall|i: int| 0 <= i < m.len() ==> (#[trigger] m[i]).wf() && m[i].active
    &&& names_unique(m)
    &&& devices_disjoint(m)
}

/// Whether a device list is unusable against a registry: some path is
/// empty, some path is repeated, or some path is already owned.
pub open spec fn invalid_dev_list(m: Seq<PoolModel>, devs: Seq<Seq<char>>) -> bool {
    ||| exists|i: int| 0 <= i < devs.len() && (#[trigger] devs[i]).len() == 0
    ||| !devs.no_duplicates()
    ||| exists|i: int| 0 <= i < devs.len() && owned_any(m, #[trigger] devs[i])
}

/// The model of the pool that `create_pool` registers.
pub open spec fn new_pool_model(name: Seq<char>, devs: Seq<Seq<char>>, raid_level: u16) -> PoolModel {
    PoolModel {
        name: name,
        block_devs: devs,
        cache_devs: Seq::empty(),
        raid_level: raid_level,
        active: true,
    }
}

/// How many registered pools carry the given name.
pub open spec fn name_count(m: Seq<PoolModel>, name: Seq<char>) -> nat
    decreases m.len(),
{
    if m.len() == 0 {
        0
    } else {
        name_count(m.drop_last(), name) + if m.last().name == name {
            1nat
        } else {
            0nat
        }
    }
}

/// The registry of named pools.
pub struct SimEngine {
    pools: Vec<SimPool>,
}

impl SimEngine {
    /// The mathematical value of the registry: the models of the
    /// registered pools, in creation order.
    pub closed spec fn model(self) -> Seq<PoolModel> {
        self.pools.deep_view()
    }

    /// Well-formedness of the registry.
    pub open spec fn wf(self) -> bool {
        wf_model(self.model())
    }

    /// Creates an empty engine.
    pub fn new() -> (r: SimEngine)
        ensures
            r.model() == Seq::<PoolModel>::empty(),
            r.wf(),
    {
        let r = SimEngine { pools: Vec::new() };
        proof {
            assert(r.model() =~= Seq::<PoolModel>::empty());
        }
        r
    }

    /// How many pools are registered.
    pub fn pool_count(&self) -> (r: usize)
        ensures
            r == self.model().len(),
    {
        self.pools.len()
    }

    /// Finds the index of the pool with the given name.
    fn find_pool(&self, name: &str) -> (r: Option<usize>)
        ensures
            match r {
                Some(i) => i < self.model().len() && self.model()[i as int].name == name@,
                None => !registered(self.model(), name@),
            },
    {
        let mut i: usize = 0;
        while i < self.pools.len()
            invariant
                0 <= i <= self.pools.len(),
                forall|j: int| 0 <= j < i ==> (#[trigger] self.model()[j]).name != name@,
            decreases self.pools.len() - i,
        {
            if crate::str_eq(self.pools[i].name(), name) {
                return Some(i);
            }
            i += 1;
        }
        None
    }

    /// Whether some registered pool owns the device path in either role.
    pub fn any_pool_owns(&self, dev: &str) -> (r: bool)
        ensures
            r == owned_any(self.model(), dev@),
    {
        let mut i: usize = 0;
        while i < self.pools.len()
            invariant
                0 <= i <= self.pools.len(),
                forall|j: int| 0 <= j < i ==> !(#[trigger] self.model()[j]).owns(dev@),
            decreases self.pools.len() - i,
        {
            if self.pools[i].owns_device(dev) {
                proof {
                    assert(self.model()[i as int].owns(dev@));
                }
                return true;
            }
            i += 1;
        }
        false
    }

    /// Looks up the object path of the pool with the given name.
    /// Returns `NotFound` exactly when no such pool is registered.
    pub fn get_pool_path(&self, name: &str) -> (r: Result<String, EngineError>)
        ensures
            registered(self.model(), name@) ==> (r matches Ok(p) && p@ == pool_path_spec(name@)),
            !registered(self.model(), name@) ==> r == Err::<String, EngineError>(
                EngineError::NotFound,
            ),
    {
        match self.find_pool(name) {
            Some(_) => Ok(pool_object_path(name)),
            None => Err(EngineError::NotFound),
        }
    }

    /// Looks up the object path of a volume.  Volume provisioning is
    /// outside this core: the engine tracks no volumes, so every volume
    /// lookup misses, whether or not the pool exists.
    pub fn get_volume_path(&self, pool_name: &str, volume_name: &str) -> (r: Result<
        String,
        EngineError,
    >)
        ensures
            r == Err::<String, EngineError>(EngineError::NotFound),
    {
        let _ = pool_name;
        let _ = volume_name;
        Err(EngineError::NotFound)
    }

    /// Looks up the object path of a block device.  Returns `NotFound`
    /// exactly when no registered pool owns the path as a block device.
    pub fn get_device_path(&self, dev: &str) -> (r: Result<String, EngineError>)
        ensures
            owned_block(self.model(), dev@) ==> (r matches Ok(p) && p@ == device_path_spec(dev@)),
            !owned_block(self.model(), dev@) ==> r == Err::<String, EngineError>(
                EngineError::NotFound,
            ),
    {
        let mut i: usize = 0;
        while i < self.pools.len()
            invariant
                0 <= i <= self.pools.len(),
                forall|j: int| 0 <= j < i ==> !(#[trigger] self.model()[j]).owns_block(dev@),
            decreases self.pools.len() - i,
        {
            if crate::pool::vec_contains_str(self.pools[i].block_devs(), dev) {
                proof {
                    assert(self.model()[i as int].owns_block(dev@));
                }
                return Ok(device_object_path(dev));
            }
            i += 1;
        }
        Err(EngineError::NotFound)
    }

    /// Looks up the object path of a cache device.  Returns `NotFound`
    /// exactly when no registered pool owns the path as a cache device.
    pub fn get_cache_device_path(&self, dev: &str) -> (r: Result<String, EngineError>)
        ensures
            owned_cache(self.model(), dev@) ==> (r matches Ok(p) && p@ == cache_path_spec(dev@)),
            !owned_cache(self.model(), dev@) ==> r == Err::<String, EngineError>(
                EngineError::NotFound,
            ),
    {
        let mut i: usize = 0;
        while i < self.pools.len()
            invariant
                0 <= i <= self.pools.len(),
                forall|j: int| 0 <= j < i ==> !(#[trigger] self.model()[j]).owns_cache(dev@),
            decreases self.pools.len() - i,
        {
            if crate::pool::vec_contains_str(self.pools[i].cache_devs(), dev) {
                proof {
                    assert(self.model()[i as int].owns_cache(dev@));
                }
                return Ok(cache_object_path(dev));
            }
            i += 1;
        }
        Err(EngineError::NotFound)
    }

    /// Lists the registered pools as (name, object path) pairs, in
    /// creation order.  Read-only: the registry is not changed.
    pub fn list_pools(&self) -> (r: Vec<(String, String)>)
        ensures
            r@.len() == self.model().len(),
            forall|i: int|
                0 <= i < r@.len() ==> (#[trigger] r@[i]).0@ == self.model()[i].name && r@[i].1@
                    == pool_path_spec(self.model()[i].name),
    {
        let mut out: Vec<(String, String)> = Vec::new();
        let mut i: usize = 0;
        while i < self.pools.len()
            invariant
                0 <= i <= self.pools.len(),
                out@.len() == i,
                forall|j: int|
                    0 <= j < i ==> (#[trigger] out@[j]).0@ == self.model()[j].name && out@[j].1@
                        == pool_path_spec(self.model()[j].name),
            decreases self.pools.len() - i,
        {
            let name = self.pools[i].name();
            out.push((name.to_owned(), pool_object_path(name)));
            i += 1;
        }
        out
    }

    /// The block devices of the named pool, in attachment order.
    /// Returns `NotFound` exactly when no such pool is registered.
    pub fn blockdevs_of(&self, name: &str) -> (r: Result<Vec<String>, EngineError>)
        ensures
            registered(self.model(), name@) ==> (r matches Ok(v) && exists|i: int|
                0 <= i < self.model().len() && (#[trigger] self.model()[i]).name == name@
                    && v.deep_view() == self.model()[i].block_devs),
            !registered(self.model(), name@) ==> r == Err::<Vec<String>, EngineError>(
                EngineError::NotFound,
            ),
    {
        match self.find_pool(name) {
            None => Err(EngineError::NotFound),
            Some(i) => Ok(clone_dev_list(self.pools[i].block_devs())),
        }
    }

    /// The cache devices of the named pool, in attachment order.
    /// Returns `NotFound` exactly when no such pool is registered.
    pub fn cachedevs_of(&self, name: &str) -> (r: Result<Vec<String>, EngineError>)
        ensures
            registered(self.model(), name@) ==> (r matches Ok(v) && exists|i: int|
                0 <= i < self.model().len() && (#[trigger] self.model()[i]).name == name@
                    && v.deep_view() == self.model()[i].cache_devs),
            !registered(self.model(), name@) ==> r == Err::<Vec<String>, EngineError>(
                EngineError::NotFound,
            ),
    {
        match self.find_pool(name) {
            None => Err(EngineError::NotFound),
            Some(i) => Ok(clone_dev_list(self.pools[i].cache_devs())),
        }
    }

    /// Whether the device list is unusable against this registry: some
    /// path empty, repeated, or already owned by a pool.
    pub fn dev_list_invalid(&self, devs: &Vec<String>) -> (r: bool)
        ensures
            r == invalid_dev_list(self.model(), devs.deep_view()),
    {
        let mut i: usize = 0;
        while i < devs.len()
            invariant
                0 <= i <= devs.len(),
                forall|j: int| 0 <= j < i ==> (#[trigger] devs.deep_view()[j]).len() > 0,
                forall|j: int| 0 <= j < i ==> !owned_any(self.model(), #[trigger] devs.deep_view()[j]),
                forall|j: int, k: int| 0 <= j < k < i ==> devs.deep_view()[j] != devs.deep_view()[k],
            decreases devs.len() - i,
        {
            let d = devs[i].as_str();
            if d.is_empty() {
                proof {
                    assert(devs.deep_view()[i as int].len() == 0);
                }
                return true;
            }
            if self.any_pool_owns(d) {
                proof {
                    assert(owned_any(self.model(), devs.deep_view()[i as int]));
                }
                return true;
            }
            let mut j: usize = 0;
            while j < i
                invariant
                    0 <= j <= i < devs.len(),
                    d@ == devs.deep_view()[i as int],
                    forall|k: int| 0 <= k < j ==> devs.deep_view()[k] != devs.deep_view()[i as int],
                decreases i - j,
            {
                if crate::str_eq(devs[j].as_str(), d) {
                    proof {
                        assert(devs.deep_view()[j as int] == devs.deep_view()[i as int]);
                        assert(!devs.deep_view().no_duplicates());
                    }
                    return true;
                }
                j += 1;
            }
            i += 1;
        }
        proof {
            assert(devs.deep_view().no_duplicates());
            assert(!invalid_dev_list(self.model(), devs.deep_view()));
        }
        false
    }

    /// Creates and registers a new pool.  All-or-nothing: on any failure
    /// the registry is exactly as it was.  Fails `NameConflict` if the
    /// name is registered; otherwise `UnsupportedRaidLevel` if the RAID
    /// level is not in the catalog; otherwise `InvalidDevice` if some
    /// device path is empty, repeated, or already owned.  Otherwise it
    /// registers an active pool owning the given block devices and
    /// returns the pool's object path.
    pub fn create_pool(&mut self, name: &str, blockdev_paths: &Vec<String>, raid_level: u16) -> (r:
        Result<String, EngineError>)
        requires
            old(self).wf(),
            name@.len() > 0,
            blockdev_paths@.len() > 0,
        ensures
            final(self).wf(),
            registered(old(self).model(), name@) ==> r == Err::<String, EngineError>(
                EngineError::NameConflict,
            ) && final(self).model() == old(self).model(),
            !registered(old(self).model(), name@) && !crate::catalog::raid_supported(raid_level)
                ==> r == Err::<String, EngineError>(EngineError::UnsupportedRaidLevel) && final(self).model() == old(self).model(),
            !registered(old(self).model(), name@) && crate::catalog::raid_supported(raid_level)
                && invalid_dev_list(old(self).model(), blockdev_paths.deep_view()) ==> r == Err::<
                String,
                EngineError,
            >(EngineError::InvalidDevice) && final(self).model() == old(self).model(),
            !registered(old(self).model(), name@) && crate::catalog::raid_supported(raid_level)
                && !invalid_dev_list(old(self).model(), blockdev_paths.deep_view()) ==> (
            r matches Ok(p) && p@ == pool_path_spec(name@)) && final(self).model() == old(self).model().push(new_pool_model(name@, blockdev_paths.deep_view(), raid_level)),
    {
        match self.find_pool(name) {
            Some(_) => {
                return Err(EngineError::NameConflict);
            },
            None => {},
        }
        if !crate::catalog::is_raid_supported(raid_level) {
            return Err(EngineError::UnsupportedRaidLevel);
        }
        if self.dev_list_invalid(blockdev_paths) {
            return Err(EngineError::InvalidDevice);
        }
        let pool = SimPool::new(name.to_owned(), clone_dev_list(blockdev_paths), raid_level);
        self.pools.push(pool);
        proof {
            assert(self.model() =~= old(self).model().push(
                new_pool_model(name@, blockdev_paths.deep_view(), raid_level),
            ));
            lemma_create_pool_effect(
                old(self).model(),
                name@,
                blockdev_paths.deep_view(),
                raid_level,
            );
        }
        Ok(pool_object_path(name))
    }

    /// Destroys and unregisters the named pool, releasing its devices
    /// and invalidating its object path.  Fails `NotFound` exactly when
    /// no such pool is registered, leaving the registry unchanged.
    pub fn destroy_pool(&mut self, name: &str) -> (r: Result<(), EngineError>)
        requires
            old(self).wf(),
        ensures
            final(self).wf(),
            !registered(old(self).model(), name@) ==> r == Err::<(), EngineError>(
                EngineError::NotFound,
            ) && final(self).model() == old(self).model(),
            registered(old(self).model(), name@) ==> r == Ok::<(), EngineError>(()) && (exists|
                i: int,
            |
                0 <= i < old(self).model().len() && (#[trigger] old(self).model()[i]).name == name@
                    && final(self).model() == old(self).model().remove(i)) && !registered(
                final(self).model(),
                name@,
            ),
    {
        match self.find_pool(name) {
            None => Err(EngineError::NotFound),
            Some(i) => {
                let mut p = self.pools.remove(i);
                let destroyed = p.destroy();
                proof {
                    assert(destroyed == Ok::<(), crate::errors::PoolError>(()));
                    assert(self.model() =~= old(self).model().remove(i as int));
                    lemma_remove_preserves_wf(old(self).model(), i as int);
                }
                Ok(())
            },
        }
    }

    /// Attaches a block device to the named pool.  Fails `NotFound` if
    /// no such pool is registered, `InvalidDevice` on an empty path, and
    /// `DeviceAlreadyOwned` if any pool owns the path in either role; on
    /// failure no pool's membership changes.
    pub fn add_blockdev(&mut self, pool_name: &str, path: &str) -> (r: Result<(), EngineError>)
        requires
            old(self).wf(),
        ensures
            final(self).wf(),
            !registered(old(self).model(), pool_name@) ==> r == Err::<(), EngineError>(
                EngineError::NotFound,
            ) && final(self).model() == old(self).model(),
            registered(old(self).model(), pool_name@) && path@.len() == 0 ==> r == Err::<
                (),
                EngineError,
            >(EngineError::InvalidDevice) && final(self).model() == old(self).model(),
            registered(old(self).model(), pool_name@) && path@.len() > 0 && owned_any(
                old(self).model(),
                path@,
            ) ==> r == Err::<(), EngineError>(EngineError::DeviceAlreadyOwned) && final(self).model() == old(self).model(),
            registered(old(self).model(), pool_name@) && path@.len() > 0 && !owned_any(
                old(self).model(),
                path@,
            ) ==> r == Ok::<(), EngineError>(()) && (exists|i: int|
                0 <= i < old(self).model().len() && (#[trigger] old(self).model()[i]).name
                    == pool_name@ && final(self).model() == old(self).model().update(
                    i,
                    PoolModel {
                        block_devs: old(self).model()[i].block_devs.push(path@),
                        ..old(self).model()[i]
                    },
                )),
    {
        let idx = match self.find_pool(pool_name) {
            None => {
                return Err(EngineError::NotFound);
            },
            Some(i) => i,
        };
        if path.is_empty() {
            return Err(EngineError::InvalidDevice);
        }
        if self.any_pool_owns(path) {
            return Err(EngineError::DeviceAlreadyOwned);
        }
        let mut p = self.pools.remove(idx);
        let added = p.add_blockdev(path);
        proof {
            assert(!old(self).model()[idx as int].owns(path@));
            assert(added == Ok::<(), crate::errors::PoolError>(()));
        }
        self.pools.insert(idx, p);
        proof {
            let m = old(self).model();
            let i = idx as int;
            let p2 = PoolModel { block_devs: m[i].block_devs.push(path@), ..m[i] };
            assert(self.model() =~= m.update(i, p2));
            lemma_add_block_preserves_wf(m, i, path@);
        }
        Ok(())
    }

    /// Attaches a cache device to the named pool, under the same
    /// contract as `add_blockdev` with the roles exchanged.  Block and
    /// cache ownership share one space: a path owned in either role by
    /// any pool is refused.
    pub fn add_cachedev(&mut self, pool_name: &str, path: &str) -> (r: Result<(), EngineError>)
        requires
            old(self).wf(),
        ensures
            final(self).wf(),
            !registered(old(self).model(), pool_name@) ==> r == Err::<(), EngineError>(
                EngineError::NotFound,
            ) && final(self).model() == old(self).model(),
            registered(old(self).model(), pool_name@) && path@.len() == 0 ==> r == Err::<
                (),
                EngineError,
            >(EngineError::InvalidDevice) && final(self).model() == old(self).model(),
            registered(old(self).model(), pool_name@) && path@.len() > 0 && owned_any(
                old(self).model(),
                path@,
            ) ==> r == Err::<(), EngineError>(EngineError::DeviceAlreadyOwned) && final(self).model() == old(self).model(),
            registered(old(self).model(), pool_name@) && path@.len() > 0 && !owned_any(
                old(self).model(),
                path@,
            ) ==> r == Ok::<(), EngineError>(()) && (exists|i: int|
                0 <= i < old(self).model().len() && (#[trigger] old(self).model()[i]).name
                    == pool_name@ && final(self).model() == old(self).model().update(
                    i,
                    PoolModel {
                        cache_devs: old(self).model()[i].cache_devs.push(path@),
                        ..old(self).model()[i]
                    },
                )),
    {
        let idx = match self.find_pool(pool_name) {
            None => {
                return Err(EngineError::NotFound);
            },
            Some(i) => i,
        };
        if path.is_empty() {
            return Err(EngineError::InvalidDevice);
        }
        if self.any_pool_owns(path) {
            return Err(EngineError::DeviceAlreadyOwned);
        }
        let mut p = self.pools.remove(idx);
        let added = p.add_cachedev(path);
        proof {
            assert(!old(self).model()[idx as int].owns(path@));
            assert(added == Ok::<(), crate::errors::PoolError>(()));
        }
        self.pools.insert(idx, p);
        proof {
            let m = old(self).model();
            let i = idx as int;
            let p2 = PoolModel { cache_devs: m[i].cache_devs.push(path@), ..m[i] };
            assert(self.model() =~= m.update(i, p2));
            lemma_add_cache_preserves_wf(m, i, path@);
        }
        Ok(())
    }
}

/// Copies a device list into owned strings, preserving its contents.
fn clone_dev_list(devs: &Vec<String>) -> (r: Vec<String>)
    ensures
        r.deep_view() == devs.deep_view(),
{
    let mut out: Vec<String> = Vec::new();
    let mut i: usize = 0;
    while i < devs.len()
        invariant
            0 <= i <= devs.len(),
            out@.len() == i,
            forall|j: int| 0 <= j < i ==> out.deep_view()[j] == devs.deep_view()[j],
        decreases devs.len() - i,
    {
        out.push(devs[i].clone());
        i += 1;
    }
    proof {
        assert(out.deep_view() =~= devs.deep_view());
    }
    out
}

/// If no registered pool carries the name, the name's count is zero.
proof fn lemma_name_count_zero(m: Seq<PoolModel>, name: Seq<char>)
    requires
        !registered(m, name),
    ensures
        name_count(m, name) == 0,
    decreases m.len(),
{
    if m.len() > 0 {
        assert(!registered(m.drop_last(), name)) by {
            assert(forall|i: int|
                0 <= i < m.drop_last().len() ==> #[trigger] m.drop_last()[i] == m[i]);
        }
        lemma_name_count_zero(m.drop_last(), name);
    }
}

/// Law: registering a new pool under an unregistered name with a
/// supported RAID level and a usable device list yields a well-formed
/// registry in which the name is registered exactly once.
pub proof fn lemma_create_pool_effect(
    m: Seq<PoolModel>,
    name: Seq<char>,
    devs: Seq<Seq<char>>,
    raid_level: u16,
)
    requires
        wf_model(m),
        name.len() > 0,
        devs.len() > 0,
        !registered(m, name),
        crate::catalog::raid_supported(raid_level),
        !invalid_dev_list(m, devs),
    ensures
        wf_model(m.push(new_pool_model(name, devs, raid_level))),
        registered(m.push(new_pool_model(name, devs, raid_level)), name),
        name_count(m.push(new_pool_model(name, devs, raid_level)), name) == 1,
{
    let p = new_pool_model(name, devs, raid_level);
    let m2 = m.push(p);
    assert(m2[m.len() as int] == p);
    assert(p.wf()) by {
        assert(forall|d: Seq<char>| !p.owns_cache(d));
        assert(forall|i: int| 0 <= i < devs.len() ==> (#[trigger] devs[i]).len() > 0);
    }
    assert(names_unique(m2)) by {
        assert(forall|i: int| 0 <= i < m.len() ==> (#[trigger] m2[i]) == m[i]);
        assert(forall|i: int| 0 <= i < m.len() ==> (#[trigger] m[i]).name != name);
    }
    assert(devices_disjoint(m2)) by {
        assert(forall|i: int| 0 <= i < m.len() ==> (#[trigger] m2[i]) == m[i]);
        assert forall|i: int, d: Seq<char>|
            0 <= i < m.len() && #[trigger] p.owns(d) implies !(#[trigger] m[i].owns(d)) by {
            assert(devs.contains(d));
            let k = choose|k: int| 0 <= k < devs.len() && devs[k] == d;
            assert(!owned_any(m, devs[k]));
        }
    }
    assert(wf_model(m2)) by {
        assert(forall|i: int| 0 <= i < m.len() ==> (#[trigger] m2[i]) == m[i]);
    }
    lemma_name_count_zero(m, name);
    assert(m2.drop_last() =~= m);
    assert(name_count(m2, name) == 1);
}

/// Removing a pool keeps the registry well formed, and its name is no
/// longer registered.
proof fn lemma_remove_preserves_wf(m: Seq<PoolModel>, i: int)
    requires
        wf_model(m),
        0 <= i < m.len(),
    ensures
        wf_model(m.remove(i)),
        !registered(m.remove(i), m[i].name),
{
    let m2 = m.remove(i);
    assert(forall|j: int|
        0 <= j < m2.len() ==> (#[trigger] m2[j]) == if j < i {
            m[j]
        } else {
            m[j + 1]
        });
    assert forall|j: int| 0 <= j < m2.len() implies (#[trigger] m2[j]).name != m[i].name by {
        if j < i {
            assert(m2[j] == m[j]);
        } else {
            assert(m2[j] == m[j + 1]);
        }
    }
}

/// Attaching an unowned, non-empty block device to a registered pool
/// keeps the registry well formed.
proof fn lemma_add_block_preserves_wf(m: Seq<PoolModel>, i: int, d: Seq<char>)
    requires
        wf_model(m),
        0 <= i < m.len(),
        d.len() > 0,
        !owned_any(m, d),
    ensures
        wf_model(m.update(i, PoolModel { block_devs: m[i].block_devs.push(d), ..m[i] })),
{
    let p2 = PoolModel { block_devs: m[i].block_devs.push(d), ..m[i] };
    let m2 = m.update(i, p2);
    assert(!m[i].owns(d));
    assert(p2.wf()) by {
        assert(forall|k: int|
            0 <= k < p2.block_devs.len() ==> (#[trigger] p2.block_devs[k]) == if k
                < m[i].block_devs.len() {
                m[i].block_devs[k]
            } else {
                d
            });
        assert forall|x: Seq<char>| p2.owns_block(x) implies !p2.owns_cache(x) by {
            if m[i].block_devs.contains(x) {
                assert(!m[i].owns_cache(x));
            } else {
                assert(x == d);
            }
        }
    }
    assert forall|a: int, b: int, x: Seq<char>|
        0 <= a < m2.len() && 0 <= b < m2.len() && a != b && #[trigger] m2[a].owns(x) implies !(
    #[trigger] m2[b].owns(x)) by {
        if a == i {
            if m[i].owns(x) {
                assert(!m[b].owns(x));
            } else {
                assert(x == d);
                assert(!m[b].owns(d));
            }
        } else {
            assert(m2[a] == m[a]);
            assert(m[a].owns(x));
            if b == i {
                if p2.owns(x) {
                    if m[i].owns(x) {
                        assert(false);
                    } else {
                        assert(x == d);
                        assert(!m[a].owns(d));
                        assert(false);
                    }
                }
            } else {
                assert(!m[b].owns(x));
            }
        }
    }
    assert(wf_model(m2));
}

/// Attaching an unowned, non-empty cache device to a registered pool
/// keeps the registry well formed.
proof fn lemma_add_cache_preserves_wf(m: Seq<PoolModel>, i: int, d: Seq<char>)
    requires
        wf_model(m),
        0 <= i < m.len(),
        d.len() > 0,
        !owned_any(m, d),
    ensures
        wf_model(m.update(i, PoolModel { cache_devs: m[i].cache_devs.push(d), ..m[i] })),
{
    let p2 = PoolModel { cache_devs: m[i].cache_devs.push(d), ..m[i] };
    let m2 = m.update(i, p2);
    assert(!m[i].owns(d));
    assert(p2.wf()) by {
        assert(forall|k: int|
            0 <= k < p2.cache_devs.len() ==> (#[trigger] p2.cache_devs[k]) == if k
                < m[i].cache_devs.len() {
                m[i].cache_devs[k]
            } else {
                d
            });
        assert forall|x: Seq<char>| p2.owns_block(x) implies !p2.owns_cache(x) by {
            assert(m[i].owns_block(x));
            assert(!m[i].owns_cache(x));
            if p2.cache_devs.contains(x) {
                if m[i].cache_devs.contains(x) {
                    assert(false);
                } else {
                    assert(x == d);
                    assert(m[i].owns(d));
                    assert(false);
                }
            }
        }
    }
    assert forall|a: int, b: int, x: Seq<char>|
        0 <= a < m2.len() && 0 <= b < m2.len() && a != b && #[trigger] m2[a].owns(x) implies !(
    #[trigger] m2[b].owns(x)) by {
        if a == i {
            if m[i].owns(x) {
                assert(!m[b].owns(x));
            } else {
                assert(x == d);
                assert(!m[b].owns(d));
            }
        } else {
            assert(m2[a] == m[a]);
            assert(m[a].owns(x));
            if b == i {
                if p2.owns(x) {
                    if m[i].owns(x) {
                        assert(false);
                    } else {
                        assert(x == d);
                        assert(!m[a].owns(d));
                        assert(false);
                    }
                }
            } else {
                assert(!m[b].owns(x));
            }
        }
    }
    assert(wf_model(m2));
}

/// Law: in a well-formed registry, two distinct registered pools have
/// distinct object paths, so an object path resolves to at most one
/// live pool.
pub proof fn lemma_live_pool_paths_unique(m: Seq<PoolModel>, i: int, j: int)
    requires
        wf_model(m),
        0 <= i < m.len(),
        0 <= j < m.len(),
        i != j,
    ensures
        pool_path_spec(m[i].name) != pool_path_spec(m[j].name),
{
    if pool_path_spec(m[i].name) == pool_path_spec(m[j].name) {
        crate::paths::lemma_pool_path_injective(m[i].name, m[j].name);
    }
}

/// Law: in a well-formed registry a registered name is carried by
/// exactly one pool, so a pool listing contains it exactly once.
pub proof fn lemma_registered_name_count_one(m: Seq<PoolModel>, name: Seq<char>)
    requires
        wf_model(m),
        registered(m, name),
    ensures
        name_count(m, name) == 1,
    decreases m.len(),
{
    let last = m.last();
    if last.name == name {
        assert(!registered(m.drop_last(), name)) by {
            assert(forall|i: int|
                0 <= i < m.drop_last().len() ==> #[trigger] m.drop_last()[i] == m[i]);
        }
        lemma_name_count_zero(m.drop_last(), name);
    } else {
        let i = choose|i: int| 0 <= i < m.len() && m[i].name == name;
        assert(i < m.len() - 1);
        assert(m.drop_last()[i] == m[i]);
        assert(wf_model(m.drop_last())) by {
            assert(forall|j: int|
                0 <= j < m.drop_last().len() ==> #[trigger] m.drop_last()[j] == m[j]);
        }
        lemma_registered_name_count_one(m.drop_last(), name);
    }
}

} // verus!
