use stratisd::engine::SimEngine;
use stratisd::errors::EngineError;

fn devs(paths: &[&str]) -> Vec<String> {
    paths.iter().map(|p| p.to_string()).collect()
}

#[test]
fn create_pool_returns_path_and_registers() {
    let mut engine = SimEngine::new();
    let path = engine.create_pool("pool1", &devs(&["/dev/sdb"]), 0).unwrap();
    assert_eq!(path, "/pools/pool1");
    assert_eq!(engine.get_pool_path("pool1").unwrap(), path);
    let listed = engine.list_pools();
    assert_eq!(listed.len(), 1);
    assert_eq!(listed[0].0, "pool1");
    assert_eq!(listed[0].1, "/pools/pool1");
}

#[test]
fn create_pool_name_conflict_leaves_registry() {
    let mut engine = SimEngine::new();
    engine.create_pool("pool1", &devs(&["/dev/sdb"]), 0).unwrap();
    let before = engine.list_pools();
    let r = engine.create_pool("pool1", &devs(&["/dev/sdc"]), 1);
    assert_eq!(r, Err(EngineError::NameConflict));
    assert_eq!(engine.pool_count(), 1);
    assert_eq!(engine.list_pools(), before);
    assert_eq!(
        engine.get_device_path("/dev/sdc"),
        Err(EngineError::NotFound)
    );
}

#[test]
fn create_pool_unsupported_raid_level() {
    let mut engine = SimEngine::new();
    let r = engine.create_pool("pool1", &devs(&["/dev/sdb"]), 99);
    assert_eq!(r, Err(EngineError::UnsupportedRaidLevel));
    assert_eq!(engine.pool_count(), 0);
}

#[test]
fn create_pool_invalid_device_empty_path() {
    let mut engine = SimEngine::new();
    let r = engine.create_pool("pool1", &devs(&["/dev/sdb", ""]), 0);
    assert_eq!(r, Err(EngineError::InvalidDevice));
    assert_eq!(engine.pool_count(), 0);
}

#[test]
fn create_pool_invalid_device_duplicate_path() {
    let mut engine = SimEngine::new();
    let r = engine.create_pool("pool1", &devs(&["/dev/sdb", "/dev/sdb"]), 0);
    assert_eq!(r, Err(EngineError::InvalidDevice));
    assert_eq!(engine.pool_count(), 0);
}

#[test]
fn create_pool_invalid_device_owned_path() {
    let mut engine = SimEngine::new();
    engine.create_pool("pool1", &devs(&["/dev/sdb"]), 0).unwrap();
    let r = engine.create_pool("pool2", &devs(&["/dev/sdb"]), 0);
    assert_eq!(r, Err(EngineError::InvalidDevice));
    assert_eq!(engine.pool_count(), 1);
}

#[test]
fn destroy_pool_unknown_not_found() {
    let mut engine = SimEngine::new();
    assert_eq!(engine.destroy_pool("nosuch"), Err(EngineError::NotFound));
}

#[test]
fn destroy_pool_removes_and_invalidates() {
    let mut engine = SimEngine::new();
    engine.create_pool("pool1", &devs(&["/dev/sdb"]), 0).unwrap();
    assert_eq!(engine.destroy_pool("pool1"), Ok(()));
    assert!(engine.list_pools().is_empty());
    assert_eq!(engine.get_pool_path("pool1"), Err(EngineError::NotFound));
    assert_eq!(
        engine.get_device_path("/dev/sdb"),
        Err(EngineError::NotFound)
    );
}

#[test]
fn add_blockdev_owned_fails_membership_unchanged() {
    let mut engine = SimEngine::new();
    engine.create_pool("pool1", &devs(&["/dev/sdb"]), 0).unwrap();
    engine.create_pool("pool2", &devs(&["/dev/sdc"]), 0).unwrap();
    let r = engine.add_blockdev("pool2", "/dev/sdb");
    assert_eq!(r, Err(EngineError::DeviceAlreadyOwned));
    assert_eq!(engine.blockdevs_of("pool1").unwrap(), devs(&["/dev/sdb"]));
    assert_eq!(engine.blockdevs_of("pool2").unwrap(), devs(&["/dev/sdc"]));
}

#[test]
fn add_blockdev_self_owned_fails() {
    let mut engine = SimEngine::new();
    engine.create_pool("pool1", &devs(&["/dev/sdb"]), 0).unwrap();
    let r = engine.add_blockdev("pool1", "/dev/sdb");
    assert_eq!(r, Err(EngineError::DeviceAlreadyOwned));
    assert_eq!(engine.blockdevs_of("pool1").unwrap(), devs(&["/dev/sdb"]));
}

#[test]
fn add_blockdev_appends_to_membership() {
    let mut engine = SimEngine::new();
    engine.create_pool("pool1", &devs(&["/dev/sdb"]), 0).unwrap();
    assert_eq!(engine.add_blockdev("pool1", "/dev/sdc"), Ok(()));
    assert_eq!(
        engine.blockdevs_of("pool1").unwrap(),
        devs(&["/dev/sdb", "/dev/sdc"])
    );
    assert_eq!(
        engine.get_device_path("/dev/sdc").unwrap(),
        "/devs//dev/sdc"
    );
}

#[test]
fn add_blockdev_unknown_pool_not_found() {
    let mut engine = SimEngine::new();
    assert_eq!(
        engine.add_blockdev("nosuch", "/dev/sdb"),
        Err(EngineError::NotFound)
    );
}

#[test]
fn add_blockdev_empty_path_invalid() {
    let mut engine = SimEngine::new();
    engine.create_pool("pool1", &devs(&["/dev/sdb"]), 0).unwrap();
    assert_eq!(
        engine.add_blockdev("pool1", ""),
        Err(EngineError::InvalidDevice)
    );
}

#[test]
fn add_cachedev_appends_and_shares_ownership_space() {
    let mut engine = SimEngine::new();
    engine.create_pool("pool1", &devs(&["/dev/sdb"]), 0).unwrap();
    engine.create_pool("pool2", &devs(&["/dev/sdc"]), 0).unwrap();
    assert_eq!(engine.add_cachedev("pool1", "/dev/sdd"), Ok(()));
    assert_eq!(engine.cachedevs_of("pool1").unwrap(), devs(&["/dev/sdd"]));
    // A cache device cannot be attached as a block device elsewhere.
    assert_eq!(
        engine.add_blockdev("pool2", "/dev/sdd"),
        Err(EngineError::DeviceAlreadyOwned)
    );
    // A block device cannot be attached as a cache device elsewhere.
    assert_eq!(
        engine.add_cachedev("pool2", "/dev/sdb"),
        Err(EngineError::DeviceAlreadyOwned)
    );
    assert_eq!(engine.cachedevs_of("pool2").unwrap(), devs(&[]));
}

#[test]
fn get_device_and_cache_paths_resolve_ownership() {
    let mut engine = SimEngine::new();
    engine.create_pool("pool1", &devs(&["/dev/sdb"]), 0).unwrap();
    engine.add_cachedev("pool1", "/dev/sdd").unwrap();
    assert_eq!(
        engine.get_device_path("/dev/sdb").unwrap(),
        "/devs//dev/sdb"
    );
    assert_eq!(
        engine.get_cache_device_path("/dev/sdd").unwrap(),
        "/cache//dev/sdd"
    );
    // Each lookup searches only its own role.
    assert_eq!(
        engine.get_device_path("/dev/sdd"),
        Err(EngineError::NotFound)
    );
    assert_eq!(
        engine.get_cache_device_path("/dev/sdb"),
        Err(EngineError::NotFound)
    );
}

#[test]
fn get_volume_path_always_misses() {
    let mut engine = SimEngine::new();
    engine.create_pool("pool1", &devs(&["/dev/sdb"]), 0).unwrap();
    assert_eq!(
        engine.get_volume_path("pool1", "vol0"),
        Err(EngineError::NotFound)
    );
    assert_eq!(
        engine.get_volume_path("nosuch", "vol0"),
        Err(EngineError::NotFound)
    );
}

#[test]
fn list_pools_keeps_creation_order() {
    let mut engine = SimEngine::new();
    engine.create_pool("alpha", &devs(&["/dev/sda1"]), 0).unwrap();
    engine.create_pool("beta", &devs(&["/dev/sdb1"]), 1).unwrap();
    engine.create_pool("gamma", &devs(&["/dev/sdc1"]), 2).unwrap();
    engine.destroy_pool("beta").unwrap();
    let listed = engine.list_pools();
    assert_eq!(listed.len(), 2);
    assert_eq!(listed[0].0, "alpha");
    assert_eq!(listed[1].0, "gamma");
}
