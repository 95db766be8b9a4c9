use stratisd::dispatch::{
    dispatch_create_pool, dispatch_destroy_pool, dispatch_get_cache_object_path,
    dispatch_get_dev_object_path, dispatch_get_dev_types, dispatch_get_pool_object_path,
    dispatch_get_volume_object_path, dispatch_list_pools, ArgValue,
};
use stratisd::engine::SimEngine;

fn create_args(name: &str, devs: &[&str], raid_level: u16) -> Vec<ArgValue> {
    vec![
        ArgValue::Str(name.to_string()),
        ArgValue::StrList(devs.iter().map(|d| d.to_string()).collect()),
        ArgValue::Uint16(raid_level),
    ]
}

fn one_str(s: &str) -> Vec<ArgValue> {
    vec![ArgValue::Str(s.to_string())]
}

#[test]
fn create_destroy_lookup_scenario() {
    let mut engine = SimEngine::new();

    let created = dispatch_create_pool(&mut engine, &create_args("pool1", &["/dev/sdb"], 0));
    assert_eq!(created.object_path, "/pools/pool1");
    assert_eq!(created.code, 0);
    assert_eq!(created.message, "Ok");

    let (listed, code) = dispatch_list_pools(&engine);
    assert_eq!(code, 0);
    assert_eq!(
        listed,
        vec![("pool1".to_string(), "/pools/pool1".to_string())]
    );

    let destroyed = dispatch_destroy_pool(&mut engine, &one_str("pool1"));
    assert_eq!(destroyed.code, 0);
    assert_eq!(destroyed.message, "Ok");

    let (listed, code) = dispatch_list_pools(&engine);
    assert_eq!(code, 0);
    assert!(listed.is_empty());

    let lookup = dispatch_get_pool_object_path(&engine, &one_str("pool1"));
    assert_eq!(lookup.code, 4);
    assert_eq!(lookup.message, "The named object is not registered");
}

#[test]
fn create_pool_missing_arguments() {
    let mut engine = SimEngine::new();
    let r = dispatch_create_pool(&mut engine, &vec![]);
    assert_eq!(r.code, 1);
    assert_eq!(r.message, "A required argument was missing");
    let r = dispatch_create_pool(&mut engine, &one_str("pool1"));
    assert_eq!(r.code, 1);
    assert_eq!(engine.pool_count(), 0);
}

#[test]
fn create_pool_type_mismatch() {
    let mut engine = SimEngine::new();
    let args = vec![
        ArgValue::Uint16(7),
        ArgValue::StrList(vec!["/dev/sdb".to_string()]),
        ArgValue::Uint16(0),
    ];
    let r = dispatch_create_pool(&mut engine, &args);
    assert_eq!(r.code, 2);
    assert_eq!(r.message, "An argument had the wrong type");
    assert_eq!(engine.pool_count(), 0);
}

#[test]
fn create_pool_empty_name_or_devices_is_missing() {
    let mut engine = SimEngine::new();
    let r = dispatch_create_pool(&mut engine, &create_args("", &["/dev/sdb"], 0));
    assert_eq!(r.code, 1);
    let r = dispatch_create_pool(&mut engine, &create_args("pool1", &[], 0));
    assert_eq!(r.code, 1);
    assert_eq!(engine.pool_count(), 0);
}

#[test]
fn create_pool_domain_failures_report_catalog_codes() {
    let mut engine = SimEngine::new();
    let r = dispatch_create_pool(&mut engine, &create_args("pool1", &["/dev/sdb"], 0));
    assert_eq!(r.code, 0);

    let conflict = dispatch_create_pool(&mut engine, &create_args("pool1", &["/dev/sdc"], 0));
    assert_eq!(conflict.code, 3);
    assert_eq!(
        conflict.message,
        "A pool with this name is already registered"
    );

    let bad_raid = dispatch_create_pool(&mut engine, &create_args("pool2", &["/dev/sdc"], 42));
    assert_eq!(bad_raid.code, 7);
    assert_eq!(bad_raid.message, "The RAID level is not in the RAID catalog");

    let owned = dispatch_create_pool(&mut engine, &create_args("pool2", &["/dev/sdb"], 0));
    assert_eq!(owned.code, 5);
    assert_eq!(owned.message, "A device path is unusable or already owned");

    assert_eq!(engine.pool_count(), 1);
}

#[test]
fn destroy_pool_argument_validation() {
    let mut engine = SimEngine::new();
    let r = dispatch_destroy_pool(&mut engine, &vec![]);
    assert_eq!(r.code, 1);
    let r = dispatch_destroy_pool(&mut engine, &vec![ArgValue::Uint16(1)]);
    assert_eq!(r.code, 2);
    let r = dispatch_destroy_pool(&mut engine, &one_str("nosuch"));
    assert_eq!(r.code, 4);
}

#[test]
fn get_pool_object_path_reports_path() {
    let mut engine = SimEngine::new();
    dispatch_create_pool(&mut engine, &create_args("pool1", &["/dev/sdb"], 0));
    let r = dispatch_get_pool_object_path(&engine, &one_str("pool1"));
    assert_eq!(r.code, 0);
    assert_eq!(r.object_path, "/pools/pool1");
    let r = dispatch_get_pool_object_path(&engine, &vec![]);
    assert_eq!(r.code, 1);
}

#[test]
fn get_dev_and_cache_object_paths() {
    let mut engine = SimEngine::new();
    dispatch_create_pool(&mut engine, &create_args("pool1", &["/dev/sdb"], 0));
    engine.add_cachedev("pool1", "/dev/sdd").unwrap();

    let r = dispatch_get_dev_object_path(&engine, &one_str("/dev/sdb"));
    assert_eq!(r.code, 0);
    assert_eq!(r.object_path, "/devs//dev/sdb");
    let r = dispatch_get_dev_object_path(&engine, &one_str("/dev/sdd"));
    assert_eq!(r.code, 4);

    let r = dispatch_get_cache_object_path(&engine, &one_str("/dev/sdd"));
    assert_eq!(r.code, 0);
    assert_eq!(r.object_path, "/cache//dev/sdd");
    let r = dispatch_get_cache_object_path(&engine, &vec![ArgValue::Uint16(9)]);
    assert_eq!(r.code, 2);
}

#[test]
fn get_volume_object_path_always_not_found() {
    let mut engine = SimEngine::new();
    dispatch_create_pool(&mut engine, &create_args("pool1", &["/dev/sdb"], 0));
    let args = vec![
        ArgValue::Str("pool1".to_string()),
        ArgValue::Str("vol0".to_string()),
    ];
    let r = dispatch_get_volume_object_path(&engine, &args);
    assert_eq!(r.code, 4);
    let r = dispatch_get_volume_object_path(&engine, &one_str("pool1"));
    assert_eq!(r.code, 1);
    let args = vec![ArgValue::Str("pool1".to_string()), ArgValue::Uint16(0)];
    let r = dispatch_get_volume_object_path(&engine, &args);
    assert_eq!(r.code, 2);
}

#[test]
fn get_dev_types_validates_argument() {
    let (code, message) = dispatch_get_dev_types(&one_str("pool1"));
    assert_eq!(code, 0);
    assert_eq!(message, "Ok");
    let (code, _) = dispatch_get_dev_types(&vec![]);
    assert_eq!(code, 1);
    let (code, _) = dispatch_get_dev_types(&vec![ArgValue::Uint16(3)]);
    assert_eq!(code, 2);
}
