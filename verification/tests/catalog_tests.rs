use stratisd::catalog::{error_codes, is_raid_supported, raid_levels};
use stratisd::paths::{
    cache_object_path, device_object_path, pool_object_path, volume_object_path,
};
use stratisd::str_eq;

#[test]
fn error_code_table_values() {
    let table = error_codes();
    assert_eq!(table.len(), 10);
    for (i, entry) in table.iter().enumerate() {
        assert_eq!(entry.code as usize, i);
    }
    assert_eq!(table[0].name, "OK");
    assert_eq!(table[0].description, "Ok");
    assert_eq!(table[1].name, "MISSING_ARGUMENT");
    assert_eq!(table[2].name, "ARGUMENT_TYPE_MISMATCH");
    assert_eq!(table[3].name, "NAME_CONFLICT");
    assert_eq!(table[4].name, "NOT_FOUND");
    assert_eq!(table[5].name, "INVALID_DEVICE");
    assert_eq!(table[6].name, "DEVICE_ALREADY_OWNED");
    assert_eq!(table[7].name, "UNSUPPORTED_RAID_LEVEL");
    assert_eq!(table[8].name, "ALREADY_DESTROYED");
    assert_eq!(table[9].name, "TRANSPORT_ERROR");
}

#[test]
fn raid_level_table_values() {
    let table = raid_levels();
    assert_eq!(table.len(), 4);
    assert_eq!(table[0].name, "SINGLE");
    assert_eq!(table[0].code, 0);
    assert_eq!(table[0].description, "No redundancy");
    assert_eq!(table[1].name, "RAID1");
    assert_eq!(table[2].name, "RAID5");
    assert_eq!(table[3].name, "RAID6");
}

#[test]
fn catalogs_idempotent() {
    let a = error_codes();
    let b = error_codes();
    assert_eq!(a.len(), b.len());
    for (x, y) in a.iter().zip(b.iter()) {
        assert_eq!(x.name, y.name);
        assert_eq!(x.code, y.code);
        assert_eq!(x.description, y.description);
    }
    let c = raid_levels();
    let d = raid_levels();
    assert_eq!(c.len(), d.len());
    for (x, y) in c.iter().zip(d.iter()) {
        assert_eq!(x.name, y.name);
        assert_eq!(x.code, y.code);
        assert_eq!(x.description, y.description);
    }
}

#[test]
fn raid_support_follows_catalog() {
    assert!(is_raid_supported(0));
    assert!(is_raid_supported(1));
    assert!(is_raid_supported(2));
    assert!(is_raid_supported(3));
    assert!(!is_raid_supported(4));
    assert!(!is_raid_supported(99));
}

#[test]
fn object_paths_are_kind_prefixed() {
    assert_eq!(pool_object_path("pool1"), "/pools/pool1");
    assert_eq!(device_object_path("/dev/sdb"), "/devs//dev/sdb");
    assert_eq!(cache_object_path("/dev/sdd"), "/cache//dev/sdd");
    assert_eq!(volume_object_path("pool1", "vol0"), "/volumes/pool1/vol0");
}

#[test]
fn str_eq_compares_contents() {
    assert!(str_eq("pool1", "pool1"));
    assert!(!str_eq("pool1", "pool2"));
    assert!(str_eq("", ""));
}
