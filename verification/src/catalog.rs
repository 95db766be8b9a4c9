//! Static catalogs of error codes and RAID levels.
//!
//! Both catalogs are fixed, ordered tables of (symbolic name, numeric
//! code, description).  They are published to clients for discovery and
//! serve as the validation source for reply codes and RAID-level
//! arguments.  The tables are pure values: reading them has no side
//! effects, and repeated reads return identical sequences.

use vstd::prelude::*;

verus! {

/// The call succeeded.
pub const CODE_OK: u16 = 0;
/// A required argument was missing from the request.
pub const CODE_MISSING_ARGUMENT: u16 = 1;
/// An argument of the request had the wrong type.
pub const CODE_ARGUMENT_TYPE_MISMATCH: u16 = 2;
/// A pool with the requested name is already registered.
pub const CODE_NAME_CONFLICT: u16 = 3;
/// The named pool, volume, or device is not registered.
pub const CODE_NOT_FOUND: u16 = 4;
/// A device path is unusable: empty, repeated, or already owned.
pub const CODE_INVALID_DEVICE: u16 = 5;
/// The device path is already owned by a pool.
pub const CODE_DEVICE_ALREADY_OWNED: u16 = 6;
/// The requested RAID level is not in the RAID catalog.
pub const CODE_UNSUPPORTED_RAID_LEVEL: u16 = 7;
/// The pool has already been destroyed.
pub const CODE_ALREADY_DESTROYED: u16 = 8;
/// The transport failed to deliver a reply; never used in a reply itself.
pub const CODE_TRANSPORT_ERROR: u16 = 9;

/// One row of a catalog: symbolic name, numeric code, description.
#[derive(Clone, Debug)]
pub struct CatalogEntry {
    pub name: String,
    pub code: u16,
    pub description: String,
}

impl CatalogEntry {
    /// The mathematical value of an entry.
    pub open spec fn model(self) -> (Seq<char>, u16, Seq<char>) {
        (self.name@, self.code, self.description@)
    }
}

/// The error-code table, in declaration order.
pub open spec fn error_table() -> Seq<(Seq<char>, u16, Seq<char>)> {
    seq![
        ("OK"@, CODE_OK, "Ok"@),
        ("MISSING_ARGUMENT"@, CODE_MISSING_ARGUMENT, "A required argument was missing"@),
        ("ARGUMENT_TYPE_MISMATCH"@, CODE_ARGUMENT_TYPE_MISMATCH, "An argument had the wrong type"@),
        ("NAME_CONFLICT"@, CODE_NAME_CONFLICT, "A pool with this name is already registered"@),
        ("NOT_FOUND"@, CODE_NOT_FOUND, "The named object is not registered"@),
        ("INVALID_DEVICE"@, CODE_INVALID_DEVICE, "A device path is unusable or already owned"@),
        ("DEVICE_ALREADY_OWNED"@, CODE_DEVICE_ALREADY_OWNED, "The device path is already owned by a pool"@),
        ("UNSUPPORTED_RAID_LEVEL"@, CODE_UNSUPPORTED_RAID_LEVEL, "The RAID level is not in the RAID catalog"@),
        ("ALREADY_DESTROYED"@, CODE_ALREADY_DESTROYED, "The pool has already been destroyed"@),
        ("TRANSPORT_ERROR"@, CODE_TRANSPORT_ERROR, "The transport failed to deliver the reply"@),
    ]
}

/// The RAID-level table, in declaration order.
pub open spec fn raid_table() -> Seq<(Seq<char>, u16, Seq<char>)> {
    seq![
        ("SINGLE"@, 0u16, "No redundancy"@),
        ("RAID1"@, 1u16, "Mirrored devices"@),
        ("RAID5"@, 2u16, "Striping with single parity"@),
        ("RAID6"@, 3u16, "Striping with double parity"@),
    ]
}

/// Whether a catalog of entries denotes the given table.
pub open spec fn matches_table(entries: Seq<CatalogEntry>, table: Seq<(Seq<char>, u16, Seq<char>)>) -> bool {
    &&& entries.len() == table.len()
    &&& forall|i: int| 0 <= i < table.len() ==> #[trigger] entries[i].model() == table[i]
}

/// Returns the full error-code catalog, in declaration order.
pub fn error_codes() -> (r: Vec<CatalogEntry>)
    ensures
        matches_table(r@, error_table()),
{
    let mut v: Vec<CatalogEntry> = Vec::new();
    v.push(CatalogEntry { name: "OK".to_owned(), code: CODE_OK, description: "Ok".to_owned() });
    v.push(CatalogEntry { name: "MISSING_ARGUMENT".to_owned(), code: CODE_MISSING_ARGUMENT, description: "A required argument was missing".to_owned() });
    v.push(CatalogEntry { name: "ARGUMENT_TYPE_MISMATCH".to_owned(), code: CODE_ARGUMENT_TYPE_MISMATCH, description: "An argument had the wrong type".to_owned() });
    v.push(CatalogEntry { name: "NAME_CONFLICT".to_owned(), code: CODE_NAME_CONFLICT, description: "A pool with this name is already registered".to_owned() });
    v.push(CatalogEntry { name: "NOT_FOUND".to_owned(), code: CODE_NOT_FOUND, description: "The named object is not registered".to_owned() });
    v.push(CatalogEntry { name: "INVALID_DEVICE".to_owned(), code: CODE_INVALID_DEVICE, description: "A device path is unusable or already owned".to_owned() });
    v.push(CatalogEntry { name: "DEVICE_ALREADY_OWNED".to_owned(), code: CODE_DEVICE_ALREADY_OWNED, description: "The device path is already owned by a pool".to_owned() });
    v.push(CatalogEntry { name: "UNSUPPORTED_RAID_LEVEL".to_owned(), code: CODE_UNSUPPORTED_RAID_LEVEL, description: "The RAID level is not in the RAID catalog".to_owned() });
    v.push(CatalogEntry { name: "ALREADY_DESTROYED".to_owned(), code: CODE_ALREADY_DESTROYED, description: "The pool has already been destroyed".to_owned() });
    v.push(CatalogEntry { name: "TRANSPORT_ERROR".to_owned(), code: CODE_TRANSPORT_ERROR, description: "The transport failed to deliver the reply".to_owned() });
    v
}

/// Returns the full RAID-level catalog, in declaration order.
pub fn raid_levels() -> (r: Vec<CatalogEntry>)
    ensures
        matches_table(r@, raid_table()),
{
    let mut v: Vec<CatalogEntry> = Vec::new();
    v.push(CatalogEntry { name: "SINGLE".to_owned(), code: 0, description: "No redundancy".to_owned() });
    v.push(CatalogEntry { name: "RAID1".to_owned(), code: 1, description: "Mirrored devices".to_owned() });
    v.push(CatalogEntry { name: "RAID5".to_owned(), code: 2, description: "Striping with single parity".to_owned() });
    v.push(CatalogEntry { name: "RAID6".to_owned(), code: 3, description: "Striping with double parity".to_owned() });
    v
}

/// Whether a RAID level is a code of the RAID catalog.
pub open spec fn raid_supported(level: u16) -> bool {
    exists|i: int| 0 <= i < raid_table().len() && (#[trigger] raid_table()[i]).1 == level
}

/// Tests whether a RAID level is a code of the RAID catalog.
pub fn is_raid_supported(level: u16) -> (r: bool)
    ensures
        r == raid_supported(level),
{
    proof {
        if level < 4 {
            assert(raid_table()[level as int].1 == level);
        }
    }
    level < 4
}

/// Law: the catalogs are idempotent.  Any two results that meet the
/// contracts of `error_codes` and `raid_levels` denote the same table,
/// entry for entry, so repeated calls return identical ordered sequences.
pub proof fn lemma_catalogs_idempotent(a: Seq<CatalogEntry>, b: Seq<CatalogEntry>, table: Seq<(Seq<char>, u16, Seq<char>)>)
    requires
        matches_table(a, table),
        matches_table(b, table),
    ensures
        a.len() == b.len(),
        forall|i: int| 0 <= i < a.len() ==> #[trigger] a[i].model() == b[i].model(),
{
}

} // verus!
