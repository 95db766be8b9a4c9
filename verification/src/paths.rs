//! Stable object paths for pools, volumes, devices, and cache devices.
//!
//! An object path is derived deterministically from the kind of the entity
//! and the name that identifies it, by prepending a prefix unique to the
//! kind.  Because the derivation is injective (see the lemmas below), a
//! path denotes the same entity for the whole process lifetime: it can
//! never be reassigned to a different entity, even after its referent is
//! destroyed.  A path resolves through the engine's lookup functions
//! exactly while its referent is registered and active.

use vstd::prelude::*;

verus! {

/// The object path of the pool with the given name.
pub open spec fn pool_path_spec(name: Seq<char>) -> Seq<char> {
    "/pools/"@ + name
}

/// The object path of the volume with the given name inside the pool
/// with the given name.
pub open spec fn volume_path_spec(pool: Seq<char>, volume: Seq<char>) -> Seq<char> {
    "/volumes/"@ + pool + "/"@ + volume
}

/// The object path of the block device with the given device path.
pub open spec fn device_path_spec(dev: Seq<char>) -> Seq<char> {
    "/devs/"@ + dev
}

/// The object path of the cache device with the given device path.
pub open spec fn cache_path_spec(dev: Seq<char>) -> Seq<char> {
    "/cache/"@ + dev
}

/// Builds the object path of the pool with the given name.
pub fn pool_object_path(name: &str) -> (r: String)
    ensures
        r@ == pool_path_spec(name@),
{
    let base: String = "/pools/".to_owned();
    base.concat(name)
}

/// Builds the object path of a volume of a pool.
pub fn volume_object_path(pool: &str, volume: &str) -> (r: String)
    ensures
        r@ == volume_path_spec(pool@, volume@),
{
    let base: String = "/volumes/".to_owned();
    let with_pool: String = base.concat(pool);
    let with_sep: String = with_pool.concat("/");
    proof {
        assert(with_sep@ == "/volumes/"@ + pool@ + "/"@);
    }
    with_sep.concat(volume)
}

/// Builds the object path of the block device with the given device path.
pub fn device_object_path(dev: &str) -> (r: String)
    ensures
        r@ == device_path_spec(dev@),
{
    let base: String = "/devs/".to_owned();
    base.concat(dev)
}

/// Builds the object path of the cache device with the given device path.
pub fn cache_object_path(dev: &str) -> (r: String)
    ensures
        r@ == cache_path_spec(dev@),
{
    let base: String = "/cache/".to_owned();
    base.concat(dev)
}

/// Law: pool object paths are injective in the pool name, so a pool path
/// can never denote two different pools over the process lifetime.
pub proof fn lemma_pool_path_injective(a: Seq<char>, b: Seq<char>)
    requires
        pool_path_spec(a) == pool_path_spec(b),
    ensures
        a == b,
{
    reveal_strlit("/pools/");
    let p = "/pools/"@;
    assert(a =~= (p + a).subrange(p.len() as int, (p + a).len() as int));
    assert(b =~= (p + b).subrange(p.len() as int, (p + b).len() as int));
}

/// Law: device object paths are injective in the device path.
pub proof fn lemma_device_path_injective(a: Seq<char>, b: Seq<char>)
    requires
        device_path_spec(a) == device_path_spec(b),
    ensures
        a == b,
{
    reveal_strlit("/devs/");
    let p = "/devs/"@;
    assert(a =~= (p + a).subrange(p.len() as int, (p + a).len() as int));
    assert(b =~= (p + b).subrange(p.len() as int, (p + b).len() as int));
}

/// Law: cache-device object paths are injective in the device path.
pub proof fn lemma_cache_path_injective(a: Seq<char>, b: Seq<char>)
    requires
        cache_path_spec(a) == cache_path_spec(b),
    ensures
        a == b,
{
    reveal_strlit("/cache/");
    let p = "/cache/"@;
    assert(a =~= (p + a).subrange(p.len() as int, (p + a).len() as int));
    assert(b =~= (p + b).subrange(p.len() as int, (p + b).len() as int));
}

/// Law: paths of different kinds never coincide: the character after the
/// leading slash identifies the namespace.
pub proof fn lemma_path_kinds_disjoint(a: Seq<char>, b: Seq<char>)
    ensures
        pool_path_spec(a) != device_path_spec(b),
        pool_path_spec(a) != cache_path_spec(b),
        device_path_spec(a) != cache_path_spec(b),
{
    reveal_strlit("/pools/");
    reveal_strlit("/devs/");
    reveal_strlit("/cache/");
    assert(pool_path_spec(a)[1] == 'p');
    assert(device_path_spec(b)[1] == 'd');
    assert(cache_path_spec(b)[1] == 'c');
    assert(device_path_spec(a)[1] == 'd');
    assert(cache_path_spec(b)[1] == 'c');
}

} // verus!
