//! The request dispatcher: maps typed remote-procedure arguments onto
//! engine operations.
//!
//! Every handler first validates argument count and type; a request that
//! fails validation is answered with `MISSING_ARGUMENT` or
//! `ARGUMENT_TYPE_MISMATCH` and never reaches the engine.  Every outcome,
//! success or domain failure, is reported as a uniform reply: a payload,
//! a numeric code from the error catalog, and that code's description.

use vstd::prelude::*;

use crate::catalog::{
    CODE_OK, CODE_MISSING_ARGUMENT, CODE_ARGUMENT_TYPE_MISMATCH, CODE_NAME_CONFLICT,
    CODE_NOT_FOUND, CODE_INVALID_DEVICE, CODE_DEVICE_ALREADY_OWNED, CODE_UNSUPPORTED_RAID_LEVEL,
    error_table,
};
use crate::engine::{SimEngine, registered, owned_block, owned_cache, invalid_dev_list, new_pool_model};
use crate::errors::EngineError;
use crate::paths::{pool_path_spec, device_path_spec, cache_path_spec};

verus! {

/// One inbound argument of a request, already decoded by the transport.
pub enum ArgValue {
    Str(String),
    StrList(Vec<String>),
    Uint16(u16),
}

/// The string carried by a `Str` argument.
pub open spec fn arg_str(a: ArgValue) -> Seq<char> {
    match a {
        ArgValue::Str(s) => s@,
        _ => Seq::empty(),
    }
}

/// The string list carried by a `StrList` argument.
pub open spec fn arg_list(a: ArgValue) -> Seq<Seq<char>> {
    match a {
        ArgValue::StrList(v) => v.deep_view(),
        _ => Seq::empty(),
    }
}

/// The number carried by a `Uint16` argument.
pub open spec fn arg_u16(a: ArgValue) -> u16 {
    match a {
        ArgValue::Uint16(n) => n,
        _ => 0,
    }
}

/// A uniform reply: payload, numeric code, and the code's description.
pub struct Reply {
    pub object_path: String,
    pub code: u16,
    pub message: String,
}

impl Reply {
    /// A reply is coherent when its code is a catalog code and its
    /// message is that code's description.
    pub open spec fn coherent(self) -> bool {
        &&& self.code < error_table().len()
        &&& error_table()[self.code as int].1 == self.code
        &&& self.message@ == error_table()[self.code as int].2
    }
}

/// The catalog code reporting an engine error.
pub open spec fn engine_error_code(e: EngineError) -> u16 {
    match e {
        EngineError::NameConflict => CODE_NAME_CONFLICT,
        EngineError::NotFound => CODE_NOT_FOUND,
        EngineError::InvalidDevice => CODE_INVALID_DEVICE,
        EngineError::DeviceAlreadyOwned => CODE_DEVICE_ALREADY_OWNED,
        EngineError::UnsupportedRaidLevel => CODE_UNSUPPORTED_RAID_LEVEL,
    }
}

/// Builds the reply that reports an argument missing from the request.
fn missing_argument_reply() -> (r: Reply)
    ensures
        r.code == CODE_MISSING_ARGUMENT,
        r.object_path@ == Seq::<char>::empty(),
        r.coherent(),
{
    Reply {
        object_path: String::new(),
        code: CODE_MISSING_ARGUMENT,
        message: "A required argument was missing".to_owned(),
    }
}

/// Builds the reply that reports a mistyped argument.
fn type_mismatch_reply() -> (r: Reply)
    ensures
        r.code == CODE_ARGUMENT_TYPE_MISMATCH,
        r.object_path@ == Seq::<char>::empty(),
        r.coherent(),
{
    Reply {
        object_path: String::new(),
        code: CODE_ARGUMENT_TYPE_MISMATCH,
        message: "An argument had the wrong type".to_owned(),
    }
}

/// Builds the reply that reports success, with the given payload.
fn ok_reply(object_path: String) -> (r: Reply)
    ensures
        r.code == CODE_OK,
        r.object_path == object_path,
        r.coherent(),
{
    Reply { object_path, code: CODE_OK, message: "Ok".to_owned() }
}

/// Builds the reply that reports a domain failure from the engine.
fn engine_error_reply(e: EngineError) -> (r: Reply)
    ensures
        r.code == engine_error_code(e),
        r.object_path@ == Seq::<char>::empty(),
        r.coherent(),
{
    let (code, message): (u16, String) = match e {
        EngineError::NameConflict => (
            CODE_NAME_CONFLICT,
            "A pool with this name is already registered".to_owned(),
        ),
        EngineError::NotFound => (CODE_NOT_FOUND, "The named object is not registered".to_owned()),
        EngineError::InvalidDevice => (
            CODE_INVALID_DEVICE,
            "A device path is unusable or already owned".to_owned(),
        ),
        EngineError::DeviceAlreadyOwned => (
            CODE_DEVICE_ALREADY_OWNED,
            "The device path is already owned by a pool".to_owned(),
        ),
        EngineError::UnsupportedRaidLevel => (
            CODE_UNSUPPORTED_RAID_LEVEL,
            "The RAID level is not in the RAID catalog".to_owned(),
        ),
    };
    Reply { object_path: String::new(), code, message }
}

/// Serves a pool listing: the registered pools as (name, object path)
/// pairs in creation order, with the success code.  Read-only.
pub fn dispatch_list_pools(engine: &SimEngine) -> (r: (Vec<(String, String)>, u16))
    ensures
        r.1 == CODE_OK,
        r.0@.len() == engine.model().len(),
        forall|i: int|
            0 <= i < r.0@.len() ==> (#[trigger] r.0@[i]).0@ == engine.model()[i].name
                && r.0@[i].1@ == pool_path_spec(engine.model()[i].name),
{
    (engine.list_pools(), CODE_OK)
}

/// Whether the arguments of a pool-creation request are well typed:
/// a name, a device list, and a RAID level.
pub open spec fn create_args_typed(args: Seq<ArgValue>) -> bool {
    args[0] is Str && args[1] is StrList && args[2] is Uint16
}

/// Serves a pool-creation request: arguments (pool name, device list,
/// RAID level).  An empty name or an empty device list denotes a missing
/// value.  On success the payload is the new pool's object path; on any
/// failure the registry is unchanged.
pub fn dispatch_create_pool(engine: &mut SimEngine, args: &Vec<ArgValue>) -> (r: Reply)
    requires
        old(engine).wf(),
    ensures
        final(engine).wf(),
        r.coherent(),
        args@.len() < 3 ==> r.code == CODE_MISSING_ARGUMENT && final(engine).model() == old(engine).model(),
        args@.len() >= 3 && !create_args_typed(args@) ==> r.code == CODE_ARGUMENT_TYPE_MISMATCH
            && final(engine).model() == old(engine).model(),
        args@.len() >= 3 && create_args_typed(args@) && (arg_str(args@[0]).len() == 0 || arg_list(
            args@[1],
        ).len() == 0) ==> r.code == CODE_MISSING_ARGUMENT && final(engine).model() == old(engine).model(),
        args@.len() >= 3 && create_args_typed(args@) && arg_str(args@[0]).len() > 0 && arg_list(
            args@[1],
        ).len() > 0 ==> {
            let name = arg_str(args@[0]);
            let devs = arg_list(args@[1]);
            let raid_level = arg_u16(args@[2]);
            &&& registered(old(engine).model(), name) ==> r.code == CODE_NAME_CONFLICT && final(engine).model() == old(engine).model()
            &&& !registered(old(engine).model(), name) && !crate::catalog::raid_supported(
                raid_level,
            ) ==> r.code == CODE_UNSUPPORTED_RAID_LEVEL && final(engine).model() == old(engine).model()
            &&& !registered(old(engine).model(), name) && crate::catalog::raid_supported(
                raid_level,
            ) && invalid_dev_list(old(engine).model(), devs) ==> r.code == CODE_INVALID_DEVICE
                && final(engine).model() == old(engine).model()
            &&& !registered(old(engine).model(), name) && crate::catalog::raid_supported(
                raid_level,
            ) && !invalid_dev_list(old(engine).model(), devs) ==> r.code == CODE_OK
                && r.object_path@ == pool_path_spec(name) && final(engine).model() == old(engine).model().push(new_pool_model(name, devs, raid_level))
        },
{
    if args.len() < 3 {
        return missing_argument_reply();
    }
    let name: &str = match &args[0] {
        ArgValue::Str(s) => s.as_str(),
        _ => {
            return type_mismatch_reply();
        },
    };
    let devs: &Vec<String> = match &args[1] {
        ArgValue::StrList(v) => v,
        _ => {
            return type_mismatch_reply();
        },
    };
    let raid_level: u16 = match &args[2] {
        ArgValue::Uint16(n) => *n,
        _ => {
            return type_mismatch_reply();
        },
    };
    if name.is_empty() || devs.len() == 0 {
        return missing_argument_reply();
    }
    match engine.create_pool(name, devs, raid_level) {
        Ok(path) => ok_reply(path),
        Err(e) => engine_error_reply(e),
    }
}

/// Serves a pool-destruction request: argument (pool name).  On success
/// the payload is the destroyed pool's now-invalid object path.
pub fn dispatch_destroy_pool(engine: &mut SimEngine, args: &Vec<ArgValue>) -> (r: Reply)
    requires
        old(engine).wf(),
    ensures
        final(engine).wf(),
        r.coherent(),
        args@.len() < 1 ==> r.code == CODE_MISSING_ARGUMENT && final(engine).model() == old(engine).model(),
        args@.len() >= 1 && !(args@[0] is Str) ==> r.code == CODE_ARGUMENT_TYPE_MISMATCH && final(engine).model() == old(engine).model(),
        args@.len() >= 1 && args@[0] is Str && !registered(old(engine).model(), arg_str(args@[0]))
            ==> r.code == CODE_NOT_FOUND && final(engine).model() == old(engine).model(),
        args@.len() >= 1 && args@[0] is Str && registered(old(engine).model(), arg_str(args@[0]))
            ==> r.code == CODE_OK && r.object_path@ == pool_path_spec(arg_str(args@[0]))
            && !registered(final(engine).model(), arg_str(args@[0])),
{
    if args.len() < 1 {
        return missing_argument_reply();
    }
    let name: &str = match &args[0] {
        ArgValue::Str(s) => s.as_str(),
        _ => {
            return type_mismatch_reply();
        },
    };
    match engine.destroy_pool(name) {
        Ok(()) => ok_reply(crate::paths::pool_object_path(name)),
        Err(e) => engine_error_reply(e),
    }
}

/// Serves a pool object-path lookup: argument (pool name).  Read-only.
pub fn dispatch_get_pool_object_path(engine: &SimEngine, args: &Vec<ArgValue>) -> (r: Reply)
    ensures
        r.coherent(),
        args@.len() < 1 ==> r.code == CODE_MISSING_ARGUMENT,
        args@.len() >= 1 && !(args@[0] is Str) ==> r.code == CODE_ARGUMENT_TYPE_MISMATCH,
        args@.len() >= 1 && args@[0] is Str && registered(engine.model(), arg_str(args@[0])) ==> r.code
            == CODE_OK && r.object_path@ == pool_path_spec(arg_str(args@[0])),
        args@.len() >= 1 && args@[0] is Str && !registered(engine.model(), arg_str(args@[0])) ==> r.code
            == CODE_NOT_FOUND,
{
    if args.len() < 1 {
        return missing_argument_reply();
    }
    let name: &str = match &args[0] {
        ArgValue::Str(s) => s.as_str(),
        _ => {
            return type_mismatch_reply();
        },
    };
    match engine.get_pool_path(name) {
        Ok(path) => ok_reply(path),
        Err(e) => engine_error_reply(e),
    }
}

/// Serves a volume object-path lookup: arguments (pool name, volume
/// name).  The engine tracks no volumes, so a well-typed request is
/// always answered `NOT_FOUND`.  Read-only.
pub fn dispatch_get_volume_object_path(engine: &SimEngine, args: &Vec<ArgValue>) -> (r: Reply)
    ensures
        r.coherent(),
        args@.len() < 2 ==> r.code == CODE_MISSING_ARGUMENT,
        args@.len() >= 2 && !(args@[0] is Str && args@[1] is Str) ==> r.code
            == CODE_ARGUMENT_TYPE_MISMATCH,
        args@.len() >= 2 && args@[0] is Str && args@[1] is Str ==> r.code == CODE_NOT_FOUND,
{
    if args.len() < 2 {
        return missing_argument_reply();
    }
    let pool_name: &str = match &args[0] {
        ArgValue::Str(s) => s.as_str(),
        _ => {
            return type_mismatch_reply();
        },
    };
    let volume_name: &str = match &args[1] {
        ArgValue::Str(s) => s.as_str(),
        _ => {
            return type_mismatch_reply();
        },
    };
    match engine.get_volume_path(pool_name, volume_name) {
        Ok(path) => ok_reply(path),
        Err(e) => engine_error_reply(e),
    }
}

/// Serves a block-device object-path lookup: argument (device path).
/// Read-only.
pub fn dispatch_get_dev_object_path(engine: &SimEngine, args: &Vec<ArgValue>) -> (r: Reply)
    ensures
        r.coherent(),
        args@.len() < 1 ==> r.code == CODE_MISSING_ARGUMENT,
        args@.len() >= 1 && !(args@[0] is Str) ==> r.code == CODE_ARGUMENT_TYPE_MISMATCH,
        args@.len() >= 1 && args@[0] is Str && owned_block(engine.model(), arg_str(args@[0])) ==> r.code
            == CODE_OK && r.object_path@ == device_path_spec(arg_str(args@[0])),
        args@.len() >= 1 && args@[0] is Str && !owned_block(engine.model(), arg_str(args@[0])) ==> r.code
            == CODE_NOT_FOUND,
{
    if args.len() < 1 {
        return missing_argument_reply();
    }
    let dev: &str = match &args[0] {
        ArgValue::Str(s) => s.as_str(),
        _ => {
            return type_mismatch_reply();
        },
    };
    match engine.get_device_path(dev) {
        Ok(path) => ok_reply(path),
        Err(e) => engine_error_reply(e),
    }
}

/// Serves a cache-device object-path lookup: argument (device path).
/// Read-only.
pub fn dispatch_get_cache_object_path(engine: &SimEngine, args: &Vec<ArgValue>) -> (r: Reply)
    ensures
        r.coherent(),
        args@.len() < 1 ==> r.code == CODE_MISSING_ARGUMENT,
        args@.len() >= 1 && !(args@[0] is Str) ==> r.code == CODE_ARGUMENT_TYPE_MISMATCH,
        args@.len() >= 1 && args@[0] is Str && owned_cache(engine.model(), arg_str(args@[0])) ==> r.code
            == CODE_OK && r.object_path@ == cache_path_spec(arg_str(args@[0])),
        args@.len() >= 1 && args@[0] is Str && !owned_cache(engine.model(), arg_str(args@[0])) ==> r.code
            == CODE_NOT_FOUND,
{
    if args.len() < 1 {
        return missing_argument_reply();
    }
    let dev: &str = match &args[0] {
        ArgValue::Str(s) => s.as_str(),
        _ => {
            return type_mismatch_reply();
        },
    };
    match engine.get_cache_device_path(dev) {
        Ok(path) => ok_reply(path),
        Err(e) => engine_error_reply(e),
    }
}

/// Serves a device-type query: argument (name).  The query carries no
/// payload; a well-typed request is acknowledged with the success code
/// and its description.
pub fn dispatch_get_dev_types(args: &Vec<ArgValue>) -> (r: (u16, String))
    ensures
        args@.len() < 1 ==> r.0 == CODE_MISSING_ARGUMENT,
        args@.len() >= 1 && !(args@[0] is Str) ==> r.0 == CODE_ARGUMENT_TYPE_MISMATCH,
        args@.len() >= 1 && args@[0] is Str ==> r.0 == CODE_OK,
        r.0 < error_table().len() && error_table()[r.0 as int].1 == r.0 && r.1@ == error_table()[
            r.0 as int
        ].2,
{
    if args.len() < 1 {
        let r = missing_argument_reply();
        return (r.code, r.message);
    }
    match &args[0] {
        ArgValue::Str(_) => (CODE_OK, "Ok".to_owned()),
        _ => {
            let r = type_mismatch_reply();
            (r.code, r.message)
        },
    }
}

} // verus!
