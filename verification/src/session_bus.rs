//! The session-bus object model's naming and value conventions: the
//! well-known name, the fixed manager path, the per-pipeline object paths
//! indexed independently of pipeline ids, and the `-1 = unavailable`
//! convention for positions.

use vstd::prelude::*;

use crate::text::{chars_to_string, dec_str, push_str_chars, u64_to_dec_chars};

verus! {

/// The daemon's well-known name on the session bus.
pub const DBUS_SERVICE_NAME: &'static str = "org.gpop";

/// The fixed path of the manager object.
pub const MANAGER_OBJECT_PATH: &'static str = "/org/gpop/Manager";

/// The object path of the pipeline registered under bus index `index`
/// (an independent 32-bit index assigned at registration, not the
/// pipeline id).
pub fn pipeline_object_path(index: u32) -> (r: String)
    ensures
        r@ == "/org/gpop/Pipeline"@ + dec_str(index as int),
{
    let mut out: Vec<char> = Vec::new();
    push_str_chars(&mut out, "/org/gpop/Pipeline");
    let mut digits = u64_to_dec_chars(index as u64);
    out.append(&mut digits);
    chars_to_string(&out)
}

/// A position or duration as the bus reports it: the value itself, with
/// `-1` standing for "unavailable". Values beyond `i64` wrap as a cast
/// would.
pub fn position_to_bus(value: Option<u64>) -> (r: i64)
    ensures
        match value {
            None => r == -1,
            Some(p) => p <= i64::MAX ==> r == p,
        },
{
    match value {
        None => -1,
        Some(p) => #[verifier::truncate] (p as i64),
    }
}

} // verus!
