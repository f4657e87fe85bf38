//! Decisions about the raw values the host's capabilities return.
//!
//! Every capability in the host's table is an optional function pointer,
//! and every failure is reported in-band: a negative descriptor, an absent
//! pointer. The unverified shim only makes the raw call; what a raw result
//! means is decided by the functions here, over plain values.

use vstd::prelude::*;

use crate::state::StateFlags;

verus! {

/// Interprets a descriptor returned by a host capability: the host reports
/// failure as a negative value, so exactly the non-negative values are
/// handed on.
pub fn returned_fd(raw: i32) -> (r: Option<i32>)
    ensures
        raw >= 0 ==> r == Some(raw),
        raw < 0 ==> r is None,
{
    if raw >= 0 {
        Some(raw)
    } else {
        None
    }
}

/// Interprets the state-flag capability's answer: the raw bitfield when the
/// capability was present, and no flags set at all when it was absent.
pub fn flags_from_host(raw: Option<u32>) -> (r: StateFlags)
    ensures
        raw matches Some(v) ==> r.raw() == v,
        raw is None ==> r.raw() == 0,
{
    match raw {
        Some(v) => StateFlags::from_raw(v),
        None => StateFlags::default(),
    }
}

/// Interprets the answer of a capability that reports success as a boolean:
/// the host's answer when the capability was present, and failure when it
/// was absent.
pub fn hook_outcome(raw: Option<bool>) -> (r: bool)
    ensures
        raw matches Some(v) ==> r == v,
        raw is None ==> !r,
{
    match raw {
        Some(v) => v,
        None => false,
    }
}

/// Decides from the host's answer to the registration call whether the
/// module instance should be created: zero rejects the callback table, any
/// other answer accepts it.
pub fn registration_accepted(result: i32) -> (r: bool)
    ensures
        r == (result != 0),
{
    result != 0
}

} // verus!
