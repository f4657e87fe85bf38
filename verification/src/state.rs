//! The process-state bitfield the host reports for the current process.

use vstd::prelude::*;

verus! {

/// Bit set when the host has granted the current process root access.
pub const STATE_FLAG_PROCESS_GRANTED_ROOT: u32 = 1;

/// Bit set when the current process is on the host's denylist.
pub const STATE_FLAG_PROCESS_ON_DENYLIST: u32 = 2;

/// Process-state flags, as the raw bitfield the host returns.
pub struct StateFlags {
    value: u32,
}

impl StateFlags {
    /// The raw bitfield behind the flags.
    pub closed spec fn raw(&self) -> u32 {
        self.value
    }

    /// Whether the root-granted bit is set in the bitfield.
    pub open spec fn spec_granted_root(&self) -> bool {
        self.raw() & STATE_FLAG_PROCESS_GRANTED_ROOT != 0
    }

    /// Whether the denylist bit is set in the bitfield.
    pub open spec fn spec_on_denylist(&self) -> bool {
        self.raw() & STATE_FLAG_PROCESS_ON_DENYLIST != 0
    }

    /// Wraps a raw bitfield as returned by the host.
    pub fn from_raw(value: u32) -> (r: StateFlags)
        ensures
            r.raw() == value,
    {
        StateFlags { value }
    }

    pub fn is_process_granted_root(&self) -> (r: bool)
        ensures
            r == self.spec_granted_root(),
    {
        self.value & STATE_FLAG_PROCESS_GRANTED_ROOT != 0
    }

    pub fn is_process_on_denylist(&self) -> (r: bool)
        ensures
            r == self.spec_on_denylist(),
    {
        self.value & STATE_FLAG_PROCESS_ON_DENYLIST != 0
    }
}

impl Default for StateFlags {
    /// Flags with no bit set, reported when the host offers no state-flag
    /// capability.
    fn default() -> (r: StateFlags)
        ensures
            r.raw() == 0,
    {
        StateFlags { value: 0 }
    }
}

} // verus!
