//! The negotiated revision of the host's capability table.
//!
//! The host and the module agree on one revision of the table when the
//! module is built. Which capabilities and which specialization arguments
//! exist depends on that revision alone, so the facts below are stated
//! once here and the unverified shim picks the table layout from them.

use vstd::prelude::*;

verus! {

/// A revision of the host's capability table that this binding understands.
pub enum ApiVersion {
    V2,
    V3,
    V4,
}

impl ApiVersion {
    /// The number the module reports to the host for this revision.
    pub open spec fn spec_number(&self) -> i64 {
        match self {
            ApiVersion::V2 => 2,
            ApiVersion::V3 => 3,
            ApiVersion::V4 => 4,
        }
    }

    /// The version number written into the module's callback table.
    pub fn number(&self) -> (r: i64)
        ensures
            r == self.spec_number(),
    {
        match self {
            ApiVersion::V2 => 2,
            ApiVersion::V3 => 3,
            ApiVersion::V4 => 4,
        }
    }

    /// Whether the table carries the hook-registration capability that is
    /// keyed by a library-path pattern and a symbol name.
    pub fn has_symbol_plt_hook(&self) -> (r: bool)
        ensures
            r == (self.spec_number() < 4),
    {
        match self {
            ApiVersion::V2 => true,
            ApiVersion::V3 => true,
            ApiVersion::V4 => false,
        }
    }

    /// Whether the table carries the hook-registration capability that is
    /// keyed by a device and inode number, which replaced the pattern-keyed
    /// one.
    pub fn has_inode_plt_hook(&self) -> (r: bool)
        ensures
            r == (self.spec_number() >= 4),
    {
        match self {
            ApiVersion::V2 => false,
            ApiVersion::V3 => false,
            ApiVersion::V4 => true,
        }
    }

    /// Whether the table carries the capability that exempts a file
    /// descriptor from the host's sanitization of the spawned process.
    pub fn has_fd_exemption(&self) -> (r: bool)
        ensures
            r == (self.spec_number() >= 4),
    {
        match self {
            ApiVersion::V2 => false,
            ApiVersion::V3 => false,
            ApiVersion::V4 => true,
        }
    }

    /// Whether the app-specialization arguments carry the resource-limit
    /// array and the list of descriptors the spawn should keep.
    pub fn has_extended_app_args(&self) -> (r: bool)
        ensures
            r == (self.spec_number() >= 3),
    {
        match self {
            ApiVersion::V2 => false,
            ApiVersion::V3 => true,
            ApiVersion::V4 => true,
        }
    }
}

} // verus!
