//! Options a module may ask the host to apply to the current process.

use vstd::prelude::*;

verus! {

/// An option a module can request through the host's `set_option` capability.
pub enum ModuleOption {
    /// Ask the host to unmount its mount-namespace changes for denylisted
    /// processes even when the process is not on the denylist.
    ForceDenylistUnmount,
    /// Ask the host to `dlclose` the module's library after the last callback.
    DlcloseModuleLibrary,
}

impl ModuleOption {
    /// The numeric value that stands for this option on the host's side.
    pub open spec fn spec_raw(&self) -> i32 {
        match self {
            ModuleOption::ForceDenylistUnmount => 0,
            ModuleOption::DlcloseModuleLibrary => 1,
        }
    }

    /// The raw value handed to the host's `set_option` capability.
    pub fn raw_value(&self) -> (r: i32)
        ensures
            r == self.spec_raw(),
    {
        match self {
            ModuleOption::ForceDenylistUnmount => 0,
            ModuleOption::DlcloseModuleLibrary => 1,
        }
    }
}

} // verus!
