//! Plain-value core of a zygote-injection module binding.
//!
//! The host process loads the module as a plugin and hands it a table of
//! optional capability pointers. Everything that can be stated over plain
//! values lives here: the state-flag bitfield the host reports, the module
//! options a module may request, the versioned shape of the capability
//! table, and the decisions each capability wrapper makes about the raw
//! values the host returns.

mod host;
mod options;
mod state;
mod version;

pub use host::flags_from_host;
pub use host::hook_outcome;
pub use host::registration_accepted;
pub use host::returned_fd;
pub use options::ModuleOption;
pub use state::StateFlags;
pub use state::STATE_FLAG_PROCESS_GRANTED_ROOT;
pub use state::STATE_FLAG_PROCESS_ON_DENYLIST;
pub use version::ApiVersion;
