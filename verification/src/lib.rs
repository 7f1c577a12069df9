//! Hardware feature switches for LG Gram laptops, verified.
//!
//! The kernel exposes a handful of feature switches (battery charge
//! limit, function-key lock, USB charge while off, reader mode, fan
//! mode) as attribute files. This library holds the logic of the two
//! programs built around them: the privileged applier, which validates
//! one `setting=value` change against a fixed whitelist and carries it
//! out in an order that never leaves a companion service enabled for a
//! value that was not durably written; and the synchronization engine,
//! whose per-feature controllers keep a control in step with the store
//! through asynchronous, possibly failing applies, reverting on failure
//! while suppressing the one change notification the revert itself
//! produces.
//!
//! Everything here is plain computation on plain values. Reading the
//! attribute files, spawning the privileged helper and talking to the
//! service manager stay outside, in the thin binaries around this
//! library; they hand the raw contents and outcomes in and carry the
//! decided operations out.

use vstd::prelude::*;

pub mod applier;
pub mod kernel_features;
pub mod settings;
pub mod store;
pub mod sync;
pub mod sysinfo;
pub mod text;

verus! {

/// One hardware feature switch, identified by a stable key with a closed
/// set of legal values.
#[derive(Clone, Copy, PartialEq, Eq, Structural, Debug)]
pub enum Setting {
    BatteryCareLimit,
    FnLock,
    UsbCharge,
    ReaderMode,
    FanMode,
}

impl Setting {
    /// Position of this setting in a fixed enumeration of all settings.
    pub open spec fn spec_index(self) -> int {
        match self {
            Setting::BatteryCareLimit => 0,
            Setting::FnLock => 1,
            Setting::UsbCharge => 2,
            Setting::ReaderMode => 3,
            Setting::FanMode => 4,
        }
    }

    pub fn index(self) -> (i: usize)
        ensures
            i == self.spec_index(),
    {
        match self {
            Setting::BatteryCareLimit => 0,
            Setting::FnLock => 1,
            Setting::UsbCharge => 2,
            Setting::ReaderMode => 3,
            Setting::FanMode => 4,
        }
    }
}

} // verus!
