//! Application-facing configuration for the disc-based console add-on.

use vstd::prelude::*;

verus! {

/// The default value used where a configuration file leaves a flag out
/// that is on by default.
pub fn true_fn() -> (r: bool)
    ensures
        r,
{
    true
}

/// Settings for the disc add-on: firmware image location, the removable
/// RAM cartridge, and whether disc images are read into memory up front.
#[derive(Debug, Clone, PartialEq, Eq)]
pub struct SegaCdAppConfig {
    pub bios_path: Option<String>,
    pub enable_ram_cartridge: bool,
    pub load_disc_into_ram: bool,
}

impl Default for SegaCdAppConfig {
    /// An empty configuration: no firmware path, RAM cartridge enabled,
    /// discs streamed from storage.
    fn default() -> (r: Self)
        ensures
            r.bios_path is None,
            r.enable_ram_cartridge,
            !r.load_disc_into_ram,
    {
        SegaCdAppConfig {
            bios_path: None,
            enable_ram_cartridge: true_fn(),
            load_disc_into_ram: false,
        }
    }
}

} // verus!
