//! What an agent reports about its host besides CPU and temperature readings.
use vstd::prelude::*;

verus! {

/// Operating-system identification of a monitored host; each part is absent when the
/// host does not report it.
#[derive(Debug, Clone)]
pub struct SystemInformation {
    pub name: Option<String>,
    pub kernel_version: Option<String>,
    pub os_version: Option<String>,
    pub host_name: Option<String>,
}

/// Memory and swap of a monitored host, in bytes.
#[derive(Debug, Clone)]
pub struct MemoryInformation {
    pub total: u64,
    pub used: u64,
    pub total_swap: u64,
    pub used_swap: u64,
}

} // verus!
