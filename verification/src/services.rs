//! Service shells around the library.  Metric collection and model
//! discovery do outside work (system probes, directory scans) and live in
//! the unverified shell; their owners are declared here.

use vstd::prelude::*;

verus! {

/// Collects system metrics; the probing itself happens outside.
pub struct SystemMonitor {
}

impl SystemMonitor {
    pub fn new() -> SystemMonitor {
        SystemMonitor {  }
    }
}

/// Discovers and validates models on disk; the scanning itself happens
/// outside.
pub struct ModelManager {
}

impl ModelManager {
    pub fn new() -> ModelManager {
        ModelManager {  }
    }
}

} // verus!
