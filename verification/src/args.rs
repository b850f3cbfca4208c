//! The benchmark's configuration, as plain values. Reading it from the
//! command line is the surrounding program's concern.

use vstd::prelude::*;
use crate::health::HealthGate;

verus! {

/// Everything the orchestrator is configured with: the target image and
/// its memory limit, the ports, the provisioning endpoint, and the two
/// readiness-probe durations in milliseconds.
pub struct Args {
    /// Image of the process under test.
    pub image: String,
    /// Its memory limit, e.g. `512M`; parsed by `parse_memory_limit`.
    pub memory: String,
    /// The port the target listens on.
    pub port: u32,
    /// Whether to publish the target's port on a drawn host port.
    pub expose_port: bool,
    /// The provisioning endpoint.
    pub docker: String,
    /// Cadence of the readiness probe, in milliseconds.
    pub startup_check_interval: u64,
    /// Overall deadline of the readiness wait, in milliseconds.
    pub startup_check_timeout: u64,
}

impl Args {
    /// The readiness wait this configuration asks for.
    pub fn health_gate(&self) -> (g: HealthGate)
        ensures
            g.poll_interval_millis == self.startup_check_interval,
            g.timeout_millis == self.startup_check_timeout,
    {
        HealthGate {
            poll_interval_millis: self.startup_check_interval,
            timeout_millis: self.startup_check_timeout,
        }
    }
}

} // verus!
