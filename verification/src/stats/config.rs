use crate::time::Nanos;
use vstd::prelude::*;

verus! {

/// Whether throughput is tracked.
#[derive(Copy, Clone, Debug, PartialEq, Eq, Structural)]
pub struct BpsConfig {
    pub enabled: bool,
}

/// Whether round-trip time is tracked, and how long after the last pong a new
/// ping is due.
#[derive(Copy, Clone, Debug, PartialEq, Eq, Structural)]
pub struct RttConfig {
    pub enabled: bool,
    pub ping_request_delay: Nanos,
}

#[derive(Copy, Clone, Debug, PartialEq, Eq, Structural)]
pub struct StatConfig {
    pub bps: BpsConfig,
    pub rtt: RttConfig,
}

impl Default for BpsConfig {
    fn default() -> (cfg: Self)
        ensures
            cfg == (BpsConfig { enabled: false }),
    {
        Self { enabled: false }
    }
}

impl Default for RttConfig {
    /// Disabled, with one second between a pong and the next ping.
    fn default() -> (cfg: Self)
        ensures
            cfg == (RttConfig { enabled: false, ping_request_delay: 1_000_000_000 }),
    {
        Self { enabled: false, ping_request_delay: 1_000_000_000 }
    }
}

impl Default for StatConfig {
    fn default() -> (cfg: Self)
        ensures
            cfg == (StatConfig {
                bps: BpsConfig { enabled: false },
                rtt: RttConfig { enabled: false, ping_request_delay: 1_000_000_000 },
            }),
    {
        Self { bps: BpsConfig::default(), rtt: RttConfig::default() }
    }
}

} // verus!
