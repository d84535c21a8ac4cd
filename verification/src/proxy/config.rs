use crate::stats::config::StatConfig;
use vstd::prelude::*;

verus! {

/// The settings of one proxy run. They do not change while the proxy lives.
#[derive(Copy, Clone, Debug)]
pub struct ProxyConfig {
    /// The number of loop iterations per second that the proxy aims at.
    pub run_tps: u64,
    pub stat_cfg: StatConfig,
    /// Whether messages that were queued while the link was down are sent
    /// once it is up again. Where they are not, they are discarded on
    /// reconnection.
    pub keep_msg_while_disconnected: bool,
    /// Whether the proxy opens a new connection when the link fails.
    pub auto_reconnect: bool,
}

} // verus!
