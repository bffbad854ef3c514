//! The processing latency a plugin reports to its host.

use vstd::prelude::*;

verus! {

/// The plugin side of the latency extension.
pub trait PluginLatencyImpl {
    /// The plugin's latency, in samples.
    fn get(&mut self) -> u32;
}

/// The host side of the latency extension.
pub trait HostLatencyImpl {
    /// Called by the plugin when its latency changed.
    fn changed(&mut self);
}

/// What a host makes of a plugin's answer to its latency: the answer itself, or zero where the
/// plugin does not implement the call.
pub fn latency_reply(answer: Option<u32>) -> (latency: u32)
    ensures
        latency == (match answer {
            Some(n) => n,
            None => 0u32,
        }),
{
    match answer {
        Some(n) => n,
        None => 0u32,
    }
}

} // verus!
