//! Pluggable latency probe interface and the TCP-handshake probe's description.

use vstd::prelude::*;

verus! {

/// A pluggable strategy for measuring network latency.
///
/// `measure` is called periodically; the result (ms) is forwarded to the UI
/// as a ping event. `None` means the measurement failed.
pub trait LatencyProbe {
    /// Perform a single latency measurement, in milliseconds.
    fn measure(&self) -> Option<u32>;

    /// Short human-readable label describing the method.
    fn label(&self) -> &str;
}

/// Measures latency by timing a TCP handshake to `host` (such as "discord.com:443").
pub struct TcpPing {
    pub host: String,
}

impl TcpPing {
    /// A probe targeting `host`.
    pub fn new(host: &str) -> (r: Self)
        ensures
            r.host@ == host@,
    {
        TcpPing { host: host.to_owned() }
    }

    /// The probe's label.
    pub fn label(&self) -> (r: &'static str)
        ensures
            r@ == "TCP ping"@,
    {
        let r = "TCP ping";
        proof { reveal_strlit("TCP ping"); }
        r
    }
}

} // verus!
