//! Connection options.

use vstd::prelude::*;

verus! {

/// When a failed connect is tried again. The delays are in seconds.
#[derive(Clone, Copy, Debug, PartialEq, Eq, Structural)]
pub enum ReconnectOptions {
    /// A failed connect ends the loop.
    Never,
    /// A failed connect is retried only while no connect has succeeded yet.
    AfterFirstSuccess(u16),
    /// A failed connect is always retried.
    Always(u16),
}

/// What a connection is configured with; fixed for the client's lifetime.
#[derive(Clone, Debug, PartialEq, Eq)]
pub struct MqttOptions {
    pub broker_addr: String,
    /// Keepalive period in seconds; `None` switches the ping scheduler off.
    pub keep_alive: Option<u16>,
    pub reconnect: ReconnectOptions,
}

/// A configured number of seconds as the length of a sleep or of a timer's
/// period.
pub fn seconds(d: u16) -> (s: u64)
    ensures
        s == d,
{
    d as u64
}

} // verus!
