//! The ping scheduler: when a ping request goes onto the command queue.
//!
//! The timer belongs to the driver, which starts one for each connection
//! and discards it with the connection. On each tick it asks the session
//! state whether a ping is due and reports the answer here.

use vstd::prelude::*;
use crate::options::seconds;
use crate::packet::Request;

verus! {

/// The period of the ping timer in seconds: the keepalive, where one is
/// configured.
pub open spec fn period_of(keep_alive: Option<u16>) -> Option<u64> {
    match keep_alive {
        Some(k) => Some(k as u64),
        None => None,
    }
}

/// The period at which the timer fires, or `None` where no timer runs.
pub fn ping_period(keep_alive: Option<u16>) -> (period: Option<u64>)
    ensures
        period == period_of(keep_alive),
{
    match keep_alive {
        Some(k) => Some(seconds(k)),
        None => None,
    }
}

/// What a tick puts on the command queue.
pub open spec fn tick_request(ping_due: bool) -> Option<Request> {
    if ping_due {
        Some(Request::Ping)
    } else {
        None
    }
}

/// Takes one tick of the timer, with the session state's answer to whether
/// a ping is due. The scheduler writes nothing itself: a ping that is due
/// becomes one request for the dispatcher.
pub fn on_tick(ping_due: bool) -> (request: Option<Request>)
    ensures
        request == tick_request(ping_due),
{
    if ping_due {
        Some(Request::Ping)
    } else {
        None
    }
}

} // verus!
