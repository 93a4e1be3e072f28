//! The command dispatcher: from client requests to packets on the wire.
//!
//! The driver takes requests off the command queue, has the session state
//! translate them and writes the packets; what follows each of these is
//! decided here.

use vstd::prelude::*;
use crate::error::Error;
use crate::packet::{Packet, Request};

verus! {

/// What the driver reports to the dispatcher.
#[derive(Clone, Debug, PartialEq, Eq)]
pub enum DispatchEvent {
    /// The next request off the command queue.
    Request(Request),
    /// The command queue has no senders left.
    QueueClosed,
    /// The packet that the session state made of the request handed to it.
    Translated(Packet),
    /// The session state could not translate the request handed to it.
    TranslationFailed(Error),
    /// The last packet is on the wire.
    Written,
    /// The write of the last packet failed.
    WriteFailed(Error),
}

/// What the dispatcher asks of the driver.
#[derive(Clone, Debug, PartialEq, Eq)]
pub enum DispatchAction {
    /// Have the session state translate this request into a packet.
    Translate(Request),
    /// Write this packet to the wire.
    Write(Packet),
    /// Take the next request off the command queue.
    Next,
    /// The dispatcher is done; nothing more is taken off the queue.
    Finish,
    /// The dispatcher is done because of this error; the packet is not
    /// written again, and nothing more is taken off the queue.
    Fail(Error),
}

/// The action that follows an event.
pub open spec fn action_for(event: DispatchEvent) -> DispatchAction {
    match event {
        DispatchEvent::Request(Request::Disconnect) => DispatchAction::Finish,
        DispatchEvent::Request(request) => DispatchAction::Translate(request),
        DispatchEvent::QueueClosed => DispatchAction::Finish,
        DispatchEvent::Translated(packet) => DispatchAction::Write(packet),
        DispatchEvent::TranslationFailed(e) => DispatchAction::Fail(e),
        DispatchEvent::Written => DispatchAction::Next,
        DispatchEvent::WriteFailed(e) => DispatchAction::Fail(e),
    }
}

/// Decides what follows an event.
pub fn dispatch(event: DispatchEvent) -> (action: DispatchAction)
    ensures
        action == action_for(event),
{
    match event {
        DispatchEvent::Request(request) => match request {
            Request::Disconnect => DispatchAction::Finish,
            other => DispatchAction::Translate(other),
        },
        DispatchEvent::QueueClosed => DispatchAction::Finish,
        DispatchEvent::Translated(packet) => DispatchAction::Write(packet),
        DispatchEvent::TranslationFailed(e) => DispatchAction::Fail(e),
        DispatchEvent::Written => DispatchAction::Next,
        DispatchEvent::WriteFailed(e) => DispatchAction::Fail(e),
    }
}

/// Whether an action ends the dispatcher.
pub open spec fn ends_dispatcher(action: DispatchAction) -> bool {
    action is Finish || action is Fail
}

/// A request is taken off the command queue only after a write went well:
/// a failure of the translation or of the write ends the dispatcher with
/// the rest of the queue untouched, and a disconnect ends it with nothing
/// more written.
pub proof fn law_queue_is_left_alone_on_exit(event: DispatchEvent)
    ensures
        action_for(event) is Next <==> event is Written,
        event == DispatchEvent::Request(Request::Disconnect) ==> action_for(event) is Finish,
        event is TranslationFailed || event is WriteFailed ==> ends_dispatcher(action_for(event)),
        action_for(event) is Write <==> event is Translated,
{
}

} // verus!
