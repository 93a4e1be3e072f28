//! The network receiver: what each inbound packet leads to.
//!
//! The receiver reads nothing itself. The driver hands it what came off the
//! wire, carries out the effects in their order, and reads on for as long as
//! the receiver is not done.

use vstd::prelude::*;
use crate::error::Error;
use crate::packet::{Connack, Packet, Publish, Request};

verus! {

/// What came off the read half.
#[derive(Clone, Debug, PartialEq, Eq)]
pub enum Inbound {
    /// A whole packet.
    Packet(Packet),
    /// The read failed, or the bytes made no packet.
    Failed(Error),
    /// The stream ended.
    Closed,
}

/// One thing to do about an inbound packet.
#[derive(Clone, Debug, PartialEq, Eq)]
pub enum Effect {
    /// Tell the session state of a CONNACK. A refusal is logged at most.
    SessionConnack(Connack),
    /// Tell the session state to retire the publish with this id. Its answer
    /// is not looked at: an id that it does not know is no failure.
    SessionPuback(u16),
    /// Tell the session state that a ping came back.
    SessionPingresp,
    /// Ask the session state to process a publish, and report what it
    /// answers with [`after_publish`].
    SessionPublish(Publish),
    /// Offer the packet to the application, without waiting.
    Notify(Packet),
    /// Put the request on the command queue, waiting if it is full.
    Enqueue(Request),
}

/// Whether the receiver goes on.
#[derive(Clone, Debug, PartialEq, Eq)]
pub enum Verdict {
    /// Read the next packet.
    Continue,
    /// The receiver is done: the stream ended or the broker disconnected.
    Finished,
    /// The receiver is done because of this error.
    Failed(Error),
}

/// The receiver's answer to one input.
#[derive(Clone, Debug, PartialEq, Eq)]
pub struct Reaction {
    pub effects: Vec<Effect>,
    pub verdict: Verdict,
}

/// The effects that an input calls for, in the order in which they are due.
pub open spec fn effects_of(input: Inbound) -> Seq<Effect> {
    match input {
        Inbound::Packet(Packet::Connack(connack)) => seq![Effect::SessionConnack(connack)],
        Inbound::Packet(Packet::Puback(id)) => seq![
            Effect::Notify(Packet::Puback(id)),
            Effect::SessionPuback(id),
        ],
        Inbound::Packet(Packet::Pingresp) => seq![Effect::SessionPingresp],
        Inbound::Packet(Packet::Publish(publish)) => seq![Effect::SessionPublish(publish)],
        Inbound::Packet(Packet::Suback(suback)) => seq![Effect::Notify(Packet::Suback(suback))],
        Inbound::Packet(Packet::Disconnect) => seq![Effect::Enqueue(Request::Disconnect)],
        Inbound::Packet(_) => seq![],
        Inbound::Failed(_) => seq![Effect::Enqueue(Request::Disconnect)],
        Inbound::Closed => seq![],
    }
}

/// Whether the receiver goes on after an input.
pub open spec fn verdict_of(input: Inbound) -> Verdict {
    match input {
        Inbound::Packet(Packet::Connack(_)) => Verdict::Continue,
        Inbound::Packet(Packet::Puback(_)) => Verdict::Continue,
        Inbound::Packet(Packet::Pingresp) => Verdict::Continue,
        Inbound::Packet(Packet::Publish(_)) => Verdict::Continue,
        Inbound::Packet(Packet::Suback(_)) => Verdict::Continue,
        Inbound::Packet(Packet::Disconnect) => Verdict::Finished,
        Inbound::Packet(_) => Verdict::Failed(Error::UnrecognizedPacket),
        Inbound::Failed(e) => Verdict::Failed(e),
        Inbound::Closed => Verdict::Finished,
    }
}

/// Classifies one input from the wire.
pub fn receive(input: Inbound) -> (reaction: Reaction)
    ensures
        reaction.effects@ == effects_of(input),
        reaction.verdict == verdict_of(input),
{
    let mut effects: Vec<Effect> = Vec::new();
    let verdict = match input {
        Inbound::Packet(packet) => match packet {
            Packet::Connack(connack) => {
                effects.push(Effect::SessionConnack(connack));
                Verdict::Continue
            },
            Packet::Puback(id) => {
                effects.push(Effect::Notify(Packet::Puback(id)));
                effects.push(Effect::SessionPuback(id));
                Verdict::Continue
            },
            Packet::Pingresp => {
                effects.push(Effect::SessionPingresp);
                Verdict::Continue
            },
            Packet::Publish(publish) => {
                effects.push(Effect::SessionPublish(publish));
                Verdict::Continue
            },
            Packet::Suback(suback) => {
                effects.push(Effect::Notify(Packet::Suback(suback)));
                Verdict::Continue
            },
            Packet::Disconnect => {
                effects.push(Effect::Enqueue(Request::Disconnect));
                Verdict::Finished
            },
            _ => Verdict::Failed(Error::UnrecognizedPacket),
        },
        Inbound::Failed(e) => {
            effects.push(Effect::Enqueue(Request::Disconnect));
            Verdict::Failed(e)
        },
        Inbound::Closed => Verdict::Finished,
    };
    proof {
        assert(effects@ =~= effects_of(input));
    }
    Reaction { effects, verdict }
}

/// The notification that an answer of the session state calls for.
pub open spec fn forward_effects(forward: Option<Publish>) -> Seq<Effect> {
    match forward {
        Some(publish) => seq![Effect::Notify(Packet::Publish(publish))],
        None => seq![],
    }
}

/// The acknowledgement that an answer of the session state calls for. It
/// goes through the command queue, so that only the dispatcher writes.
pub open spec fn ack_effects(ack: Option<Packet>) -> Seq<Effect> {
    match ack {
        Some(Packet::Puback(id)) => seq![Effect::Enqueue(Request::Puback(id))],
        _ => seq![],
    }
}

/// Whether the receiver goes on after an answer of the session state: it
/// does unless the acknowledgement asked for is one that cannot be queued.
pub open spec fn ack_verdict(ack: Option<Packet>) -> Verdict {
    match ack {
        None => Verdict::Continue,
        Some(Packet::Puback(_)) => Verdict::Continue,
        Some(_) => Verdict::Failed(Error::UnrecognizedPacket),
    }
}

/// Takes what the session state answered to an incoming publish: the
/// publish to show to the application, if any, and the acknowledgement to
/// send back, if any. The notification comes before the acknowledgement.
pub fn after_publish(forward: Option<Publish>, ack: Option<Packet>) -> (reaction: Reaction)
    ensures
        reaction.effects@ == forward_effects(forward) + ack_effects(ack),
        reaction.verdict == ack_verdict(ack),
{
    let mut effects: Vec<Effect> = Vec::new();
    if let Some(publish) = forward {
        effects.push(Effect::Notify(Packet::Publish(publish)));
    }
    let verdict = match ack {
        None => Verdict::Continue,
        Some(Packet::Puback(id)) => {
            effects.push(Effect::Enqueue(Request::Puback(id)));
            Verdict::Continue
        },
        Some(_) => Verdict::Failed(Error::UnrecognizedPacket),
    };
    proof {
        assert(effects@ =~= forward_effects(forward) + ack_effects(ack));
    }
    Reaction { effects, verdict }
}

/// What becomes of a task that tried to put a request on the command
/// queue: it goes on when the queue took the request, and ends with a send
/// error when it did not.
pub open spec fn enqueue_outcome(queued: bool) -> Result<(), Error> {
    if queued {
        Ok(())
    } else {
        Err(Error::SendError)
    }
}

/// Tells a task how to go on after it tried to put a request on the
/// command queue. This holds for the receiver and for the ping scheduler.
pub fn after_enqueue(queued: bool) -> (outcome: Result<(), Error>)
    ensures
        outcome == enqueue_outcome(queued),
{
    if queued {
        Ok(())
    } else {
        Err(Error::SendError)
    }
}

/// The reply that a handshake is owed: a CONNACK.
pub open spec fn handshake_reply(first: Option<Packet>) -> Result<Connack, Error> {
    match first {
        Some(Packet::Connack(connack)) => Ok(connack),
        Some(_) => Err(Error::HandshakeFailed),
        None => Err(Error::ConnectionAbort),
    }
}

/// Checks the first packet that the broker sent after CONNECT. `None`
/// stands for a stream that ended before any packet.
pub fn check_handshake_reply(first: Option<Packet>) -> (reply: Result<Connack, Error>)
    ensures
        reply == handshake_reply(first),
{
    match first {
        Some(Packet::Connack(connack)) => Ok(connack),
        Some(_) => Err(Error::HandshakeFailed),
        None => Err(Error::ConnectionAbort),
    }
}

/// A PUBACK never ends the receiver, whatever its id, and whether or not
/// the session state knows a publish by that id: the answer of the session
/// state is no input of the receiver. The one notification is the PUBACK
/// that arrived.
pub proof fn law_puback_keeps_receiver_running(id: u16)
    ensures
        verdict_of(Inbound::Packet(Packet::Puback(id))) == Verdict::Continue,
        effects_of(Inbound::Packet(Packet::Puback(id))) == seq![
            Effect::Notify(Packet::Puback(id)),
            Effect::SessionPuback(id),
        ],
{
}

/// A PINGRESP is reported to the session state and to nobody else, and the
/// receiver goes on.
pub proof fn law_pingresp_reaches_session()
    ensures
        verdict_of(Inbound::Packet(Packet::Pingresp)) == Verdict::Continue,
        effects_of(Inbound::Packet(Packet::Pingresp)) == seq![Effect::SessionPingresp],
{
}

/// Whether every notification among the effects is one that the
/// application may be shown: a publish, a publish acknowledgement or a
/// subscription acknowledgement.
pub open spec fn notifies_allowed_only(effects: Seq<Effect>) -> bool {
    forall|i: int|
        0 <= i < effects.len() ==> (#[trigger] effects[i] matches Effect::Notify(p)
            ==> p.notifiable())
}

/// The application is shown publishes, publish acknowledgements and
/// subscription acknowledgements only.
pub proof fn law_notifications_are_notifiable(
    input: Inbound,
    forward: Option<Publish>,
    ack: Option<Packet>,
)
    ensures
        notifies_allowed_only(effects_of(input)),
        notifies_allowed_only(forward_effects(forward) + ack_effects(ack)),
{
}

/// A failed read always leaves a disconnect on the command queue, so that
/// the dispatcher of the same connection ends too.
pub proof fn law_read_failure_unwinds_dispatcher(e: Error)
    ensures
        effects_of(Inbound::Failed(e)) == seq![Effect::Enqueue(Request::Disconnect)],
        verdict_of(Inbound::Failed(e)) == Verdict::Failed(e),
{
}

} // verus!
