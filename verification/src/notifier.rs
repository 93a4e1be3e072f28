//! The way to the application: a channel that is never waited for.

use vstd::prelude::*;
use crate::packet::{Packet, Publish};
use crate::receiver::{
    ack_effects, ack_verdict, after_publish, effects_of, forward_effects, receive, verdict_of,
    Effect, Inbound, Reaction,
};

verus! {

/// `crossbeam_channel::Sender`, the sending end of a channel. Nothing is
/// claimed of it: a value of it is only held and handed to `try_send`.
#[verifier::external_type_specification]
#[verifier::external_body]
#[verifier::reject_recursive_types(T)]
pub struct ExSender<T>(crossbeam_channel::Sender<T>);

/// `crossbeam_channel::Sender::try_send`, which returns at once: with `Ok`
/// when the channel took the message, with an error that holds the message
/// when the channel is full or has no receiver. Nothing is claimed of which
/// of these happens; the result says whether the message was taken.
#[verifier::external_body]
fn try_send(tx: &crossbeam_channel::Sender<Packet>, packet: Packet) -> (taken: bool) {
    tx.try_send(packet).is_ok()
}

/// The effects that are left for the driver when the notifications have
/// been taken out: the others, in their order.
pub open spec fn without_notifications(effects: Seq<Effect>) -> Seq<Effect> {
    effects.filter(|e: Effect| !(e is Notify))
}

/// How many of the effects are notifications.
pub open spec fn notifications_in(effects: Seq<Effect>) -> nat {
    effects.filter(|e: Effect| e is Notify).len()
}

/// What became of a batch of effects.
pub struct Delivery {
    /// The effects that are no notifications, for the driver to carry out.
    pub rest: Vec<Effect>,
    /// How many notifications the channel did not take.
    pub dropped: usize,
}

/// The sending end of the channel to the application.
pub struct Notifier {
    tx: crossbeam_channel::Sender<Packet>,
}

impl Notifier {
    /// The sending end that the notifications are offered to.
    pub closed spec fn channel(&self) -> crossbeam_channel::Sender<Packet> {
        self.tx
    }

    /// Wraps the sending end of the channel: the notifier offers its
    /// notifications to this channel and to no other.
    pub fn new(tx: crossbeam_channel::Sender<Packet>) -> (n: Notifier)
        ensures
            n.channel() == tx,
    {
        Notifier { tx }
    }

    /// Offers every notification among the effects to the application, in
    /// order and without waiting, and hands back the other effects. A
    /// notification that the channel does not take is dropped and counted;
    /// whatever the channel does, the other effects come back unchanged.
    pub fn deliver(&self, effects: Vec<Effect>) -> (delivery: Delivery)
        ensures
            delivery.rest@ == without_notifications(effects@),
            delivery.dropped <= notifications_in(effects@),
    {
        let ghost all = effects@;
        let mut todo = effects;
        let total = todo.len();
        let mut done: usize = 0;
        let mut rest: Vec<Effect> = Vec::new();
        let mut dropped: usize = 0;
        while done < total
            invariant
                all.len() == total,
                done <= total,
                todo@ == all.subrange(done as int, total as int),
                rest@ == without_notifications(all.subrange(0, done as int)),
                dropped <= notifications_in(all.subrange(0, done as int)),
                dropped <= done,
            decreases total - done,
        {
            let effect = todo.remove(0);
            proof {
                reveal(Seq::filter);
                assert(effect == all[done as int]);
                assert(all.subrange(0, done + 1).drop_last() =~= all.subrange(0, done as int));
                assert(all.subrange(0, done + 1).last() == all[done as int]);
                assert(todo@ =~= all.subrange(done + 1, total as int));
            }
            match effect {
                Effect::Notify(packet) => {
                    if !try_send(&self.tx, packet) {
                        dropped = dropped + 1;
                    }
                },
                other => {
                    rest.push(other);
                },
            }
            done = done + 1;
        }
        proof {
            assert(all.subrange(0, total as int) =~= all);
        }
        Delivery { rest, dropped }
    }

    /// Takes one input from the wire and offers its notifications at once.
    /// A channel that is full or gone changes nothing for the receiver: the
    /// other effects and the answer to whether it goes on are those of the
    /// input alone.
    pub fn receive(&self, input: Inbound) -> (reaction: Reaction)
        ensures
            reaction.effects@ == without_notifications(effects_of(input)),
            reaction.verdict == verdict_of(input),
    {
        let reaction = receive(input);
        let delivery = self.deliver(reaction.effects);
        Reaction { effects: delivery.rest, verdict: reaction.verdict }
    }

    /// Takes the session state's answer to an incoming publish and offers
    /// the publish to the application at once. Whatever the channel does,
    /// the acknowledgement is queued as the answer asks.
    pub fn after_publish(&self, forward: Option<Publish>, ack: Option<Packet>) -> (reaction:
        Reaction)
        ensures
            reaction.effects@ == ack_effects(ack),
            reaction.verdict == ack_verdict(ack),
    {
        let reaction = after_publish(forward, ack);
        proof {
            lemma_notifications_fall_out(forward, ack);
        }
        let delivery = self.deliver(reaction.effects);
        Reaction { effects: delivery.rest, verdict: reaction.verdict }
    }
}

/// Of the effects that follow an answer of the session state, only the
/// acknowledgement is left when the notification has been taken out.
pub proof fn lemma_notifications_fall_out(forward: Option<Publish>, ack: Option<Packet>)
    ensures
        without_notifications(forward_effects(forward) + ack_effects(ack)) == ack_effects(ack),
{
    let all = forward_effects(forward) + ack_effects(ack);
    reveal_with_fuel(Seq::filter, 3);
    if all.len() == 2 {
        assert(all.drop_last().drop_last() =~= Seq::<Effect>::empty());
        assert(without_notifications(all) =~= ack_effects(ack));
    } else if all.len() == 1 {
        assert(all.drop_last() =~= Seq::<Effect>::empty());
        assert(without_notifications(all) =~= ack_effects(ack));
    } else {
        assert(all =~= Seq::<Effect>::empty());
        assert(without_notifications(all) =~= ack_effects(ack));
    }
}

} // verus!
