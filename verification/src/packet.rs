//! MQTT control packets and client requests, as plain values.

use vstd::prelude::*;

verus! {

/// Delivery guarantee of a publish.
#[derive(Clone, Copy, Debug, PartialEq, Eq, Structural)]
pub enum QoS {
    AtMostOnce,
    AtLeastOnce,
    ExactlyOnce,
}

/// The broker's answer to a CONNECT.
#[derive(Clone, Copy, Debug, PartialEq, Eq, Structural)]
pub enum ConnectReturnCode {
    Accepted,
    RefusedProtocolVersion,
    RefusedIdentifierRejected,
    ServerUnavailable,
    BadUsernamePassword,
    NotAuthorized,
}

/// The protocol that a CONNECT names, with its level.
#[derive(Clone, Copy, Debug, PartialEq, Eq, Structural)]
pub enum Protocol {
    MQIsdp(u8),
    MQTT(u8),
}

/// The message that the broker publishes when the client is lost.
#[derive(Clone, Debug, PartialEq, Eq)]
pub struct LastWill {
    pub topic: String,
    pub message: String,
    pub qos: QoS,
    pub retain: bool,
}

/// The client's opening packet.
#[derive(Clone, Debug, PartialEq, Eq)]
pub struct Connect {
    pub protocol: Protocol,
    pub keep_alive: u16,
    pub client_id: String,
    pub clean_session: bool,
    pub last_will: Option<LastWill>,
    pub username: Option<String>,
    pub password: Option<String>,
}

/// The broker's reply to a CONNECT.
#[derive(Clone, Copy, Debug, PartialEq, Eq, Structural)]
pub struct Connack {
    pub session_present: bool,
    pub code: ConnectReturnCode,
}

/// A message on a topic. `pid` is set where the delivery is acknowledged.
#[derive(Clone, Debug, PartialEq, Eq)]
pub struct Publish {
    pub dup: bool,
    pub qos: QoS,
    pub retain: bool,
    pub topic_name: String,
    pub pid: Option<u16>,
    pub payload: Vec<u8>,
}

/// A topic filter with the delivery guarantee asked for.
#[derive(Clone, Debug, PartialEq, Eq)]
pub struct SubscribeTopic {
    pub topic_path: String,
    pub qos: QoS,
}

/// A request to the broker for the messages of some topics.
#[derive(Clone, Debug, PartialEq, Eq)]
pub struct Subscribe {
    pub pid: u16,
    pub topics: Vec<SubscribeTopic>,
}

/// The broker's answer for one topic filter of a SUBSCRIBE.
#[derive(Clone, Copy, Debug, PartialEq, Eq, Structural)]
pub enum SubscribeReturnCode {
    Success(QoS),
    Failure,
}

/// The broker's reply to a SUBSCRIBE, one answer for each topic filter.
#[derive(Clone, Debug, PartialEq, Eq)]
pub struct Suback {
    pub pid: u16,
    pub return_codes: Vec<SubscribeReturnCode>,
}

/// A request to the broker to end some subscriptions.
#[derive(Clone, Debug, PartialEq, Eq)]
pub struct Unsubscribe {
    pub pid: u16,
    pub topics: Vec<String>,
}

/// One MQTT control packet.
#[derive(Clone, Debug, PartialEq, Eq)]
pub enum Packet {
    Connect(Connect),
    Connack(Connack),
    Publish(Publish),
    Puback(u16),
    Pubrec(u16),
    Pubrel(u16),
    Pubcomp(u16),
    Subscribe(Subscribe),
    Suback(Suback),
    Unsubscribe(Unsubscribe),
    Unsuback(u16),
    Pingreq,
    Pingresp,
    Disconnect,
}

/// What a client, the ping scheduler or the receiver puts on the command queue.
#[derive(Clone, Debug, PartialEq, Eq)]
pub enum Request {
    Publish(Publish),
    Subscribe(Vec<SubscribeTopic>),
    Unsubscribe(Vec<String>),
    Ping,
    Puback(u16),
    Disconnect,
}

impl Packet {
    /// The packets that may reach the application: received publishes,
    /// publish acknowledgements and subscription acknowledgements.
    pub open spec fn notifiable(self) -> bool {
        self is Publish || self is Puback || self is Suback
    }

    /// Tells whether the application may be shown this packet.
    pub fn is_notifiable(&self) -> (r: bool)
        ensures
            r == self.notifiable(),
    {
        match self {
            Packet::Publish(_) => true,
            Packet::Puback(_) => true,
            Packet::Suback(_) => true,
            _ => false,
        }
    }
}

} // verus!
