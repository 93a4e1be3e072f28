//! The error taxonomy of the client.

use vstd::prelude::*;
use crate::packet::ConnectReturnCode;

verus! {

/// Everything that can go wrong in the client. Failures of the operating
/// system and of the TLS layer are carried as their message text.
#[derive(Clone, Debug, PartialEq, Eq)]
pub enum Error {
    MqttEncode,
    Tls(i32),
    Subscribe(i32),
    Publish(i32),
    AlreadyConnected,
    UnrecognizedPacket,
    ConnectionAbort,
    HandshakeFailed,
    Disconnected,
    Timeout,
    ConnectionRefused(ConnectReturnCode),
    Io(String),
    InvalidCert(String),
    SendError,
    Recv,
    Timer(String),
    NoStream,
    TopicName,
    TopicFilter,
    NoReconnectTry,
    MqttPacket,
    Ssl(String),
    EventLoop,
    Read,
}

} // verus!
