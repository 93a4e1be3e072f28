//! The connection-management core of an MQTT client.
//!
//! The core is a set of pure state machines. A driver owns the socket, the
//! timers, the command queue and the session state; it feeds events to the
//! machines here and performs the actions that they hand back.

pub mod options;
pub mod packet;
pub mod error;
pub mod connection;
pub mod receiver;
pub mod dispatcher;
pub mod ping;
pub mod notifier;
