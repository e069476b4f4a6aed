//! Verified core of an MQTT subscriber: configuration rules, per-topic QoS
//! normalisation, connection option assembly, TLS material handling and the
//! connection lifecycle as a state machine.

pub mod config;
pub mod error;
pub mod lifecycle;
pub mod options;
pub mod pem;
pub mod poll_error;
pub mod qos;
pub mod session;
pub mod tls;
