//! Supervision and lifecycle core of an MQTT-to-Platform relay.
//!
//! The modules hold the decisions of the relay as verified functions over
//! plain values: the backoff policy, the broker-session state machine, the
//! supervisor's table of sessions, the downlink routing, the forward limiter
//! and the shaping and reading of Platform HTTP exchanges. Sockets, timers
//! and tasks are driven by the program around this library.

pub mod backoff;
pub mod session;
pub mod schema;
pub mod text;
pub mod platform;
pub mod supervisor;
pub mod downlink;
pub mod limiter;
pub mod broker;

