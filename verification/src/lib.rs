//! Control logic for a two-node gate automation system: a trigger node that
//! senses a button and the WiFi link, and an actuator node that estimates the
//! gate position and pulses its relays.

pub mod actuator;
pub mod config;
pub mod debounce;
pub mod dispatch;
pub mod indicator;
pub mod link;
pub mod position;
pub mod pulse;
pub mod server;
pub mod trigger;
