//! The core of a network mouse: it captures relative pointer motion on a
//! compositor session and turns it into fixed-size datagrams for a peer.
//!
//! `session` holds the event-driven state machine, `capability` the table
//! of bound compositor globals, `capture` the pointer lock and its channel,
//! and `frame` the wire encoding of one motion sample.
pub mod capability;
pub mod capture;
pub mod frame;
pub mod session;
