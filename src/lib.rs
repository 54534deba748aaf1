//! The protocol and coordination core of a driver for a robot arm's native
//! TCP interfaces: decoding of the real-time telemetry frame, the dashboard
//! line protocol, the handshake-wrapped program upload, and the single active
//! goal that the telemetry reader, the program uploader and the handshake
//! listener settle between them, each verdict delivered exactly once.
//!
//! The network loops themselves live outside this crate; they hand what they
//! read to these functions and carry out what they return.
use vstd::prelude::*;

pub mod dashboard;
pub mod program_watch;
pub mod script;
pub mod state;
pub mod telemetry;
pub mod text;

verus! {

} // verus!
