//! Core of a dashboard for an embedded controller.
//!
//! The heart of the crate is the serial transport: `frame` lays out and
//! parses the three header layers, `reassembly` joins the payload fragments
//! of a response, `session` sequences one request/response exchange over a
//! duplex byte channel without doing any I/O itself, `channel` states what
//! such an exchange achieves, and `command` pairs every domain operation
//! with the response variant it calls for. Around it stand the data and the
//! small decisions of the views (`battery`, `rtc`, `debug`, `samples`,
//! `ucsi`) and the simulated readings (`mock`). Byte layouts, size limits and state
//! transitions are stated as contracts and proved.

pub mod battery;
pub mod channel;
pub mod command;
pub mod debug;
pub mod error;
pub mod frame;
pub mod mock;
pub mod reassembly;
pub mod rtc;
pub mod samples;
pub mod session;
pub mod ucsi;

use vstd::prelude::*;

verus! {

/// Fan temperature threshold selector.
#[derive(Clone, Copy, Debug, PartialEq, Eq, Structural)]
pub enum Threshold {
    /// On threshold temperature
    On,
    /// Ramping threshold temperature
    Ramping,
    /// Max threshold temperature
    Max,
}

} // verus!
