//! Connectivity and peripheral-management control plane for a
//! filament-management appliance: singleton state containers for the scale,
//! NFC and WiFi subsystems, the WiFi connection lifecycle with credential
//! persistence, and the vendor discovery-response parser.
//!
//! Hardware drivers, radio operations and sockets live outside this crate;
//! every function here is a pure decision or state transition over plain
//! values, so the embedding application performs the blocking work and feeds
//! the outcomes back in.

pub mod discovery;
pub mod nfc;
pub mod scale;
pub mod singleton;
pub mod text;
pub mod wifi;

use vstd::prelude::*;

verus! {

/// The debounce interval of the NFC poll loop: real hardware work happens
/// only on every tenth poll call.
pub const NFC_POLL_INTERVAL: u32 = 10;

} // verus!
