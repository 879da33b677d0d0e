//! Presence monitor for a class of USB security tokens.
//!
//! The library holds the logic of a tray-based device monitor: picking the
//! matching device out of an enumeration and formatting its description,
//! encoding and parsing the persisted notifications flag, generating the
//! round indicator bitmap, and the event-dispatch state machine that decides
//! when a notification fires. The surrounding program does the actual HID
//! enumeration, file I/O and GUI work and hands plain values in and out.
use vstd::prelude::*;

pub mod config;
pub mod device;
pub mod icon;
pub mod monitor;

verus! {

/// Vendor identifier of the tokens the monitor looks for.
pub const YUBICO_VENDOR_ID: u16 = 0x1050;

} // verus!
