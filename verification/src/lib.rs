//! Driver layer for an integrated 2.4 GHz radio peripheral in Bluetooth
//! Low-Energy mode.
//!
//! The driver translates between the bit-exact on-air BLE framing (access
//! address, header, payload, hardware-computed CRC and whitening) and the
//! packet representation used by a link-layer state machine, while the
//! microsecond-scale Inter-Frame Space (`T_IFS`) is enforced by a hardware
//! timer register.
//!
//! The peripheral's memory-mapped register block is out of scope of this
//! crate; it is modeled by [`hw::RadioRegs`], a plain record of the register
//! values the driver programs, together with the peripheral's hardware state
//! machine transitions. Every register sequence the driver performs is stated
//! in its contract over that model.

use vstd::prelude::*;

pub mod hw;
pub mod link;
pub mod phy;
pub mod radio;
pub mod time;

verus! {

/// Minimum buffer size needed to hold any supported advertising or data
/// channel PDU: 2 header bytes (S0 and Length) followed by up to 37 payload
/// bytes. The CRC is appended and stripped by hardware and never stored in
/// RAM.
pub const MIN_PDU_BUF: usize = 2 + 37;

} // verus!
