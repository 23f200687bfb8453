//! Link-layer interface types consumed and produced by the radio driver.
//!
//! The link-layer state machine itself is outside this crate; the driver only
//! consumes its reconfiguration commands ([`RadioCmd`]), relays the
//! instruction its packet-processing callbacks return ([`Cmd`]), and
//! reproduces the header layouts of the [`advertising`] and [`data`] channel
//! PDUs at the fixed buffer offsets the hardware framing engine expects.

use vstd::prelude::*;

use crate::phy::{AdvertisingChannel, DataChannel};
use crate::time::Instant;

pub mod advertising;
pub mod data;

verus! {

/// The 24-bit BLE CRC polynomial, with the implicit bit 24 set. Only the low
/// 24 bits are written to the hardware polynomial register.
pub const CRC_POLY: u32 = 0x0100_065B;

/// A reconfiguration command for the radio, issued by the link layer.
#[derive(Clone, Copy, PartialEq, Eq, Structural, Debug)]
pub enum RadioCmd {
    /// Stop listening; leave the radio disabled.
    Off,
    /// Listen for advertising packets on the given channel.
    ListenAdvertising {
        /// Channel to listen on.
        channel: AdvertisingChannel,
    },
    /// Listen for data-channel packets of one connection.
    ListenData {
        /// Channel to listen on.
        channel: DataChannel,
        /// The connection's 32-bit access address.
        access_address: u32,
        /// The connection's negotiated CRC seed (24 bits used).
        crc_init: u32,
        /// `true` when the previous connection event was missed: no
        /// transmission is expected, so reconfiguration need not wait for
        /// one to finish.
        timeout: bool,
    },
}

impl RadioCmd {
    /// A command is well-formed when the channel it names is valid.
    pub open spec fn wf(self) -> bool {
        match self {
            RadioCmd::Off => true,
            RadioCmd::ListenAdvertising { channel } => channel.wf(),
            RadioCmd::ListenData { channel, .. } => channel.wf(),
        }
    }
}

/// The instruction returned by the link layer's packet-processing callbacks.
/// The driver does not interpret it, only relays it to its own caller.
#[derive(Clone, Copy, Debug)]
pub struct Cmd {
    /// What the radio should do next.
    pub radio: RadioCmd,
    /// When the link layer wants its update entry point called next, if at
    /// all.
    pub next_update: Option<Instant>,
    /// Whether the link layer has queued work to be processed outside the
    /// interrupt handler.
    pub queued_work: bool,
}

} // verus!
