//! The radio driver: register sequencing, buffer ownership and the transmit
//! and receive paths.

use vstd::prelude::*;

use crate::hw::{PacketPtr, RadioRegs, RadioState};
use crate::link::advertising;
use crate::link::data;
use crate::link::{Cmd, RadioCmd, CRC_POLY};
use crate::phy::{AdvertisingChannel, DataChannel};
use crate::time::{Instant, T_IFS_MICROS};
use crate::MIN_PDU_BUF;

verus! {

/// A packet buffer that can hold header and payload of any advertising or
/// data channel packet. The hardware appends and strips the CRC itself, so
/// the CRC is never stored here.
pub struct PacketBuffer {
    bytes: Vec<u8>,
}

impl View for PacketBuffer {
    type V = Seq<u8>;

    closed spec fn view(&self) -> Seq<u8> {
        self.bytes@
    }
}

impl PacketBuffer {
    /// A packet buffer always holds exactly [`MIN_PDU_BUF`] bytes.
    pub open spec fn wf(self) -> bool {
        self@.len() == MIN_PDU_BUF
    }

    /// Creates a zeroed packet buffer.
    pub fn new() -> (b: PacketBuffer)
        ensures
            b.wf(),
            forall|i: int| 0 <= i < MIN_PDU_BUF ==> b@[i] == 0u8,
    {
        let mut bytes: Vec<u8> = Vec::new();
        let mut i: usize = 0;
        while i < MIN_PDU_BUF
            invariant
                i <= MIN_PDU_BUF,
                bytes@.len() == i,
                forall|j: int| 0 <= j < i ==> bytes@[j] == 0u8,
            decreases MIN_PDU_BUF - i,
        {
            bytes.push(0);
            i = i + 1;
        }
        PacketBuffer { bytes }
    }

    /// The number of bytes in the buffer.
    pub fn len(&self) -> (n: usize)
        ensures
            n == self@.len(),
    {
        self.bytes.len()
    }

    /// Reads the byte at index `i`.
    pub fn get(&self, i: usize) -> (v: u8)
        requires
            i < self@.len(),
        ensures
            v == self@[i as int],
    {
        self.bytes[i]
    }

    /// Writes the byte at index `i`.
    pub fn set(&mut self, i: usize, v: u8)
        requires
            i < old(self)@.len(),
        ensures
            final(self)@ == old(self)@.update(i as int, v),
    {
        self.bytes[i] = v;
    }

    /// Writes `payload` into the payload region (everything after the two
    /// header bytes), leaving the header bytes and the tail beyond the
    /// payload untouched.
    pub fn write_payload(&mut self, payload: &[u8])
        requires
            old(self)@.len() == MIN_PDU_BUF,
            payload@.len() <= MIN_PDU_BUF - 2,
        ensures
            final(self)@.len() == MIN_PDU_BUF,
            final(self)@.subrange(0, 2) == old(self)@.subrange(0, 2),
            final(self)@.subrange(2, 2 + payload@.len() as int) == payload@,
            final(self)@.subrange(2 + payload@.len() as int, MIN_PDU_BUF as int) == old(
                self,
            )@.subrange(2 + payload@.len() as int, MIN_PDU_BUF as int),
    {
        let mut i: usize = 0;
        while i < payload.len()
            invariant
                i <= payload@.len(),
                payload@.len() <= MIN_PDU_BUF - 2,
                self@.len() == MIN_PDU_BUF,
                forall|j: int|
                    0 <= j < self@.len() && !(2 <= j < 2 + i) ==> self@[j] == old(self)@[j],
                forall|j: int| 2 <= j < 2 + i ==> self@[j] == payload@[j - 2],
            decreases payload@.len() - i,
        {
            let b = *vstd::slice::slice_index_get(payload, i);
            self.set(2 + i, b);
            i = i + 1;
        }
        proof {
            assert(self@.subrange(0, 2) =~= old(self)@.subrange(0, 2));
            assert(self@.subrange(2, 2 + payload@.len() as int) =~= payload@);
            assert(self@.subrange(2 + payload@.len() as int, MIN_PDU_BUF as int) =~= old(
                self,
            )@.subrange(2 + payload@.len() as int, MIN_PDU_BUF as int));
        }
    }

    /// Borrows the bytes from `from` (inclusive) to `to` (exclusive).
    pub fn slice(&self, from: usize, to: usize) -> (s: &[u8])
        requires
            from <= to <= self@.len(),
        ensures
            s@ == self@.subrange(from as int, to as int),
    {
        vstd::slice::slice_subrange(self.bytes.as_slice(), from, to)
    }
}

/// Factory calibration data, read once at initialization. On chip variants
/// that require manually loading trim values for 1 Mbit BLE, the override
/// flag is set and the five trim words are written to the radio's override
/// registers; on other variants the flag is clear and nothing is loaded.
#[derive(Clone, Copy, PartialEq, Eq, Structural, Debug)]
pub struct Ficr {
    /// Whether this chip variant requires the BLE 1 Mbit trim override.
    pub ble_1mbit_override: bool,
    /// Trim value for override register 0.
    pub ble_1mbit_0: u32,
    /// Trim value for override register 1.
    pub ble_1mbit_1: u32,
    /// Trim value for override register 2.
    pub ble_1mbit_2: u32,
    /// Trim value for override register 3.
    pub ble_1mbit_3: u32,
    /// Trim value for override register 4.
    pub ble_1mbit_4: u32,
}

/// The payload length actually sliced out of a received buffer for a claimed
/// header length: the claim, clamped to the buffer capacity. A corrupted or
/// malicious header may claim more bytes than the buffer holds; the excess is
/// silently ignored rather than rejected.
pub open spec fn spec_clamped_payload_len(claimed: u8) -> int {
    if claimed <= MIN_PDU_BUF - 2 {
        claimed as int
    } else {
        MIN_PDU_BUF - 2
    }
}

/// Clamps a claimed payload length to the payload capacity of a packet
/// buffer (its size minus the two header bytes).
pub fn clamp_payload_length(claimed: u8) -> (n: usize)
    ensures
        n == spec_clamped_payload_len(claimed),
        n <= MIN_PDU_BUF - 2,
        claimed > MIN_PDU_BUF - 2 ==> n == MIN_PDU_BUF - 2,
        claimed <= MIN_PDU_BUF - 2 ==> n == claimed,
{
    if (claimed as usize) <= MIN_PDU_BUF - 2 {
        claimed as usize
    } else {
        MIN_PDU_BUF - 2
    }
}

/// An interface to the radio peripheral in BLE mode.
pub struct BleRadio {
    /// `true` if the radio is operating on an advertising channel, `false`
    /// if it is on a data channel.
    advertising: bool,
    radio: RadioRegs,
    tx_buf: PacketBuffer,
    /// Receive buffer. `None` only while a received packet is being handed
    /// to the link layer, so that the link layer can be given the driver
    /// itself at the same time.
    rx_buf: Option<PacketBuffer>,
}

impl BleRadio {
    /// The driver's register state.
    pub closed spec fn regs(self) -> RadioRegs {
        self.radio
    }

    /// Whether the driver is operating on an advertising channel.
    pub closed spec fn is_advertising(self) -> bool {
        self.advertising
    }

    /// The contents of the transmit buffer.
    pub closed spec fn tx_buf_view(self) -> Seq<u8> {
        self.tx_buf@
    }

    /// The contents of the receive buffer, if the driver currently holds it.
    pub closed spec fn rx_buf_view(self) -> Option<Seq<u8>> {
        match self.rx_buf {
            Some(b) => Some(b@),
            None => None,
        }
    }

    /// Both buffers have the fixed packet-buffer size.
    pub open spec fn bufs_wf(self) -> bool {
        &&& self.tx_buf_view().len() == MIN_PDU_BUF
        &&& (self.rx_buf_view() matches Some(b) ==> b.len() == MIN_PDU_BUF)
    }

    /// The driver holds the receive buffer. This holds between interrupts;
    /// only while a received packet is being processed is the buffer taken
    /// out, and it is always put back before the interrupt handler returns.
    pub open spec fn holds_rx_buf(self) -> bool {
        self.rx_buf_view() is Some
    }

    /// The driver's well-formedness between calls: both buffers sized, the
    /// receive buffer present.
    pub open spec fn wf(self) -> bool {
        self.bufs_wf() && self.holds_rx_buf()
    }

    /// Returns the current radio hardware state.
    pub fn state(&self) -> (s: RadioState)
        ensures
            s == self.regs().state,
    {
        self.radio.state
    }

    /// Returns a snapshot of the peripheral's register values.
    pub fn registers(&self) -> (r: RadioRegs)
        ensures
            r == self.regs(),
    {
        self.radio
    }

    /// Reads one byte of the transmit buffer.
    pub fn tx_byte(&self, i: usize) -> (v: u8)
        requires
            i < self.tx_buf_view().len(),
        ensures
            v == self.tx_buf_view()[i as int],
    {
        self.tx_buf.get(i)
    }

    /// Whether the driver currently holds the receive buffer.
    pub fn rx_buf_present(&self) -> (p: bool)
        ensures
            p == self.holds_rx_buf(),
    {
        self.rx_buf.is_some()
    }

    /// Initializes the radio in BLE mode and takes ownership of the TX and
    /// RX buffers. The peripheral must be in its disabled state at entry.
    pub fn new(radio: RadioRegs, ficr: &Ficr, tx_buf: PacketBuffer, rx_buf: PacketBuffer) -> (r:
        BleRadio)
        requires
            radio.state == RadioState::Disabled,
            tx_buf.wf(),
            rx_buf.wf(),
        ensures
            r.wf(),
            !r.is_advertising(),
            r.regs() == spec_initial_regs(radio, *ficr),
            r.regs().state == RadioState::Disabled,
            r.tx_buf_view() == tx_buf@,
            r.rx_buf_view() == Some(rx_buf@),
    {
        let mut radio = radio;

        // Chip variants that need it get their factory trim values loaded;
        // on the others this is a no-op.
        if ficr.ble_1mbit_override {
            radio.override0 = ficr.ble_1mbit_0;
            radio.override1 = ficr.ble_1mbit_1;
            radio.override2 = ficr.ble_1mbit_2;
            radio.override3 = ficr.ble_1mbit_3;
            radio.override4 = ficr.ble_1mbit_4;
            radio.override4_enable = true;
        }

        radio.mode_ble_1mbit = true;
        radio.txpower_pos4dbm = true;

        // Maximum payload length, 3-byte base address + 1-byte prefix, and
        // data whitening over PDU and CRC.
        radio.pcnf1_maxlen = (MIN_PDU_BUF - 2) as u8;
        radio.pcnf1_balen = 3;
        radio.pcnf1_whiteen = true;

        // Skip the address field for the CRC (only S0, Length, S1 and the
        // payload are covered) and use a 3-byte (24-bit) CRC.
        radio.crccnf_skipaddr = true;
        radio.crccnf_len = 3;
        radio.crcpoly = CRC_POLY & 0x00FF_FFFF;

        // Configure logical address 0 as the canonical advertising access
        // address. The base register ignores its lowest byte and transmits
        // its upper 24 bits as the low 24 bits of the access address, so the
        // address is shifted up and its top byte goes into the prefix.
        radio.base0 = advertising::ACCESS_ADDRESS << 8;
        radio.prefix0_ap0 = (advertising::ACCESS_ADDRESS >> 24) as u8;

        // Start transmission or reception immediately after ramp-up, and
        // return to the disabled state when a packet finishes, so no
        // software intervention is needed mid-packet.
        radio.shorts_ready_start = true;
        radio.shorts_end_disable = true;
        radio.shorts_disabled_txen = false;

        BleRadio { advertising: false, radio, tx_buf, rx_buf: Some(rx_buf) }
    }
}

/// The register state established by initialization: 1 Mbit BLE mode at
/// fixed transmit power; maximum payload length, a 3-byte base address
/// with 1-byte prefix, and on-air whitening; a 24-bit CRC that skips the
/// address field, seeded with the BLE polynomial; logical address 0
/// programmed as the canonical advertising access address (shifted into
/// the upper 24 bits of the base register, whose low byte the hardware
/// ignores); and the ready-to-start and end-to-disable shortcuts wired.
pub open spec fn spec_initial_regs(r: RadioRegs, ficr: Ficr) -> RadioRegs {
        RadioRegs {
            mode_ble_1mbit: true,
            txpower_pos4dbm: true,
            pcnf1_maxlen: (MIN_PDU_BUF - 2) as u8,
            pcnf1_balen: 3,
            pcnf1_whiteen: true,
            crccnf_skipaddr: true,
            crccnf_len: 3,
            crcpoly: CRC_POLY & 0x00FF_FFFF,
            base0: advertising::ACCESS_ADDRESS << 8,
            prefix0_ap0: (advertising::ACCESS_ADDRESS >> 24) as u8,
            shorts_ready_start: true,
            shorts_end_disable: true,
            shorts_disabled_txen: false,
            override0: if ficr.ble_1mbit_override {
                ficr.ble_1mbit_0
            } else {
                r.override0
            },
            override1: if ficr.ble_1mbit_override {
                ficr.ble_1mbit_1
            } else {
                r.override1
            },
            override2: if ficr.ble_1mbit_override {
                ficr.ble_1mbit_2
            } else {
                r.override2
            },
            override3: if ficr.ble_1mbit_override {
                ficr.ble_1mbit_3
            } else {
                r.override3
            },
            override4: if ficr.ble_1mbit_override {
                ficr.ble_1mbit_4
            } else {
                r.override4
            },
            override4_enable: if ficr.ble_1mbit_override {
                true
            } else {
                r.override4_enable
            },
            ..r
        }
    }

/// The register state after the shared advertising/data setup for an
/// advertising channel: any in-progress reception drained (the peripheral
/// ends disabled; the completion event stays latched exactly when a drain was
/// needed), the packet layout programmed (1-byte S0, 8-bit Length, no S1),
/// the whitening seed and frequency taken from the channel, and the CRC
/// seeded with the fixed advertising preset.
pub open spec fn spec_prepared_advertising(r: RadioRegs, channel: AdvertisingChannel) -> RadioRegs {
    RadioRegs {
        state: RadioState::Disabled,
        events_disabled: r.state != RadioState::Disabled,
        pcnf0_s0len_bytes: true,
        pcnf0_lflen: 8,
        pcnf0_s1len: 0,
        datawhiteiv: channel.spec_whitening_iv(),
        crcinit: advertising::CRC_PRESET,
        frequency: (channel.spec_freq() - 2400) as u8,
        ..r
    }
}

/// The register state after the shared advertising/data setup for a data
/// channel: any in-progress reception drained (the peripheral ends disabled;
/// the completion event stays latched exactly when a drain was needed), the
/// packet layout programmed (1-byte S0, 8-bit Length, no S1), the whitening
/// seed and frequency taken from the channel, the CRC seeded with the
/// connection's negotiated seed, and logical address 1 programmed with the
/// connection's access address using the same split-and-shift technique as
/// the canonical advertising address.
pub open spec fn spec_prepared_data(
    r: RadioRegs,
    channel: DataChannel,
    access_address: u32,
    crc_init: u32,
) -> RadioRegs {
    RadioRegs {
        state: RadioState::Disabled,
        events_disabled: r.state != RadioState::Disabled,
        pcnf0_s0len_bytes: true,
        pcnf0_lflen: 8,
        pcnf0_s1len: 0,
        datawhiteiv: channel.spec_whitening_iv(),
        crcinit: crc_init & 0x00FF_FFFF,
        frequency: (channel.spec_freq() - 2400) as u8,
        base1: access_address << 8,
        prefix0_ap1: (access_address >> 24) as u8,
        ..r
    }
}

/// The register state after `configure_receiver`: the peripheral is first
/// brought to a fully idle state (disabled, completion interrupt off, event
/// acknowledged) and then, for the listening commands, prepared for the
/// channel, pointed at the receive buffer with the completion interrupt on,
/// restricted to the matching logical address, and sent into receive ramp-up.
/// For data channels the hardware inter-frame-space timer is loaded with
/// `T_IFS` and the extended shortcut chain is wired so that the response
/// transmission starts without software in the loop.
pub open spec fn spec_configured(r: RadioRegs, cmd: RadioCmd) -> RadioRegs {
    let idle = RadioRegs {
        state: RadioState::Disabled,
        events_disabled: false,
        inten_disabled: false,
        ..r
    };
    match cmd {
        RadioCmd::Off => idle,
        RadioCmd::ListenAdvertising { channel } => RadioRegs {
            state: RadioState::RxRu,
            packetptr: PacketPtr::RxBuffer,
            inten_disabled: true,
            rxaddresses_addr0: true,
            rxaddresses_addr1: false,
            shorts_ready_start: true,
            shorts_end_disable: true,
            shorts_disabled_txen: false,
            ..spec_prepared_advertising(idle, channel)
        },
        RadioCmd::ListenData { channel, access_address, crc_init, .. } => RadioRegs {
            state: RadioState::RxRu,
            tifs: T_IFS_MICROS,
            packetptr: PacketPtr::RxBuffer,
            inten_disabled: true,
            rxaddresses_addr0: false,
            rxaddresses_addr1: true,
            shorts_ready_start: true,
            shorts_end_disable: true,
            shorts_disabled_txen: true,
            ..spec_prepared_data(idle, channel, access_address, crc_init)
        },
    }
}

impl BleRadio {
    /// Performs the shared setup to receive or send on an advertising
    /// channel: marks the driver as advertising, drains any in-progress
    /// reception, and programs packet layout, whitening seed, CRC preset and
    /// frequency. Always reprogrammed in full, so that entering the mode is
    /// idempotent regardless of the prior mode.
    ///
    /// To transmit afterwards, `txaddress` must be set and the packet pointer
    /// aimed at the TX buffer; to receive, `rxaddresses` must match logical
    /// address 0 and the packet pointer must aim at the RX buffer.
    fn prepare_txrx_advertising(&mut self, channel: AdvertisingChannel)
        requires
            channel.wf(),
        ensures
            final(self).regs() == spec_prepared_advertising(old(self).regs(), channel),
            final(self).is_advertising(),
            final(self).tx_buf_view() == old(self).tx_buf_view(),
            final(self).rx_buf_view() == old(self).rx_buf_view(),
    {
        self.advertising = true;

        // Acknowledge any left-over disable event.
        self.radio.events_disabled = false;

        if !(self.state() == RadioState::Disabled) {
            // In case we are currently receiving, stop that, then wait until
            // the disable event is triggered.
            self.radio.task_disable();
            self.radio.wait_disabled_event();
        }

        // Now all needed registers can be configured freely.
        self.radio.pcnf0_s0len_bytes = true;
        self.radio.pcnf0_lflen = 8;
        self.radio.pcnf0_s1len = 0;

        self.radio.datawhiteiv = channel.whitening_iv();
        self.radio.crcinit = advertising::CRC_PRESET;
        self.radio.frequency = (channel.freq() - 2400) as u8;
    }

    /// Performs the shared setup to receive or send on a data channel:
    /// marks the driver as not advertising, drains any in-progress
    /// reception, and programs packet layout, whitening seed, the
    /// connection's CRC seed and frequency, and logical address 1 with the
    /// connection's access address. Always reprogrammed in full, so that
    /// entering the mode is idempotent regardless of the prior mode.
    fn prepare_txrx_data(&mut self, channel: DataChannel, access_address: u32, crc_init: u32)
        requires
            channel.wf(),
        ensures
            final(self).regs() == spec_prepared_data(
                old(self).regs(),
                channel,
                access_address,
                crc_init,
            ),
            !final(self).is_advertising(),
            final(self).tx_buf_view() == old(self).tx_buf_view(),
            final(self).rx_buf_view() == old(self).rx_buf_view(),
    {
        self.advertising = false;

        // Acknowledge any left-over disable event.
        self.radio.events_disabled = false;

        if !(self.state() == RadioState::Disabled) {
            // In case we are currently receiving, stop that, then wait until
            // the disable event is triggered.
            self.radio.task_disable();
            self.radio.wait_disabled_event();
        }

        self.radio.pcnf0_s0len_bytes = true;
        self.radio.pcnf0_lflen = 8;
        self.radio.pcnf0_s1len = 0;

        self.radio.datawhiteiv = channel.whitening_iv();
        self.radio.crcinit = crc_init & 0x00FF_FFFF;
        self.radio.frequency = (channel.freq() - 2400) as u8;

        // Logical address 1 is the connection's data channel access address,
        // split and shifted as the advertising address is.
        self.radio.base1 = access_address << 8;
        self.radio.prefix0_ap1 = (access_address >> 24) as u8;
    }

    /// Listening-for-advertising arm of the reconfiguration: shared
    /// advertising setup, packet pointer at the receive buffer, completion
    /// interrupt on, matching restricted to logical address 0, the plain
    /// shortcut pair restored, and receive ramp-up triggered.
    fn listen_advertising(&mut self, channel: AdvertisingChannel)
        requires
            channel.wf(),
        ensures
            final(self).regs() == (RadioRegs {
                state: RadioState::RxRu,
                packetptr: PacketPtr::RxBuffer,
                inten_disabled: true,
                rxaddresses_addr0: true,
                rxaddresses_addr1: false,
                shorts_ready_start: true,
                shorts_end_disable: true,
                shorts_disabled_txen: false,
                ..spec_prepared_advertising(old(self).regs(), channel)
            }),
            final(self).is_advertising(),
            final(self).tx_buf_view() == old(self).tx_buf_view(),
            final(self).rx_buf_view() == old(self).rx_buf_view(),
    {
        self.prepare_txrx_advertising(channel);

        // Note the asymmetry with the data-channel arm: only that arm
        // programs the hardware inter-frame-space timer, so the advertising
        // path is not hardware-T_IFS-enforced.
        self.radio.packetptr = PacketPtr::RxBuffer;

        // Enable the completion interrupt (packet fully received).
        self.radio.inten_disabled = true;

        // Match on logical address 0 only.
        self.radio.rxaddresses_addr0 = true;
        self.radio.rxaddresses_addr1 = false;

        // Restore the correct shortcuts in case a previous connection
        // changed them.
        self.radio.shorts_ready_start = true;
        self.radio.shorts_end_disable = true;
        self.radio.shorts_disabled_txen = false;

        self.radio.fence_release();

        // ...and enter RX mode.
        self.radio.task_rxen();
    }

    /// Listening-for-data arm of the reconfiguration: shared data setup with
    /// the connection's access address and CRC seed, the hardware
    /// inter-frame-space timer loaded with `T_IFS`, packet pointer at the
    /// receive buffer, completion interrupt on, matching restricted to
    /// logical address 1, receive ramp-up triggered, and the extended
    /// shortcut chain wired so the response transmission starts without
    /// software in the loop.
    fn listen_data(&mut self, channel: DataChannel, access_address: u32, crc_init: u32)
        requires
            channel.wf(),
        ensures
            final(self).regs() == (RadioRegs {
                state: RadioState::RxRu,
                tifs: T_IFS_MICROS,
                packetptr: PacketPtr::RxBuffer,
                inten_disabled: true,
                rxaddresses_addr0: false,
                rxaddresses_addr1: true,
                shorts_ready_start: true,
                shorts_end_disable: true,
                shorts_disabled_txen: true,
                ..spec_prepared_data(old(self).regs(), channel, access_address, crc_init)
            }),
            !final(self).is_advertising(),
            final(self).tx_buf_view() == old(self).tx_buf_view(),
            final(self).rx_buf_view() == old(self).rx_buf_view(),
    {
        self.prepare_txrx_data(channel, access_address, crc_init);

        // Enforce T_IFS in hardware.
        self.radio.tifs = T_IFS_MICROS;

        self.radio.packetptr = PacketPtr::RxBuffer;

        // Enable the completion interrupt (packet fully received).
        self.radio.inten_disabled = true;

        // Match on logical address 1 only.
        self.radio.rxaddresses_addr0 = false;
        self.radio.rxaddresses_addr1 = true;

        self.radio.fence_release();

        // ...and enter RX mode.
        self.radio.task_rxen();

        // Wire the shortcut chain needed for T_IFS: after receiving a packet
        // the peripheral ramps into transmit mode on its own, without
        // software in the loop.
        self.radio.shorts_end_disable = true;
        self.radio.shorts_disabled_txen = true;
        self.radio.shorts_ready_start = true;
    }

    /// Brings the peripheral to a fully idle state whatever its prior mode:
    /// completion interrupt off, a left-over disable event acknowledged, the
    /// disable task issued, its completion awaited and acknowledged.
    fn disable_radio(&mut self)
        ensures
            final(self).regs() == (RadioRegs {
                state: RadioState::Disabled,
                events_disabled: false,
                inten_disabled: false,
                ..old(self).regs()
            }),
            final(self).is_advertising() == old(self).is_advertising(),
            final(self).tx_buf_view() == old(self).tx_buf_view(),
            final(self).rx_buf_view() == old(self).rx_buf_view(),
    {
        // Disable the completion interrupt, effectively stopping reception.
        self.radio.inten_disabled = false;

        // Acknowledge a left-over disable event, disable the radio, wait
        // until the disable event is triggered, and acknowledge it.
        self.radio.events_disabled = false;
        self.radio.task_disable();
        self.radio.wait_disabled_event();
        self.radio.events_disabled = false;
    }

    /// Configures the radio for (not) receiving packets according to `cmd`.
    ///
    /// For a data-channel command without the timeout flag, first waits for
    /// the end of any ongoing transmission, protecting an in-flight response
    /// the link layer still expects to complete; with the flag set the
    /// previous connection event was missed, so nothing is expected. The
    /// peripheral is then fully disabled before reconfiguration, whatever
    /// its prior mode.
    pub fn configure_receiver(&mut self, cmd: RadioCmd)
        requires
            old(self).wf(),
            cmd.wf(),
        ensures
            final(self).wf(),
            final(self).regs() == spec_configured(old(self).regs(), cmd),
            final(self).tx_buf_view() == old(self).tx_buf_view(),
            final(self).rx_buf_view() == old(self).rx_buf_view(),
            cmd matches RadioCmd::ListenAdvertising { .. } ==> final(self).is_advertising(),
            cmd matches RadioCmd::ListenData { .. } ==> !final(self).is_advertising(),
            cmd is Off ==> final(self).is_advertising() == old(self).is_advertising(),
    {
        // Wait for the end of any ongoing transmission, unless the previous
        // connection event was missed and none is expected.
        if let RadioCmd::ListenData { timeout, .. } = cmd {
            if !timeout {
                self.radio.wait_tx_end();
            }
        }
        self.radio.fence_acquire();

        self.disable_radio();

        match cmd {
            RadioCmd::Off => {},
            RadioCmd::ListenAdvertising { channel } => {
                self.listen_advertising(channel);
            },
            RadioCmd::ListenData { channel, access_address, crc_init, timeout: _ } => {
                self.listen_data(channel, access_address, crc_init);
            },
        }
    }
}

/// The packet-processing callbacks the link layer supplies to the driver.
/// The driver hands every received packet to one of them, together with
/// itself (so the callback can request a response transmission), and relays
/// the returned instruction to its own caller without interpreting it.
pub trait LinkLayer {
    /// Processes a packet received on an advertising channel. `payload` is
    /// the received payload, its claimed length already clamped to the
    /// buffer capacity, and `crc_ok` reports the hardware CRC check; a CRC
    /// failure is an expected condition whose disposition the link layer
    /// decides.
    fn process_adv_packet(
        &mut self,
        timestamp: Instant,
        tx: &mut BleRadio,
        header: advertising::Header,
        payload: &[u8],
        crc_ok: bool,
    ) -> (cmd: Cmd)
        requires
            old(tx).bufs_wf(),
            payload@.len() == spec_clamped_payload_len(header.spec_payload_length()),
        ensures
            final(tx).bufs_wf(),
    ;

    /// Processes a packet received on a data channel, under the same
    /// contract as the advertising callback.
    fn process_data_packet(
        &mut self,
        timestamp: Instant,
        tx: &mut BleRadio,
        header: data::Header,
        payload: &[u8],
        crc_ok: bool,
    ) -> (cmd: Cmd)
        requires
            old(tx).bufs_wf(),
            payload@.len() == spec_clamped_payload_len(header.spec_payload_length()),
        ensures
            final(tx).bufs_wf(),
    ;
}

/// What the interrupt handler owes about its advertising-mode delivery: the
/// command `c` is a result the link layer's `process_adv_packet` can return
/// when invoked with the given timestamp, the driver itself, a header whose
/// S0 and Length are parsed from the first two bytes of the received buffer
/// `rx`, the received payload sliced at the clamped length, and the hardware
/// CRC status `crc_ok`. A handler that never invokes the callback, or hands
/// it anything else, cannot establish this.
pub open spec fn spec_adv_packet_delivered<L: LinkLayer>(
    timestamp: Instant,
    rx: Seq<u8>,
    crc_ok: bool,
    c: Cmd,
) -> bool {
    exists|ll: &mut L, tx: &mut BleRadio, h: advertising::Header, p: &[u8]|
        {
            &&& h.spec_s0() == advertising::spec_parsed_s0(rx[0], rx[1])
            &&& h.spec_payload_length() == advertising::spec_parsed_length(rx[0], rx[1])
            &&& p@ == rx.subrange(
                2,
                2 + spec_clamped_payload_len(advertising::spec_parsed_length(rx[0], rx[1])),
            )
            &&& #[trigger] call_ensures(
                L::process_adv_packet,
                (ll, timestamp, tx, h, p, crc_ok),
                c,
            )
        }
}

/// What the interrupt handler owes about its data-mode delivery, under the
/// same reading as the advertising predicate, with the header parsed by the
/// data channel layout.
pub open spec fn spec_data_packet_delivered<L: LinkLayer>(
    timestamp: Instant,
    rx: Seq<u8>,
    crc_ok: bool,
    c: Cmd,
) -> bool {
    exists|ll: &mut L, tx: &mut BleRadio, h: data::Header, p: &[u8]|
        {
            &&& h.spec_s0() == data::spec_parsed_s0(rx[0], rx[1])
            &&& h.spec_payload_length() == data::spec_parsed_length(rx[0], rx[1])
            &&& p@ == rx.subrange(
                2,
                2 + spec_clamped_payload_len(data::spec_parsed_length(rx[0], rx[1])),
            )
            &&& #[trigger] call_ensures(
                L::process_data_packet,
                (ll, timestamp, tx, h, p, crc_ok),
                c,
            )
        }
}

impl BleRadio {
    /// Transmits a PDU from the internal buffer, blocking until the
    /// transmission has completed. Assumes all registers are correct for
    /// this type of transmission: the peripheral disabled and the
    /// ready-to-start and end-to-disable shortcuts wired. Only after this
    /// returns is the TX buffer safe to overwrite again.
    fn transmit(&mut self)
        requires
            old(self).regs().state == RadioState::Disabled,
            old(self).regs().shorts_ready_start,
            old(self).regs().shorts_end_disable,
        ensures
            final(self).regs() == (RadioRegs {
                packetptr: PacketPtr::TxBuffer,
                events_disabled: true,
                ..old(self).regs()
            }),
            final(self).is_advertising() == old(self).is_advertising(),
            final(self).tx_buf_view() == old(self).tx_buf_view(),
            final(self).rx_buf_view() == old(self).rx_buf_view(),
    {
        // The packet pointer must be reconfigured every time before the
        // radio is started; stale pointers are not implicitly reused.
        self.radio.packetptr = PacketPtr::TxBuffer;

        // Acknowledge a left-over disable event.
        self.radio.events_disabled = false;

        // Buffer contents written by software must be visible to the
        // peripheral before it is triggered.
        self.radio.fence_release();

        // Kick off the transmission, then wait until the disable event is
        // triggered.
        self.radio.task_txen();
        self.radio.wait_disabled_event();

        // The peripheral is done with the buffer; make that visible before
        // software reuses it.
        self.radio.fence_acquire();
    }

    /// Waits until any in-progress transmission completes, then writes
    /// `payload` into the writable payload region of the TX buffer (the two
    /// header bytes are reserved and left untouched).
    pub fn fill_tx_payload(&mut self, payload: &[u8])
        requires
            old(self).bufs_wf(),
            payload@.len() <= MIN_PDU_BUF - 2,
        ensures
            final(self).bufs_wf(),
            final(self).is_advertising() == old(self).is_advertising(),
            final(self).rx_buf_view() == old(self).rx_buf_view(),
            final(self).tx_buf_view().len() == MIN_PDU_BUF,
            final(self).tx_buf_view().subrange(0, 2) == old(self).tx_buf_view().subrange(0, 2),
            final(self).tx_buf_view().subrange(2, 2 + payload@.len() as int) == payload@,
            final(self).tx_buf_view().subrange(
                2 + payload@.len() as int,
                MIN_PDU_BUF as int,
            ) == old(self).tx_buf_view().subrange(2 + payload@.len() as int, MIN_PDU_BUF as int),
            final(self).regs() == (RadioRegs {
                state: if old(self).regs().state == RadioState::Tx {
                    if old(self).regs().shorts_end_disable {
                        RadioState::Disabled
                    } else {
                        RadioState::TxIdle
                    }
                } else {
                    old(self).regs().state
                },
                events_disabled: old(self).regs().events_disabled || (old(self).regs().state
                    == RadioState::Tx && old(self).regs().shorts_end_disable),
                ..old(self).regs()
            }),
            final(self).regs().state != RadioState::Tx,
    {
        // Wait for any ongoing transmission.
        self.radio.wait_while_transmitting();
        self.radio.fence_acquire();

        // Leave the two bytes of the PDU header untouched.
        self.tx_buf.write_payload(payload);
    }

    /// Transmits an advertising channel packet: writes the two header bytes
    /// (S0, then the payload length) into the TX buffer, re-applies the
    /// advertising setup for `channel`, selects logical address 0 (the
    /// canonical advertising access address) for transmission, and blocks
    /// until the transmission completes.
    pub fn transmit_advertising(&mut self, header: advertising::Header, channel: AdvertisingChannel)
        requires
            old(self).bufs_wf(),
            channel.wf(),
            old(self).regs().shorts_ready_start,
            old(self).regs().shorts_end_disable,
        ensures
            final(self).bufs_wf(),
            final(self).is_advertising(),
            final(self).rx_buf_view() == old(self).rx_buf_view(),
            final(self).tx_buf_view() == old(self).tx_buf_view().update(
                0,
                header.spec_s0(),
            ).update(1, header.spec_payload_length()),
            final(self).regs() == (RadioRegs {
                packetptr: PacketPtr::TxBuffer,
                events_disabled: true,
                txaddress: 0,
                ..spec_prepared_advertising(old(self).regs(), channel)
            }),
    {
        // S0 goes to offset 0, the 6-bit length (followed by two reserved
        // zero bits) to offset 1.
        self.tx_buf.set(0, header.s0());
        self.tx_buf.set(1, header.payload_length());

        self.prepare_txrx_advertising(channel);

        // Logical address 0 uses the canonical advertising access address.
        self.radio.txaddress = 0;

        self.transmit();
    }

    /// Arms the transmission of a data channel packet: writes the two header
    /// bytes into the TX buffer, selects logical address 1 (the connection's
    /// access address), reprograms the packet pointer, and rewires the
    /// shortcuts so the transmitter — already ramping up via the
    /// disable-to-transmit chain wired at reconfiguration — starts on its
    /// own. Unlike the advertising path this does not block: returning
    /// immediately is what keeps the response within `T_IFS`. The access
    /// address, CRC seed and channel were already programmed at
    /// reconfiguration and are taken as arguments only to mirror the
    /// transmit contract.
    pub fn transmit_data(
        &mut self,
        access_address: u32,
        crc_iv: u32,
        header: data::Header,
        channel: DataChannel,
    )
        requires
            old(self).bufs_wf(),
        ensures
            final(self).bufs_wf(),
            final(self).is_advertising() == old(self).is_advertising(),
            final(self).rx_buf_view() == old(self).rx_buf_view(),
            final(self).tx_buf_view() == old(self).tx_buf_view().update(
                0,
                header.spec_s0(),
            ).update(1, header.spec_payload_length()),
            final(self).regs() == (RadioRegs {
                txaddress: 1,
                packetptr: PacketPtr::TxBuffer,
                shorts_ready_start: true,
                shorts_end_disable: false,
                shorts_disabled_txen: false,
                ..old(self).regs()
            }),
    {
        let _ = access_address;
        let _ = crc_iv;
        let _ = channel;

        // S0 goes to offset 0, the 8-bit length to offset 1.
        self.tx_buf.set(0, header.s0());
        self.tx_buf.set(1, header.payload_length());

        // Logical address 1 holds the connection's data channel access
        // address.
        self.radio.txaddress = 1;

        // The packet pointer must be reconfigured every time before the
        // radio is started.
        self.radio.packetptr = PacketPtr::TxBuffer;

        // Buffer contents written by software must be visible to the
        // peripheral before it starts.
        self.radio.fence_release();

        // Arm the ready-to-start shortcut so the in-flight ramp-up starts
        // the transmission, and stop re-arming the end-to-disable chain.
        self.radio.shorts_ready_start = true;
        self.radio.shorts_end_disable = false;
        self.radio.shorts_disabled_txen = false;
    }

    /// Handles the receive-complete interrupt; call it when the radio
    /// interrupt fires. Returns `None` at once on a spurious invocation (the
    /// completion event has not actually fired). Otherwise parses the header
    /// from the RX buffer, clamps the claimed payload length to the buffer
    /// capacity, slices out the payload, hands everything to the link layer
    /// together with the CRC status, and relays the link layer's
    /// instruction. The RX buffer is taken out of its slot only for the
    /// duration of the callback and is always put back.
    pub fn recv_interrupt<L: LinkLayer>(&mut self, timestamp: Instant, ll: &mut L) -> (cmd: Option<
        Cmd,
    >)
        requires
            old(self).wf(),
            old(self).regs().events_disabled && old(self).is_advertising() ==> old(
                self,
            ).regs().state == RadioState::Disabled,
            old(self).regs().events_disabled && !old(self).is_advertising() ==> old(
                self,
            ).regs().state != RadioState::Tx,
        ensures
            final(self).wf(),
            !old(self).regs().events_disabled ==> cmd is None && *final(self) == *old(self),
            old(self).regs().events_disabled ==> cmd is Some && final(self).rx_buf_view() == old(
                self,
            ).rx_buf_view(),
            old(self).regs().events_disabled && old(self).is_advertising() ==> (cmd matches Some(
                c,
            ) && spec_adv_packet_delivered::<L>(
                timestamp,
                old(self).rx_buf_view().unwrap(),
                old(self).regs().crcstatus_ok,
                c,
            )),
            old(self).regs().events_disabled && !old(self).is_advertising() ==> (cmd matches Some(
                c,
            ) && spec_data_packet_delivered::<L>(
                timestamp,
                old(self).rx_buf_view().unwrap(),
                old(self).regs().crcstatus_ok,
                c,
            )),
    {
        if !self.radio.events_disabled {
            return None;
        }
        self.radio.fence_acquire();

        // Acknowledge the DISABLED event.
        self.radio.events_disabled = false;

        let crc_ok = self.radio.crcstatus_ok;

        let cmd: Cmd;
        if self.advertising {
            // When this interrupt fires in advertising mode, the peripheral
            // must have transitioned to the disabled state; anything else is
            // a hardware/logic inconsistency that the precondition excludes.
            assert(self.regs().state == RadioState::Disabled);

            let rx_buf = self.rx_buf.take().unwrap();
            let header = advertising::Header::parse(rx_buf.slice(0, 2));

            // Clamp the claimed payload length to the buffer capacity
            // before slicing.
            let pl_len = clamp_payload_length(header.payload_length());
            let payload = rx_buf.slice(2, 2 + pl_len);

            cmd = ll.process_adv_packet(timestamp, self, header, payload, crc_ok);
            self.rx_buf = Some(rx_buf);
        } else {
            // Turn the ready-to-start shortcut off before the transmitter
            // ramp-up (started by the disable-to-transmit chain) reaches
            // ready, to give the callback the chance to decide whether to
            // respond at all.
            self.radio.shorts_ready_start = false;

            // The peripheral must not be actively transmitting at this
            // point; the precondition excludes it.
            assert(self.regs().state != RadioState::Tx);

            let rx_buf = self.rx_buf.take().unwrap();
            let header = data::Header::parse(rx_buf.slice(0, 2));

            // Clamp the claimed payload length to the buffer capacity
            // before slicing.
            let pl_len = clamp_payload_length(header.payload_length());
            let payload = rx_buf.slice(2, 2 + pl_len);

            cmd = ll.process_data_packet(timestamp, self, header, payload, crc_ok);
            self.rx_buf = Some(rx_buf);
        }

        Some(cmd)
    }

    /// Models the autonomously running receiver completing a reception: the
    /// DMA engine writes the two header bytes and the payload into the RX
    /// buffer, the CRC status is latched, the `DISABLED` event fires through
    /// the end-to-disable shortcut, and — when the disable-to-transmit
    /// shortcut is wired — the transmitter starts ramping up for the
    /// response. Test code (or a hardware binding) invokes this when a
    /// packet arrives over the air.
    pub fn simulate_reception(&mut self, s0: u8, length: u8, payload: &[u8], crc_ok: bool)
        requires
            old(self).wf(),
            old(self).regs().packetptr == PacketPtr::RxBuffer,
            old(self).regs().state == RadioState::RxRu || old(self).regs().state
                == RadioState::Rx,
            old(self).regs().shorts_ready_start,
            old(self).regs().shorts_end_disable,
            payload@.len() <= MIN_PDU_BUF - 2,
        ensures
            final(self).wf(),
            final(self).is_advertising() == old(self).is_advertising(),
            final(self).tx_buf_view() == old(self).tx_buf_view(),
            final(self).rx_buf_view() matches Some(b) && {
                &&& b.len() == MIN_PDU_BUF
                &&& b[0] == s0
                &&& b[1] == length
                &&& b.subrange(2, 2 + payload@.len() as int) == payload@
                &&& b.subrange(2 + payload@.len() as int, MIN_PDU_BUF as int) == old(
                    self,
                ).rx_buf_view().unwrap().subrange(2 + payload@.len() as int, MIN_PDU_BUF as int)
            },
            final(self).regs() == (RadioRegs {
                state: if old(self).regs().shorts_disabled_txen {
                    RadioState::TxRu
                } else {
                    RadioState::Disabled
                },
                events_disabled: true,
                crcstatus_ok: crc_ok,
                ..old(self).regs()
            }),
    {
        let mut rx_buf = self.rx_buf.take().unwrap();
        rx_buf.set(0, s0);
        rx_buf.set(1, length);

        let mut i: usize = 0;
        while i < payload.len()
            invariant
                i <= payload@.len(),
                payload@.len() <= MIN_PDU_BUF - 2,
                rx_buf@.len() == MIN_PDU_BUF,
                rx_buf@[0] == s0,
                rx_buf@[1] == length,
                forall|j: int| 2 <= j < 2 + i ==> rx_buf@[j] == payload@[j - 2],
                forall|j: int|
                    2 + i <= j < rx_buf@.len() ==> rx_buf@[j] == old(
                        self,
                    ).rx_buf_view().unwrap()[j],
            decreases payload@.len() - i,
        {
            let b = *vstd::slice::slice_index_get(payload, i);
            rx_buf.set(2 + i, b);
            i = i + 1;
        }
        proof {
            assert(rx_buf@.subrange(2, 2 + payload@.len() as int) =~= payload@);
            assert(rx_buf@.subrange(2 + payload@.len() as int, MIN_PDU_BUF as int)
                =~= old(self).rx_buf_view().unwrap().subrange(
                2 + payload@.len() as int,
                MIN_PDU_BUF as int,
            ));
        }
        self.rx_buf = Some(rx_buf);

        self.radio.crcstatus_ok = crc_ok;
        self.radio.events_disabled = true;
        self.radio.state = if self.radio.shorts_disabled_txen {
            RadioState::TxRu
        } else {
            RadioState::Disabled
        };
    }
}

/// The shared advertising setup is idempotent: starting from a disabled
/// peripheral (as the reconfiguration entry point guarantees), applying it
/// twice in a row with the same channel produces exactly the register state
/// of applying it once. Starting from a non-disabled peripheral the two
/// differ in the latched completion event alone, which the first application
/// leaves set after draining the in-progress reception.
pub proof fn lemma_prepare_advertising_idempotent(r: RadioRegs, channel: AdvertisingChannel)
    requires
        r.state == RadioState::Disabled,
    ensures
        spec_prepared_advertising(spec_prepared_advertising(r, channel), channel)
            == spec_prepared_advertising(r, channel),
{
}

/// The shared data-channel setup is idempotent: starting from a disabled
/// peripheral (as the reconfiguration entry point guarantees), applying it
/// twice in a row with the same channel, access address and CRC seed
/// produces exactly the register state of applying it once. Starting from a
/// non-disabled peripheral the two differ in the latched completion event
/// alone, which the first application leaves set after draining the
/// in-progress reception.
pub proof fn lemma_prepare_data_idempotent(
    r: RadioRegs,
    channel: DataChannel,
    access_address: u32,
    crc_init: u32,
)
    requires
        r.state == RadioState::Disabled,
    ensures
        spec_prepared_data(
            spec_prepared_data(r, channel, access_address, crc_init),
            channel,
            access_address,
            crc_init,
        ) == spec_prepared_data(r, channel, access_address, crc_init),
{
}

/// The frequency register programmed for a listening command holds exactly
/// the channel's center frequency minus 2400 MHz, with no truncation: the
/// value always fits the 8-bit register.
pub proof fn lemma_configured_frequency_register(r: RadioRegs, cmd: RadioCmd)
    requires
        cmd.wf(),
    ensures
        cmd matches RadioCmd::ListenAdvertising { channel } ==> spec_configured(r, cmd).frequency
            == channel.spec_freq() - 2400,
        cmd matches RadioCmd::ListenData { channel, .. } ==> spec_configured(r, cmd).frequency
            == channel.spec_freq() - 2400,
{
    match cmd {
        RadioCmd::Off => {},
        RadioCmd::ListenAdvertising { channel } => {
            crate::phy::lemma_advertising_frequency_in_range(channel);
        },
        RadioCmd::ListenData { channel, .. } => {
            crate::phy::lemma_data_frequency_in_range(channel);
        },
    }
}

} // verus!
