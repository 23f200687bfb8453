//! Tests of the radio driver: initialization, reconfiguration, the receive
//! interrupt path and the transmit paths.

use ble_radio::hw::{PacketPtr, RadioRegs, RadioState};
use ble_radio::link::{advertising, data, Cmd, RadioCmd};
use ble_radio::phy::{AdvertisingChannel, DataChannel};
use ble_radio::radio::{BleRadio, Ficr, LinkLayer, PacketBuffer};
use ble_radio::time::Instant;
use ble_radio::MIN_PDU_BUF;

fn no_trim_ficr() -> Ficr {
    Ficr {
        ble_1mbit_override: false,
        ble_1mbit_0: 0,
        ble_1mbit_1: 0,
        ble_1mbit_2: 0,
        ble_1mbit_3: 0,
        ble_1mbit_4: 0,
    }
}

fn fresh_radio() -> BleRadio {
    BleRadio::new(RadioRegs::reset(), &no_trim_ficr(), PacketBuffer::new(), PacketBuffer::new())
}

#[derive(Default)]
struct RecordingLinkLayer {
    adv_calls: u32,
    data_calls: u32,
    last_crc_ok: Option<bool>,
    last_s0: u8,
    last_length: u8,
    last_payload: Vec<u8>,
}

impl LinkLayer for RecordingLinkLayer {
    fn process_adv_packet(
        &mut self,
        _timestamp: Instant,
        _tx: &mut BleRadio,
        header: advertising::Header,
        payload: &[u8],
        crc_ok: bool,
    ) -> Cmd {
        self.adv_calls += 1;
        self.last_crc_ok = Some(crc_ok);
        self.last_s0 = header.s0();
        self.last_length = header.payload_length();
        self.last_payload = payload.to_vec();
        Cmd { radio: RadioCmd::Off, next_update: None, queued_work: false }
    }

    fn process_data_packet(
        &mut self,
        _timestamp: Instant,
        _tx: &mut BleRadio,
        header: data::Header,
        payload: &[u8],
        crc_ok: bool,
    ) -> Cmd {
        self.data_calls += 1;
        self.last_crc_ok = Some(crc_ok);
        self.last_s0 = header.s0();
        self.last_length = header.payload_length();
        self.last_payload = payload.to_vec();
        Cmd { radio: RadioCmd::Off, next_update: None, queued_work: false }
    }
}

#[test]
fn initialization_programs_the_fixed_registers() {
    let radio = fresh_radio();
    let regs = radio.registers();
    assert_eq!(regs.state, RadioState::Disabled);
    assert!(regs.mode_ble_1mbit);
    assert!(regs.txpower_pos4dbm);
    assert_eq!(regs.pcnf1_maxlen as usize, MIN_PDU_BUF - 2);
    assert_eq!(regs.pcnf1_balen, 3);
    assert!(regs.pcnf1_whiteen);
    assert!(regs.crccnf_skipaddr);
    assert_eq!(regs.crccnf_len, 3);
    assert_eq!(regs.crcpoly, 0x0000_065B);
    assert_eq!(regs.base0, 0x89BE_D600);
    assert_eq!(regs.prefix0_ap0, 0x8E);
    assert!(regs.shorts_ready_start);
    assert!(regs.shorts_end_disable);
    assert!(!regs.shorts_disabled_txen);
    assert!(radio.rx_buf_present());
}

#[test]
fn initialization_loads_trim_values_when_required() {
    let ficr = Ficr {
        ble_1mbit_override: true,
        ble_1mbit_0: 1,
        ble_1mbit_1: 2,
        ble_1mbit_2: 3,
        ble_1mbit_3: 4,
        ble_1mbit_4: 5,
    };
    let radio = BleRadio::new(RadioRegs::reset(), &ficr, PacketBuffer::new(), PacketBuffer::new());
    let regs = radio.registers();
    assert_eq!(
        (regs.override0, regs.override1, regs.override2, regs.override3, regs.override4),
        (1, 2, 3, 4, 5)
    );
    assert!(regs.override4_enable);

    let plain = fresh_radio().registers();
    assert!(!plain.override4_enable);
}

#[test]
fn configure_listen_advertising_arms_the_receiver() {
    let mut radio = fresh_radio();
    radio.configure_receiver(RadioCmd::ListenAdvertising { channel: AdvertisingChannel::new(37) });
    let regs = radio.registers();
    assert_eq!(regs.state, RadioState::RxRu);
    assert_eq!(regs.packetptr, PacketPtr::RxBuffer);
    assert!(regs.inten_disabled);
    assert!(regs.rxaddresses_addr0);
    assert!(!regs.rxaddresses_addr1);
    assert_eq!(regs.frequency, 2);
    assert_eq!(regs.datawhiteiv, 0x65);
    assert_eq!(regs.crcinit, 0x0055_5555);
    assert!(regs.pcnf0_s0len_bytes);
    assert_eq!(regs.pcnf0_lflen, 8);
    assert_eq!(regs.pcnf0_s1len, 0);
    assert!(regs.shorts_ready_start && regs.shorts_end_disable && !regs.shorts_disabled_txen);
}

#[test]
fn configure_listen_data_arms_the_t_ifs_chain() {
    let mut radio = fresh_radio();
    radio.configure_receiver(RadioCmd::ListenData {
        channel: DataChannel::new(11),
        access_address: 0xDEAD_BEEF,
        crc_init: 0xFF12_3456,
        timeout: false,
    });
    let regs = radio.registers();
    assert_eq!(regs.state, RadioState::RxRu);
    assert_eq!(regs.tifs, 150);
    assert_eq!(regs.packetptr, PacketPtr::RxBuffer);
    assert!(regs.inten_disabled);
    assert!(!regs.rxaddresses_addr0);
    assert!(regs.rxaddresses_addr1);
    assert_eq!(regs.frequency, 28);
    assert_eq!(regs.datawhiteiv, 0x40 | 11);
    assert_eq!(regs.crcinit, 0x0012_3456);
    assert_eq!(regs.base1, 0xDEAD_BEEF_u32.wrapping_shl(8));
    assert_eq!(regs.prefix0_ap1, 0xDE);
    assert!(regs.shorts_ready_start && regs.shorts_end_disable && regs.shorts_disabled_txen);
}

#[test]
fn configure_off_leaves_the_radio_disabled() {
    let mut radio = fresh_radio();
    radio.configure_receiver(RadioCmd::ListenAdvertising { channel: AdvertisingChannel::new(38) });
    radio.configure_receiver(RadioCmd::Off);
    let regs = radio.registers();
    assert_eq!(regs.state, RadioState::Disabled);
    assert!(!regs.inten_disabled);
    assert!(!regs.events_disabled);
}

#[test]
fn configure_twice_equals_configure_once() {
    let cmd = RadioCmd::ListenAdvertising { channel: AdvertisingChannel::new(37) };
    let mut once = fresh_radio();
    once.configure_receiver(cmd);
    let mut twice = fresh_radio();
    twice.configure_receiver(cmd);
    twice.configure_receiver(cmd);
    assert_eq!(once.registers(), twice.registers());

    let cmd = RadioCmd::ListenData {
        channel: DataChannel::new(3),
        access_address: 0x1234_5678,
        crc_init: 0x9A_BCDE,
        timeout: false,
    };
    let mut once = fresh_radio();
    once.configure_receiver(cmd);
    let mut twice = fresh_radio();
    twice.configure_receiver(cmd);
    twice.configure_receiver(cmd);
    assert_eq!(once.registers(), twice.registers());
}

#[test]
fn advertising_reception_invokes_the_callback_exactly_once() {
    let mut radio = fresh_radio();
    let mut ll = RecordingLinkLayer::default();
    radio.configure_receiver(RadioCmd::ListenAdvertising { channel: AdvertisingChannel::new(37) });
    assert!(radio.rx_buf_present());

    radio.simulate_reception(0x40, 3, &[0xaa, 0xbb, 0xcc], true);
    assert_eq!(radio.state(), RadioState::Disabled);

    let cmd = radio.recv_interrupt(Instant::from_micros(1_000), &mut ll);
    assert!(cmd.is_some());
    assert_eq!(ll.adv_calls, 1);
    assert_eq!(ll.data_calls, 0);
    assert_eq!(ll.last_crc_ok, Some(true));
    assert_eq!(ll.last_s0, 0x40);
    assert_eq!(ll.last_length, 3);
    assert_eq!(ll.last_payload, vec![0xaa, 0xbb, 0xcc]);
    assert!(radio.rx_buf_present());
}

#[test]
fn crc_failure_is_reported_not_rejected() {
    let mut radio = fresh_radio();
    let mut ll = RecordingLinkLayer::default();
    radio.configure_receiver(RadioCmd::ListenAdvertising { channel: AdvertisingChannel::new(39) });
    radio.simulate_reception(0x40, 1, &[0x55], false);
    let cmd = radio.recv_interrupt(Instant::from_micros(0), &mut ll);
    assert!(cmd.is_some());
    assert_eq!(ll.adv_calls, 1);
    assert_eq!(ll.last_crc_ok, Some(false));
}

#[test]
fn spurious_interrupt_returns_none_and_changes_nothing() {
    let mut radio = fresh_radio();
    let mut ll = RecordingLinkLayer::default();
    radio.configure_receiver(RadioCmd::ListenAdvertising { channel: AdvertisingChannel::new(37) });
    let before = radio.registers();
    let cmd = radio.recv_interrupt(Instant::from_micros(0), &mut ll);
    assert!(cmd.is_none());
    assert_eq!(ll.adv_calls, 0);
    assert_eq!(radio.registers(), before);
    assert!(radio.rx_buf_present());
}

#[test]
fn data_reception_clamps_an_overclaimed_length() {
    let mut radio = fresh_radio();
    let mut ll = RecordingLinkLayer::default();
    radio.configure_receiver(RadioCmd::ListenData {
        channel: DataChannel::new(0),
        access_address: 0x1111_2222,
        crc_init: 0x33_4455,
        timeout: false,
    });
    // A corrupted header claims 255 payload bytes; the slice handed to the
    // link layer is clamped to the buffer capacity.
    radio.simulate_reception(0x01, 255, &[0x11; 37], true);
    // The disable-to-transmit chain has started ramping up the transmitter.
    assert_eq!(radio.state(), RadioState::TxRu);

    let cmd = radio.recv_interrupt(Instant::from_micros(2_000), &mut ll);
    assert!(cmd.is_some());
    assert_eq!(ll.data_calls, 1);
    assert_eq!(ll.last_length, 255);
    assert_eq!(ll.last_payload.len(), MIN_PDU_BUF - 2);
    assert!(radio.rx_buf_present());
    // The ready-to-start shortcut was turned off before the transmitter
    // could start on its own.
    assert!(!radio.registers().shorts_ready_start);
}

#[test]
fn transmit_advertising_writes_header_and_completes() {
    let mut radio = fresh_radio();
    radio.fill_tx_payload(&[0xde, 0xad, 0xbe, 0xef]);
    let header = advertising::Header::new(0x42, 4);
    radio.transmit_advertising(header, AdvertisingChannel::new(38));

    let regs = radio.registers();
    assert_eq!(regs.state, RadioState::Disabled);
    assert!(regs.events_disabled);
    assert_eq!(regs.packetptr, PacketPtr::TxBuffer);
    assert_eq!(regs.txaddress, 0);
    assert_eq!(regs.frequency, 26);
    assert_eq!(regs.crcinit, 0x0055_5555);

    // The stored header bytes parse back to the same header.
    let stored = [radio.tx_byte(0), radio.tx_byte(1)];
    let parsed = advertising::Header::parse(&stored);
    assert_eq!(parsed.s0(), 0x42);
    assert_eq!(parsed.payload_length(), 4);
    assert_eq!(
        [radio.tx_byte(2), radio.tx_byte(3), radio.tx_byte(4), radio.tx_byte(5)],
        [0xde, 0xad, 0xbe, 0xef]
    );
}

#[test]
fn transmit_data_arms_without_blocking() {
    let mut radio = fresh_radio();
    radio.configure_receiver(RadioCmd::ListenData {
        channel: DataChannel::new(5),
        access_address: 0xAABB_CCDD,
        crc_init: 0x11_2233,
        timeout: false,
    });
    let mut ll = RecordingLinkLayer::default();
    radio.simulate_reception(0x02, 0, &[], true);
    radio.recv_interrupt(Instant::from_micros(100), &mut ll);

    radio.fill_tx_payload(&[0x99]);
    let header = data::Header::new(0x06, 1);
    radio.transmit_data(0xAABB_CCDD, 0x11_2233, header, DataChannel::new(5));

    let regs = radio.registers();
    // Still ramping up: the transmission completes through the hardware
    // shortcut chain, not by software waiting.
    assert_eq!(regs.state, RadioState::TxRu);
    assert_eq!(regs.txaddress, 1);
    assert_eq!(regs.packetptr, PacketPtr::TxBuffer);
    assert!(regs.shorts_ready_start);
    assert!(!regs.shorts_end_disable);

    let stored = [radio.tx_byte(0), radio.tx_byte(1)];
    let parsed = data::Header::parse(&stored);
    assert_eq!(parsed.s0(), 0x06);
    assert_eq!(parsed.payload_length(), 1);
    assert_eq!(radio.tx_byte(2), 0x99);
}

#[test]
fn reconfigure_after_missed_event_skips_the_transmit_wait() {
    let mut radio = fresh_radio();
    let cmd = RadioCmd::ListenData {
        channel: DataChannel::new(8),
        access_address: 0x4040_4040,
        crc_init: 0x55_AA55,
        timeout: false,
    };
    radio.configure_receiver(cmd);
    let mut ll = RecordingLinkLayer::default();
    radio.simulate_reception(0x02, 0, &[], true);
    radio.recv_interrupt(Instant::from_micros(50), &mut ll);
    // Arm a response; the transmitter is still ramping up when the link
    // layer decides to reconfigure.
    radio.transmit_data(0x4040_4040, 0x55_AA55, data::Header::new(0x06, 0), DataChannel::new(8));
    assert_eq!(radio.state(), RadioState::TxRu);

    // With the timeout flag set, no transmission is expected, so the
    // reconfiguration does not wait for one; either way it ends armed for
    // reception.
    let timed_out = RadioCmd::ListenData {
        channel: DataChannel::new(9),
        access_address: 0x4040_4040,
        crc_init: 0x55_AA55,
        timeout: true,
    };
    radio.configure_receiver(timed_out);
    assert_eq!(radio.state(), RadioState::RxRu);
    assert_eq!(radio.registers().frequency, 22);
}

#[test]
fn reconfigure_without_timeout_drains_the_in_flight_transmission() {
    let mut radio = fresh_radio();
    let cmd = RadioCmd::ListenData {
        channel: DataChannel::new(8),
        access_address: 0x4040_4040,
        crc_init: 0x55_AA55,
        timeout: false,
    };
    radio.configure_receiver(cmd);
    let mut ll = RecordingLinkLayer::default();
    radio.simulate_reception(0x02, 0, &[], true);
    radio.recv_interrupt(Instant::from_micros(50), &mut ll);
    radio.transmit_data(0x4040_4040, 0x55_AA55, data::Header::new(0x06, 0), DataChannel::new(8));
    assert_eq!(radio.state(), RadioState::TxRu);

    radio.configure_receiver(cmd);
    assert_eq!(radio.state(), RadioState::RxRu);
}
