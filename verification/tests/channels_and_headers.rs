//! Tests of channel-to-frequency/whitening mappings, header round trips and
//! payload length clamping.

use ble_radio::link::{advertising, data};
use ble_radio::phy::{AdvertisingChannel, DataChannel};
use ble_radio::radio::clamp_payload_length;
use ble_radio::MIN_PDU_BUF;

#[test]
fn advertising_channel_frequencies() {
    assert_eq!(AdvertisingChannel::new(37).freq(), 2402);
    assert_eq!(AdvertisingChannel::new(38).freq(), 2426);
    assert_eq!(AdvertisingChannel::new(39).freq(), 2480);
}

#[test]
fn advertising_channel_whitening_iv_sets_bit_six() {
    assert_eq!(AdvertisingChannel::new(37).whitening_iv(), 0x65);
    assert_eq!(AdvertisingChannel::new(38).whitening_iv(), 0x66);
    assert_eq!(AdvertisingChannel::new(39).whitening_iv(), 0x67);
}

#[test]
fn data_channel_frequencies_skip_advertising_channels() {
    assert_eq!(DataChannel::new(0).freq(), 2404);
    assert_eq!(DataChannel::new(10).freq(), 2424);
    assert_eq!(DataChannel::new(11).freq(), 2428);
    assert_eq!(DataChannel::new(36).freq(), 2478);
}

#[test]
fn data_channel_whitening_iv_sets_bit_six() {
    assert_eq!(DataChannel::new(0).whitening_iv(), 0x40);
    assert_eq!(DataChannel::new(36).whitening_iv(), 0x64);
}

#[test]
fn frequency_register_values_fit_eight_bits() {
    for index in 37..=39u8 {
        let f = AdvertisingChannel::new(index).freq();
        assert!((2402..=2480).contains(&f));
        assert!(f - 2400 <= 255);
    }
    for index in 0..=36u8 {
        let f = DataChannel::new(index).freq();
        assert!((2404..=2478).contains(&f));
        assert!(f - 2400 <= 255);
    }
}

#[test]
fn advertising_header_roundtrip_all_lengths() {
    for len in 0..64u8 {
        let h = advertising::Header::new(0x42, len);
        let stored = [h.s0(), h.payload_length()];
        let parsed = advertising::Header::parse(&stored);
        assert_eq!(parsed.s0(), 0x42);
        assert_eq!(parsed.payload_length(), len);
    }
}

#[test]
fn advertising_header_parse_masks_reserved_bits() {
    // The two reserved bits above the 6-bit length are ignored.
    let parsed = advertising::Header::parse(&[0x01, 0xff]);
    assert_eq!(parsed.s0(), 0x01);
    assert_eq!(parsed.payload_length(), 0x3f);
}

#[test]
fn data_header_roundtrip_all_lengths() {
    for len in [0u8, 1, 27, 37, 255] {
        let h = data::Header::new(0x05, len);
        let stored = [h.s0(), h.payload_length()];
        let parsed = data::Header::parse(&stored);
        assert_eq!(parsed.s0(), 0x05);
        assert_eq!(parsed.payload_length(), len);
    }
}

#[test]
fn data_header_to_u16_packs_length_high() {
    let h = data::Header::new(0x0a, 0x20);
    assert_eq!(h.to_u16(), 0x200a);
}

#[test]
fn clamp_keeps_lengths_within_capacity() {
    assert_eq!(clamp_payload_length(0), 0);
    assert_eq!(clamp_payload_length(10), 10);
    assert_eq!(clamp_payload_length((MIN_PDU_BUF - 2) as u8), MIN_PDU_BUF - 2);
}

#[test]
fn clamp_caps_overclaimed_lengths() {
    assert_eq!(clamp_payload_length((MIN_PDU_BUF - 1) as u8), MIN_PDU_BUF - 2);
    assert_eq!(clamp_payload_length(255), MIN_PDU_BUF - 2);
}

#[test]
fn advertising_access_address_split() {
    // The base register receives the address shifted up by one byte (its
    // low byte is ignored by hardware); the prefix receives the top byte.
    let base = advertising::ACCESS_ADDRESS << 8;
    let prefix = (advertising::ACCESS_ADDRESS >> 24) as u8;
    assert_eq!(advertising::ACCESS_ADDRESS, 0x8E89_BED6);
    assert_eq!(base, 0x89BE_D600);
    assert_eq!(prefix, 0x8E);
    assert_eq!((base >> 8) | ((prefix as u32) << 24), advertising::ACCESS_ADDRESS);
}
