//! Advertising channel PDU header layout.
//!
//! In RAM the header occupies two bytes: the S0 byte (PDU type and flags) at
//! buffer offset 0 and the Length byte at offset 1, of which only the low
//! 6 bits are meaningful on an advertising channel (the 2 remaining bits are
//! reserved and transmitted as zero). The hardware framing engine repacks
//! these RAM bytes into their on-air bit positions.

use vstd::prelude::*;

verus! {

/// The canonical 32-bit access address every advertising packet uses.
pub const ACCESS_ADDRESS: u32 = 0x8E89_BED6;

/// The fixed CRC seed used on advertising channels (24 bits).
pub const CRC_PRESET: u32 = 0x0055_5555;

/// The S0 byte of a stored advertising header: the byte at buffer offset 0.
pub open spec fn spec_parsed_s0(b0: u8, b1: u8) -> u8 {
    b0
}

/// The payload length of a stored advertising header: the low 6 bits of the
/// byte at buffer offset 1.
pub open spec fn spec_parsed_length(b0: u8, b1: u8) -> u8 {
    b1 & 0x3f
}

/// An advertising channel PDU header: an S0 byte (PDU type and flags) and a
/// 6-bit payload length.
#[derive(Clone, Copy, PartialEq, Eq, Structural, Debug)]
pub struct Header {
    raw: u16,
}

impl Header {
    /// The raw 16-bit header value: S0 in the low byte, the Length byte in
    /// the high byte.
    pub closed spec fn spec_raw(self) -> u16 {
        self.raw
    }

    /// The S0 byte: PDU type and flag bits.
    pub open spec fn spec_s0(self) -> u8 {
        (self.spec_raw() & 0xff) as u8
    }

    /// The payload length in bytes (6 bits, at most 63).
    pub open spec fn spec_payload_length(self) -> u8 {
        ((self.spec_raw() >> 8) & 0x3f) as u8
    }

    /// Creates a header from an S0 byte and a payload length of at most
    /// 63 bytes.
    pub fn new(s0: u8, payload_length: u8) -> (h: Header)
        requires
            payload_length < 64,
        ensures
            h.spec_s0() == s0,
            h.spec_payload_length() == payload_length,
    {
        let raw: u16 = (s0 as u16) | ((payload_length as u16) << 8);
        proof {
            assert(((raw & 0xff) as u8) == s0 && (((raw >> 8) & 0x3f) as u8) == payload_length)
                by (bit_vector)
                requires
                    raw == (s0 as u16) | ((payload_length as u16) << 8),
                    payload_length < 64,
            ;
        }
        Header { raw }
    }

    /// Parses the header from the first two bytes of a packet buffer.
    pub fn parse(buf: &[u8]) -> (h: Header)
        requires
            buf@.len() >= 2,
        ensures
            h.spec_s0() == spec_parsed_s0(buf@[0], buf@[1]),
            h.spec_payload_length() == spec_parsed_length(buf@[0], buf@[1]),
    {
        let b0 = *vstd::slice::slice_index_get(buf, 0);
        let b1 = *vstd::slice::slice_index_get(buf, 1);
        let raw: u16 = (b0 as u16) | ((b1 as u16) << 8);
        proof {
            assert(((raw & 0xff) as u8) == b0 && (((raw >> 8) & 0x3f) as u8) == (b1 & 0x3f))
                by (bit_vector)
                requires
                    raw == (b0 as u16) | ((b1 as u16) << 8),
            ;
        }
        Header { raw }
    }

    /// Returns the raw 16-bit header value.
    pub fn to_u16(self) -> (raw: u16)
        ensures
            raw == self.spec_raw(),
    {
        self.raw
    }

    /// Returns the S0 byte.
    pub fn s0(self) -> (s0: u8)
        ensures
            s0 == self.spec_s0(),
    {
        (self.raw & 0xff) as u8
    }

    /// Returns the payload length in bytes.
    pub fn payload_length(self) -> (len: u8)
        ensures
            len == self.spec_payload_length(),
    {
        let raw = self.raw;
        proof {
            assert((((raw >> 8) as u8) & 0x3f) == (((raw >> 8) & 0x3f) as u8)) by (bit_vector);
        }
        ((raw >> 8) as u8) & 0x3f
    }
}

/// The base/prefix split of an access address: programming the base register
/// with the address shifted up by one byte (its low byte is ignored by
/// hardware) and the prefix register with the address's top byte loses
/// nothing — together the two register values reconstruct the original
/// 32-bit address exactly.
pub proof fn lemma_access_address_split(address: u32)
    ensures
        ((address << 8) >> 8) | ((((address >> 24) as u8) as u32) << 24) == address,
{
    assert(((address << 8) >> 8) | ((((address >> 24) as u8) as u32) << 24) == address)
        by (bit_vector);
}

/// Round trip of the stored header bytes: the bytes the transmit path writes
/// (the S0 byte at offset 0 and the 6-bit payload length at offset 1) parse
/// back to the same S0 and Length values, for every header.
pub proof fn lemma_header_roundtrip(h: Header)
    ensures
        spec_parsed_s0(h.spec_s0(), h.spec_payload_length()) == h.spec_s0(),
        spec_parsed_length(h.spec_s0(), h.spec_payload_length()) == h.spec_payload_length(),
{
    let raw = h.spec_raw();
    assert((((raw >> 8) & 0x3f) as u8) & 0x3f == ((raw >> 8) & 0x3f) as u8) by (bit_vector);
}

} // verus!
