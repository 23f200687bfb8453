//! Data channel PDU header layout.
//!
//! In RAM the header occupies two bytes: the S0 byte (LLID, sequence and
//! more-data bits) at buffer offset 0 and the 8-bit Length byte at offset 1.
//! The hardware framing engine repacks these RAM bytes into their on-air bit
//! positions.

use vstd::prelude::*;

verus! {

/// The S0 byte of a stored data channel header: the byte at buffer offset 0.
pub open spec fn spec_parsed_s0(b0: u8, b1: u8) -> u8 {
    b0
}

/// The payload length of a stored data channel header: the whole byte at
/// buffer offset 1.
pub open spec fn spec_parsed_length(b0: u8, b1: u8) -> u8 {
    b1
}

/// A data channel PDU header: an S0 byte (LLID, sequence and more-data bits)
/// and an 8-bit payload length.
#[derive(Clone, Copy, PartialEq, Eq, Structural, Debug)]
pub struct Header {
    raw: u16,
}

impl Header {
    /// The raw 16-bit header value: S0 in the low byte, the Length byte in
    /// the high byte.
    pub closed spec fn spec_raw(self) -> u16 {
        self.raw
    }

    /// The S0 byte: LLID, sequence and more-data bits.
    pub open spec fn spec_s0(self) -> u8 {
        (self.spec_raw() & 0xff) as u8
    }

    /// The payload length in bytes (8 bits).
    pub open spec fn spec_payload_length(self) -> u8 {
        (self.spec_raw() >> 8) as u8
    }

    /// Creates a header from an S0 byte and a payload length.
    pub fn new(s0: u8, payload_length: u8) -> (h: Header)
        ensures
            h.spec_s0() == s0,
            h.spec_payload_length() == payload_length,
    {
        let raw: u16 = (s0 as u16) | ((payload_length as u16) << 8);
        proof {
            assert(((raw & 0xff) as u8) == s0 && (((raw >> 8) as u8) == payload_length))
                by (bit_vector)
                requires
                    raw == (s0 as u16) | ((payload_length as u16) << 8),
            ;
        }
        Header { raw }
    }

    /// Parses the header from the first two bytes of a packet buffer.
    pub fn parse(buf: &[u8]) -> (h: Header)
        requires
            buf@.len() >= 2,
        ensures
            h.spec_s0() == spec_parsed_s0(buf@[0], buf@[1]),
            h.spec_payload_length() == spec_parsed_length(buf@[0], buf@[1]),
    {
        let b0 = *vstd::slice::slice_index_get(buf, 0);
        let b1 = *vstd::slice::slice_index_get(buf, 1);
        let raw: u16 = (b0 as u16) | ((b1 as u16) << 8);
        proof {
            assert(((raw & 0xff) as u8) == b0 && ((raw >> 8) as u8) == b1)
                by (bit_vector)
                requires
                    raw == (b0 as u16) | ((b1 as u16) << 8),
            ;
        }
        Header { raw }
    }

    /// Returns the raw 16-bit header value.
    pub fn to_u16(self) -> (raw: u16)
        ensures
            raw == self.spec_raw(),
    {
        self.raw
    }

    /// Returns the S0 byte.
    pub fn s0(self) -> (s0: u8)
        ensures
            s0 == self.spec_s0(),
    {
        (self.raw & 0xff) as u8
    }

    /// Returns the payload length in bytes.
    pub fn payload_length(self) -> (len: u8)
        ensures
            len == self.spec_payload_length(),
    {
        (self.raw >> 8) as u8
    }
}

/// Round trip of the stored header bytes: the bytes the transmit path writes
/// (the S0 byte at offset 0 and the payload length at offset 1) parse back to
/// the same S0 and Length values, for every header.
pub proof fn lemma_header_roundtrip(h: Header)
    ensures
        spec_parsed_s0(h.spec_s0(), h.spec_payload_length()) == h.spec_s0(),
        spec_parsed_length(h.spec_s0(), h.spec_payload_length()) == h.spec_payload_length(),
{
}

} // verus!
