//! Physical-layer channel identifiers.
//!
//! Advertising and data channels map deterministically to a radio center
//! frequency and a whitening initialization value; the driver converts a
//! channel to both before arming the peripheral.

use vstd::prelude::*;

verus! {

/// One of the three BLE advertising channels (indices 37, 38 and 39).
#[derive(Clone, Copy, PartialEq, Eq, Structural, Debug)]
pub struct AdvertisingChannel {
    index: u8,
}

impl AdvertisingChannel {
    /// The channel index (37, 38 or 39).
    pub closed spec fn spec_index(self) -> u8 {
        self.index
    }

    /// A valid advertising channel has index 37, 38 or 39.
    pub open spec fn wf(self) -> bool {
        37 <= self.spec_index() <= 39
    }

    /// The center frequency of this channel in MHz. The advertising channels
    /// sit at the band edges and in the middle: 2402, 2426 and 2480 MHz.
    pub open spec fn spec_freq(self) -> u16 {
        if self.spec_index() == 37 {
            2402
        } else if self.spec_index() == 38 {
            2426
        } else {
            2480
        }
    }

    /// The whitening initialization value for this channel: the channel index
    /// with bit 6 set.
    pub open spec fn spec_whitening_iv(self) -> u8 {
        self.spec_index() | 0x40
    }

    /// Creates the advertising channel with the given index.
    pub fn new(index: u8) -> (c: AdvertisingChannel)
        requires
            37 <= index <= 39,
        ensures
            c.wf(),
            c.spec_index() == index,
    {
        AdvertisingChannel { index }
    }

    /// Returns the channel index.
    pub fn index(self) -> (i: u8)
        ensures
            i == self.spec_index(),
    {
        self.index
    }

    /// Returns the center frequency of this channel in MHz.
    pub fn freq(self) -> (f: u16)
        requires
            self.wf(),
        ensures
            f == self.spec_freq(),
    {
        if self.index == 37 {
            2402
        } else if self.index == 38 {
            2426
        } else {
            2480
        }
    }

    /// Returns the whitening initialization value for this channel.
    pub fn whitening_iv(self) -> (iv: u8)
        ensures
            iv == self.spec_whitening_iv(),
    {
        self.index | 0x40
    }
}

/// One of the 37 BLE data channels (indices 0 through 36).
#[derive(Clone, Copy, PartialEq, Eq, Structural, Debug)]
pub struct DataChannel {
    index: u8,
}

impl DataChannel {
    /// The channel index (0 through 36).
    pub closed spec fn spec_index(self) -> u8 {
        self.index
    }

    /// A valid data channel has an index of at most 36.
    pub open spec fn wf(self) -> bool {
        self.spec_index() <= 36
    }

    /// The center frequency of this channel in MHz. Data channels are spaced
    /// 2 MHz apart, skipping the three advertising channels: indices 0-10
    /// cover 2404-2424 MHz and indices 11-36 cover 2428-2478 MHz.
    pub open spec fn spec_freq(self) -> u16 {
        if self.spec_index() <= 10 {
            (2404 + 2 * self.spec_index()) as u16
        } else {
            (2428 + 2 * (self.spec_index() - 11)) as u16
        }
    }

    /// The whitening initialization value for this channel: the channel index
    /// with bit 6 set.
    pub open spec fn spec_whitening_iv(self) -> u8 {
        self.spec_index() | 0x40
    }

    /// Creates the data channel with the given index.
    pub fn new(index: u8) -> (c: DataChannel)
        requires
            index <= 36,
        ensures
            c.wf(),
            c.spec_index() == index,
    {
        DataChannel { index }
    }

    /// Returns the channel index.
    pub fn index(self) -> (i: u8)
        ensures
            i == self.spec_index(),
    {
        self.index
    }

    /// Returns the center frequency of this channel in MHz.
    pub fn freq(self) -> (f: u16)
        requires
            self.wf(),
        ensures
            f == self.spec_freq(),
    {
        if self.index <= 10 {
            2404 + 2 * (self.index as u16)
        } else {
            2428 + 2 * ((self.index as u16) - 11)
        }
    }

    /// Returns the whitening initialization value for this channel.
    pub fn whitening_iv(self) -> (iv: u8)
        ensures
            iv == self.spec_whitening_iv(),
    {
        self.index | 0x40
    }
}

/// Every valid advertising channel's frequency lies between 2402 and
/// 2480 MHz, so the hardware frequency register value `freq - 2400` always
/// fits an 8-bit field.
pub proof fn lemma_advertising_frequency_in_range(c: AdvertisingChannel)
    requires
        c.wf(),
    ensures
        2402 <= c.spec_freq() <= 2480,
        c.spec_freq() - 2400 <= 255,
{
}

/// Every valid data channel's frequency lies between 2404 and 2478 MHz, so
/// the hardware frequency register value `freq - 2400` always fits an 8-bit
/// field.
pub proof fn lemma_data_frequency_in_range(c: DataChannel)
    requires
        c.wf(),
    ensures
        2404 <= c.spec_freq() <= 2478,
        c.spec_freq() - 2400 <= 255,
{
}

} // verus!
