//! Model of the radio peripheral's register block and hardware state machine.
//!
//! The real peripheral is a memory-mapped register block that runs its own
//! state machine (ramp-up, active, disable) concurrently with the CPU once a
//! task is triggered. This module models it as a plain record of register
//! values, [`RadioRegs`], together with the state transitions the hardware
//! performs. Task triggers whose completion is bounded by the hardware
//! contract (disabling, a software-driven transmission) are modeled as
//! completing in one step; externally driven events (a packet arriving over
//! the air) are modeled by explicit completion methods that test code or a
//! hardware binding invokes when the corresponding event fires.

use vstd::prelude::*;

verus! {

/// The peripheral's hardware state, as read from its state register.
#[derive(Clone, Copy, PartialEq, Eq, Structural, Debug)]
pub enum RadioState {
    /// Idle; no reception or transmission is in progress.
    Disabled,
    /// Ramping up the receiver.
    RxRu,
    /// Receiver ramped up, waiting for a start trigger.
    RxIdle,
    /// Actively receiving.
    Rx,
    /// Ramping up the transmitter.
    TxRu,
    /// Transmitter ramped up, waiting for a start trigger.
    TxIdle,
    /// Actively transmitting.
    Tx,
}

/// What the peripheral's packet pointer register points at: the DMA engine
/// reads from or writes to this buffer while a packet is on the air, so
/// software must not touch the pointed-to buffer until the completion event
/// fires.
#[derive(Clone, Copy, PartialEq, Eq, Structural, Debug)]
pub enum PacketPtr {
    /// No buffer has been programmed yet.
    Unset,
    /// The driver's transmit buffer.
    TxBuffer,
    /// The driver's receive buffer.
    RxBuffer,
}

/// A record of the radio peripheral's register values.
///
/// Each field stands for one register or register field the driver programs.
/// Register writes on the real hardware reset unnamed fields of the written
/// register to zero; the driver reproduces that by assigning every field of
/// the register it writes.
#[derive(Clone, Copy, PartialEq, Eq, Structural, Debug)]
pub struct RadioRegs {
    /// Hardware state machine state.
    pub state: RadioState,
    /// Radio mode: `true` once configured for 1 Mbit BLE.
    pub mode_ble_1mbit: bool,
    /// Transmit power: `true` once configured to +4 dBm.
    pub txpower_pos4dbm: bool,
    /// Packet configuration: S0 field length in bytes (one bit on air,
    /// byte-rounded in RAM).
    pub pcnf0_s0len_bytes: bool,
    /// Packet configuration: on-air bit width of the Length field.
    pub pcnf0_lflen: u8,
    /// Packet configuration: on-air bit width of the S1 field.
    pub pcnf0_s1len: u8,
    /// Packet configuration: maximum payload length in bytes.
    pub pcnf1_maxlen: u8,
    /// Packet configuration: base address length in bytes.
    pub pcnf1_balen: u8,
    /// Packet configuration: whether on-air data whitening is enabled.
    pub pcnf1_whiteen: bool,
    /// CRC configuration: whether the address field is skipped.
    pub crccnf_skipaddr: bool,
    /// CRC configuration: CRC length in bytes.
    pub crccnf_len: u8,
    /// CRC polynomial.
    pub crcpoly: u32,
    /// CRC initial value (seed).
    pub crcinit: u32,
    /// Base address register 0 (logical address 0, advertising). The hardware
    /// ignores its lowest byte and transmits the upper 24 bits as the low
    /// 24 bits of the access address.
    pub base0: u32,
    /// Address prefix for logical address 0.
    pub prefix0_ap0: u8,
    /// Address prefix for logical address 1.
    pub prefix0_ap1: u8,
    /// Base address register 1 (logical address 1, data), with the same
    /// low-byte semantics as `base0`.
    pub base1: u32,
    /// Shortcut: start transmission or reception immediately after ramp-up.
    pub shorts_ready_start: bool,
    /// Shortcut: return to the disabled state when a packet finishes.
    pub shorts_end_disable: bool,
    /// Shortcut: ramp up the transmitter as soon as the radio is disabled.
    pub shorts_disabled_txen: bool,
    /// Inter-frame spacing in microseconds, enforced by a hardware timer.
    pub tifs: u32,
    /// Frequency register: center frequency minus 2400 MHz.
    pub frequency: u8,
    /// Data whitening initialization value.
    pub datawhiteiv: u8,
    /// Packet pointer register.
    pub packetptr: PacketPtr,
    /// Whether the `DISABLED` event raises an interrupt.
    pub inten_disabled: bool,
    /// Latched `DISABLED` event: set by hardware when the peripheral reaches
    /// the disabled state, cleared by software acknowledgment.
    pub events_disabled: bool,
    /// Whether reception matches on logical address 0.
    pub rxaddresses_addr0: bool,
    /// Whether reception matches on logical address 1.
    pub rxaddresses_addr1: bool,
    /// Logical address used for transmission.
    pub txaddress: u8,
    /// CRC status of the most recently received packet.
    pub crcstatus_ok: bool,
    /// Trim override registers, loaded from factory calibration data on chip
    /// variants that require it.
    pub override0: u32,
    /// Trim override register 1.
    pub override1: u32,
    /// Trim override register 2.
    pub override2: u32,
    /// Trim override register 3.
    pub override3: u32,
    /// Trim override register 4.
    pub override4: u32,
    /// Enable bit of trim override register 4.
    pub override4_enable: bool,
}

impl RadioRegs {
    /// A register block in its reset state: peripheral disabled, no events
    /// latched, everything else zeroed.
    pub fn reset() -> (r: RadioRegs)
        ensures
            r == RadioRegs::spec_reset(),
    {
        RadioRegs {
            state: RadioState::Disabled,
            mode_ble_1mbit: false,
            txpower_pos4dbm: false,
            pcnf0_s0len_bytes: false,
            pcnf0_lflen: 0,
            pcnf0_s1len: 0,
            pcnf1_maxlen: 0,
            pcnf1_balen: 0,
            pcnf1_whiteen: false,
            crccnf_skipaddr: false,
            crccnf_len: 0,
            crcpoly: 0,
            crcinit: 0,
            base0: 0,
            prefix0_ap0: 0,
            prefix0_ap1: 0,
            base1: 0,
            shorts_ready_start: false,
            shorts_end_disable: false,
            shorts_disabled_txen: false,
            tifs: 0,
            frequency: 0,
            datawhiteiv: 0,
            packetptr: PacketPtr::Unset,
            inten_disabled: false,
            events_disabled: false,
            rxaddresses_addr0: false,
            rxaddresses_addr1: false,
            txaddress: 0,
            crcstatus_ok: false,
            override0: 0,
            override1: 0,
            override2: 0,
            override3: 0,
            override4: 0,
            override4_enable: false,
        }
    }

    /// The reset state of the register block.
    pub open spec fn spec_reset() -> RadioRegs {
        RadioRegs {
            state: RadioState::Disabled,
            mode_ble_1mbit: false,
            txpower_pos4dbm: false,
            pcnf0_s0len_bytes: false,
            pcnf0_lflen: 0,
            pcnf0_s1len: 0,
            pcnf1_maxlen: 0,
            pcnf1_balen: 0,
            pcnf1_whiteen: false,
            crccnf_skipaddr: false,
            crccnf_len: 0,
            crcpoly: 0,
            crcinit: 0,
            base0: 0,
            prefix0_ap0: 0,
            prefix0_ap1: 0,
            base1: 0,
            shorts_ready_start: false,
            shorts_end_disable: false,
            shorts_disabled_txen: false,
            tifs: 0,
            frequency: 0,
            datawhiteiv: 0,
            packetptr: PacketPtr::Unset,
            inten_disabled: false,
            events_disabled: false,
            rxaddresses_addr0: false,
            rxaddresses_addr1: false,
            txaddress: 0,
            crcstatus_ok: false,
            override0: 0,
            override1: 0,
            override2: 0,
            override3: 0,
            override4: 0,
            override4_enable: false,
        }
    }

    /// Whether the transmitter is ramping up or actively transmitting.
    pub open spec fn spec_tx_busy(self) -> bool {
        self.state == RadioState::Tx || self.state == RadioState::TxRu
    }

    /// Issues the `DISABLE` task. The hardware contract bounds the ramp-down
    /// time, so the model completes it in one step: the peripheral reaches
    /// the disabled state and latches the `DISABLED` event.
    pub fn task_disable(&mut self)
        ensures
            *final(self) == (RadioRegs {
                state: RadioState::Disabled,
                events_disabled: true,
                ..*old(self)
            }),
    {
        self.state = RadioState::Disabled;
        self.events_disabled = true;
    }

    /// Issues the `RXEN` task: the receiver starts ramping up. Ramp-up takes
    /// on the order of a hundred microseconds, so the model leaves the
    /// peripheral in the ramp-up state; reception completes only when a
    /// packet arrives (see [`crate::radio::BleRadio::simulate_reception`]).
    pub fn task_rxen(&mut self)
        ensures
            *final(self) == (RadioRegs { state: RadioState::RxRu, ..*old(self) }),
    {
        self.state = RadioState::RxRu;
    }

    /// Issues the `TXEN` task with the ready-to-start and end-to-disable
    /// shortcuts wired, so the whole transmission runs without software in
    /// the loop. The hardware contract bounds its duration, so the model
    /// completes it in one step: the peripheral transmits the packet, returns
    /// to the disabled state and latches the `DISABLED` event.
    pub fn task_txen(&mut self)
        requires
            old(self).shorts_ready_start,
            old(self).shorts_end_disable,
        ensures
            *final(self) == (RadioRegs {
                state: RadioState::Disabled,
                events_disabled: true,
                ..*old(self)
            }),
    {
        self.state = RadioState::Disabled;
        self.events_disabled = true;
    }

    /// One step of the autonomously running transmitter, as observed by a
    /// busy-wait: the in-flight transmission finishes, ending disabled (with
    /// the `DISABLED` event latched) when the end-to-disable shortcut is
    /// wired, and idle in the transmitter otherwise.
    pub fn step_tx(&mut self)
        requires
            old(self).spec_tx_busy(),
        ensures
            *final(self) == (RadioRegs {
                state: if old(self).shorts_end_disable {
                    RadioState::Disabled
                } else {
                    RadioState::TxIdle
                },
                events_disabled: old(self).events_disabled || old(self).shorts_end_disable,
                ..*old(self)
            }),
            !final(self).spec_tx_busy(),
    {
        if self.shorts_end_disable {
            self.state = RadioState::Disabled;
            self.events_disabled = true;
        } else {
            self.state = RadioState::TxIdle;
        }
    }

    /// Busy-waits until the transmitter is neither ramping up nor actively
    /// transmitting. The underlying completion latency is hardware-bounded,
    /// which is what makes the busy-loop acceptable; each observation step of
    /// the loop is modeled by [`RadioRegs::step_tx`].
    pub fn wait_tx_end(&mut self)
        ensures
            *final(self) == (RadioRegs {
                state: if old(self).spec_tx_busy() {
                    if old(self).shorts_end_disable {
                        RadioState::Disabled
                    } else {
                        RadioState::TxIdle
                    }
                } else {
                    old(self).state
                },
                events_disabled: old(self).events_disabled || (old(self).spec_tx_busy()
                    && old(self).shorts_end_disable),
                ..*old(self)
            }),
            !final(self).spec_tx_busy(),
    {
        while self.state == RadioState::Tx || self.state == RadioState::TxRu
            invariant
                self.spec_tx_busy() ==> *self == *old(self),
                !self.spec_tx_busy() ==> *self == (RadioRegs {
                    state: if old(self).spec_tx_busy() {
                        if old(self).shorts_end_disable {
                            RadioState::Disabled
                        } else {
                            RadioState::TxIdle
                        }
                    } else {
                        old(self).state
                    },
                    events_disabled: old(self).events_disabled || (old(self).spec_tx_busy()
                        && old(self).shorts_end_disable),
                    ..*old(self)
                }),
            decreases (if self.spec_tx_busy() {
                1int
            } else {
                0int
            }),
        {
            self.step_tx();
        }
    }

    /// Busy-waits while the transmitter is actively transmitting, leaving a
    /// ramp-up in progress untouched. The packet duration is bounded, which
    /// is what makes the busy-loop acceptable; each observation step of the
    /// loop is modeled by [`RadioRegs::step_tx`].
    pub fn wait_while_transmitting(&mut self)
        ensures
            *final(self) == (RadioRegs {
                state: if old(self).state == RadioState::Tx {
                    if old(self).shorts_end_disable {
                        RadioState::Disabled
                    } else {
                        RadioState::TxIdle
                    }
                } else {
                    old(self).state
                },
                events_disabled: old(self).events_disabled || (old(self).state == RadioState::Tx
                    && old(self).shorts_end_disable),
                ..*old(self)
            }),
            final(self).state != RadioState::Tx,
    {
        while self.state == RadioState::Tx
            invariant
                self.state == RadioState::Tx ==> *self == *old(self),
                self.state != RadioState::Tx ==> *self == (RadioRegs {
                    state: if old(self).state == RadioState::Tx {
                        if old(self).shorts_end_disable {
                            RadioState::Disabled
                        } else {
                            RadioState::TxIdle
                        }
                    } else {
                        old(self).state
                    },
                    events_disabled: old(self).events_disabled || (old(self).state
                        == RadioState::Tx && old(self).shorts_end_disable),
                    ..*old(self)
                }),
            decreases (if self.state == RadioState::Tx {
                1int
            } else {
                0int
            }),
        {
            self.step_tx();
        }
    }

    /// Busy-waits until the latched `DISABLED` event is set. The model
    /// completes disable tasks in one step, so the event is already latched
    /// when the wait begins and the loop exits at once; on the real hardware
    /// the ramp-down time is bounded.
    pub fn wait_disabled_event(&self)
        requires
            self.events_disabled,
    {
        while !self.events_disabled
            invariant
                self.events_disabled,
            decreases 0int,
        {
        }
    }

    /// Acquire-side hand-off point: on the real hardware a compiler fence
    /// keeps subsequent reads and writes from being moved ahead of the
    /// preceding reads, so state the peripheral changed asynchronously is
    /// seen before software acts on it. The model is single-threaded, so
    /// nothing moves.
    pub fn fence_acquire(&self) {
    }

    /// Release-side hand-off point: on the real hardware a compiler fence
    /// keeps preceding reads and writes from being moved past the subsequent
    /// writes, so buffer contents written by software are visible to the
    /// peripheral before it is triggered. The model is single-threaded, so
    /// nothing moves.
    pub fn fence_release(&self) {
    }
}

} // verus!
