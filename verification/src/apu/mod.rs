//! The audio processing unit: the frame counter and the first pulse channel.
//! See https://www.nesdev.org/wiki/APU

pub mod frame_counter;
pub mod length_counter;
pub mod pulse;
pub mod sweep;

use crate::bus::{Clock, CycleCount, Device, Memory};
use crate::util::{bit_of, lemma_bit_masks, lemma_with_bit, with_bit};
use frame_counter::FrameCounter;
use pulse::PulseChannel;
use vstd::prelude::*;

verus! {

/// The status register `$4015`: channel enables (bits 0-4), frame interrupt (bit 6),
/// DMC interrupt (bit 7).
/// https://www.nesdev.org/wiki/APU#Status_($4015)
#[derive(Clone, Copy, Debug, PartialEq, Eq, Structural)]
pub struct Status(pub u8);

impl Status {
    /// Write the register: the frame interrupt flag is kept, the DMC interrupt cleared.
    pub fn write(&mut self, data: u8)
        ensures
            final(self).0 == with_bit(with_bit(data, 6, bit_of(old(self).0, 6)), 7, false),
    {
        let frame_interrupt = crate::util::nth_bit(self.0, 6);
        self.0 = crate::util::set_bit(crate::util::set_bit(data, 6, frame_interrupt), 7, false);
    }

    /// Read the register; reading clears the frame interrupt flag first.
    pub fn read(&mut self) -> (r: u8)
        ensures
            final(self).0 == with_bit(old(self).0, 6, false),
            r == final(self).0,
    {
        self.0 = crate::util::set_bit(self.0, 6, false);
        self.0
    }

    /// The first pulse channel is enabled.
    pub fn pulse_1(&self) -> (r: bool)
        ensures
            r == bit_of(self.0, 0),
    {
        crate::util::nth_bit(self.0, 0)
    }
}

/// https://www.nesdev.org/wiki/APU
#[derive(Clone, Copy, Debug, PartialEq, Eq, Structural)]
pub struct Apu {
    pub frame_counter: FrameCounter,
    pub pulse_channel: PulseChannel,
    pub status: Status,
}

impl Apu {
    /// A silent APU.
    pub fn new() -> (r: Apu)
        ensures
            r.pulse_channel.wf(),
            r.frame_counter == (FrameCounter { cycle_count: 0, flags: 0 }),
            r.pulse_channel == PulseChannel::default_spec(),
            r.status.0 == 0,
    {
        Apu {
            frame_counter: FrameCounter::default(),
            pulse_channel: PulseChannel::default(),
            status: Status(0),
        }
    }
}

impl PulseChannel {
    /// The channel a power-on gives.
    pub open spec fn default_spec() -> PulseChannel {
        PulseChannel {
            control: 0,
            sweep: sweep::Sweep { flags: 0, timer: 0 },
            length_counter: length_counter::LengthCounter {
                low: 0,
                high: 0,
                length: 0,
                state: length_counter::State::Disabled,
            },
            current_step: 0,
            counter: 0,
        }
    }
}

impl Memory for Apu {
    open spec fn readable(&self, address: u16) -> bool {
        true
    }

    /// `$4017` reads the frame counter, `$4015` the status (clearing the frame interrupt);
    /// the channel registers and the rest read as 0.
    open spec fn read_effect(&self, address: u16) -> (Apu, u8) {
        if address == 0x4017 {
            (*self, self.frame_counter.flags)
        } else if address == 0x4015 {
            let s = with_bit(self.status.0, 6, false);
            (Apu { status: Status(s), ..*self }, s)
        } else {
            (*self, 0)
        }
    }

    open spec fn writable(&self, address: u16, data: u8) -> bool {
        true
    }

    /// `$4017` writes the frame counter; `$4015` the status, which also enables or
    /// disables the pulse channel; `$4000-$4003` the pulse channel; the rest is ignored.
    open spec fn write_effect(&self, address: u16, data: u8) -> Apu {
        if address == 0x4017 {
            Apu { frame_counter: FrameCounter { cycle_count: 0, flags: data }, ..*self }
        } else if address == 0x4015 {
            let s = with_bit(with_bit(data, 6, bit_of(self.status.0, 6)), 7, false);
            Apu {
                status: Status(s),
                pulse_channel: PulseChannel {
                    length_counter: length_counter::LengthCounter {
                        state: if bit_of(s, 0) {
                            length_counter::State::Enabled
                        } else {
                            length_counter::State::Disabled
                        },
                        ..self.pulse_channel.length_counter
                    },
                    ..self.pulse_channel
                },
                ..*self
            }
        } else if 0x4000 <= address <= 0x4003 {
            Apu { pulse_channel: self.pulse_channel.write_effect(address, data), ..*self }
        } else {
            *self
        }
    }

    fn read_byte(&mut self, address: u16) -> (r: u8) {
        if address == 0x4017 {
            self.frame_counter.read()
        } else if address == 0x4015 {
            self.status.read()
        } else if self.pulse_channel.contains(address) {
            self.pulse_channel.read_byte(address)
        } else {
            0
        }
    }

    fn write_byte(&mut self, address: u16, data: u8) {
        if address == 0x4017 {
            self.frame_counter.write(data);
        } else if address == 0x4015 {
            self.status.write(data);
            self.pulse_channel.set_enabled(self.status.pulse_1());
        } else if self.pulse_channel.contains(address) {
            self.pulse_channel.write_byte(address, data);
        }
    }
}

impl Device for Apu {
    open spec fn maps(&self, address: u16) -> bool {
        address != 0x4014 && 0x4000 <= address <= 0x4017
    }

    /// `$4014` is the OAM DMA port of the PPU, in the middle of the APU registers.
    fn contains(&self, address: u16) -> (r: bool) {
        let r = address != 0x4014 && 0x4000 <= address && address <= 0x4017;
        assert(r == self.maps(address));
        r
    }
}

impl Apu {
    /// Advance by `cpu_cycles`: the frame counter runs, and its frame clock (or none)
    /// clocks the pulse channel.
    pub fn tick_impl(&mut self, cpu_cycles: CycleCount)
        requires
            old(self).pulse_channel.wf(),
        ensures
            final(self).pulse_channel.wf(),
            final(self).status == old(self).status,
            ({
                let fc = old(self).frame_counter;
                let frame = if fc.cycle_count >= frame_counter::sequence_length(fc.flags) {
                    Some(frame_counter::Frame::Half)
                } else if fc.cycle_count == 7_459 || fc.cycle_count == 22_373 {
                    Some(frame_counter::Frame::Quarter)
                } else if fc.cycle_count == 14_915 {
                    Some(frame_counter::Frame::Half)
                } else {
                    None
                };
                let count = if fc.cycle_count >= frame_counter::sequence_length(fc.flags) {
                    cpu_cycles
                } else {
                    fc.cycle_count.wrapping_add(cpu_cycles)
                };
                &&& final(self).frame_counter == FrameCounter { cycle_count: count, flags: fc.flags }
                &&& final(self).pulse_channel == old(self).pulse_channel.ticked(frame)
            }),
    {
        let maybe_frame = self.frame_counter.tick(cpu_cycles);
        self.pulse_channel.tick(maybe_frame);
        if self.frame_counter.cycle_count % 40 == 0 {
            let _sample = self.pulse_channel.sample();
        }
    }
}

/// A write of `$4000` through the APU halts the pulse length counter exactly when bit 5
/// of the byte is set, whatever the other bits hold; the status and the frame counter
/// stay as they were.
pub proof fn lemma_pulse_control_write(apu: Apu, data: u8)
    ensures
        ({
            let a = apu.write_effect(0x4000, data);
            &&& a.pulse_channel.control == data
            &&& a.pulse_channel.length_counter.state == (if data & 0x20 != 0 {
                length_counter::State::Halted
            } else {
                apu.pulse_channel.length_counter.state
            })
            &&& a.pulse_channel.length_counter.length == apu.pulse_channel.length_counter.length
            &&& a.status == apu.status
            &&& a.frame_counter == apu.frame_counter
        }),
{
    pulse::lemma_control_write(apu.pulse_channel, data);
}

/// With the halt bit (bit 5) written through `$4000`, the pulse length counter no longer
/// counts down on a half-frame clock; with it clear on an enabled counter, the clock
/// takes one off a length that is not zero, so the note ends.
pub proof fn lemma_halt_stops_count(apu: Apu, data: u8)
    ensures
        ({
            let c = apu.write_effect(0x4000, data).pulse_channel.length_counter;
            &&& data & 0x20 != 0 ==> c.ticked() == c
            &&& data & 0x20 == 0 && apu.pulse_channel.length_counter.state
                == length_counter::State::Enabled && c.length > 0 ==> c.ticked().length
                == c.length - 1
        }),
{
    pulse::lemma_control_write(apu.pulse_channel, data);
}

/// A write of `$4015` enables the pulse channel's length counter exactly when bit 0 of
/// the byte is set, and disables it otherwise; the status keeps the frame interrupt
/// (bit 6), clears the DMC interrupt (bit 7) and takes bits 0-5 from the byte.
pub proof fn lemma_status_write(apu: Apu, data: u8)
    ensures
        ({
            let a = apu.write_effect(0x4015, data);
            &&& a.pulse_channel.length_counter.state == (if data & 0x01 != 0 {
                length_counter::State::Enabled
            } else {
                length_counter::State::Disabled
            })
            &&& a.status.0 & 0x80 == 0
            &&& (a.status.0 & 0x40 != 0) == (apu.status.0 & 0x40 != 0)
            &&& forall|k: u8| k < 6 ==> bit_of(#[trigger] a.status.0, k) == bit_of(data, k)
            &&& a.pulse_channel.length_counter.length == apu.pulse_channel.length_counter.length
            &&& a.pulse_channel.control == apu.pulse_channel.control
            &&& a.frame_counter == apu.frame_counter
        }),
{
    let inner = with_bit(data, 6, bit_of(apu.status.0, 6));
    let s = with_bit(inner, 7, false);
    lemma_with_bit(inner, 7, false, 0);
    lemma_with_bit(data, 6, bit_of(apu.status.0, 6), 0);
    lemma_with_bit(inner, 7, false, 6);
    lemma_with_bit(data, 6, bit_of(apu.status.0, 6), 6);
    lemma_with_bit(inner, 7, false, 7);
    lemma_bit_masks(s);
    lemma_bit_masks(data);
    lemma_bit_masks(apu.status.0);
    assert forall|k: u8| k < 6 implies bit_of(s, k) == bit_of(data, k) by {
        lemma_with_bit(inner, 7, false, k);
        lemma_with_bit(data, 6, bit_of(apu.status.0, 6), k);
    }
    assert(s & 0x80 == 0) by {
        assert(!bit_of(s, 7));
        assert((s & 0x80 != 0) == bit_of(s, 7));
    }
}

/// A read of `$4015` returns the status with the frame interrupt (bit 6) cleared, and
/// clears it in the APU; the other bits stay.
pub proof fn lemma_status_read(apu: Apu)
    ensures
        ({
            let (a, value) = apu.read_effect(0x4015);
            &&& value == a.status.0
            &&& a.status.0 & 0x40 == 0
            &&& forall|k: u8| k < 8 && k != 6 ==> bit_of(#[trigger] a.status.0, k) == bit_of(
                apu.status.0,
                k,
            )
            &&& a.pulse_channel == apu.pulse_channel
            &&& a.frame_counter == apu.frame_counter
        }),
{
    let s = with_bit(apu.status.0, 6, false);
    lemma_with_bit(apu.status.0, 6, false, 6);
    lemma_bit_masks(s);
    assert forall|k: u8| k < 8 && k != 6 implies bit_of(s, k) == bit_of(apu.status.0, k) by {
        lemma_with_bit(apu.status.0, 6, false, k);
    }
}

} // verus!
