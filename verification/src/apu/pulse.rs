//! A pulse (square wave) channel.
//! See https://www.nesdev.org/wiki/APU_Pulse

use super::frame_counter::Frame;
use super::length_counter::{LengthCounter, State};
use super::sweep::Sweep;
use crate::bus::{Device, Memory};
use crate::util::{bit_of, lemma_bit_masks, nth_bit};
use vstd::prelude::*;

verus! {

/// The output level of each of the eight steps, for each duty cycle.
pub open spec fn waveform(duty: u8, step: u8) -> u8 {
    let w: Seq<Seq<u8>> = seq![
        seq![0u8, 1, 0, 0, 0, 0, 0, 0],
        seq![0u8, 1, 1, 0, 0, 0, 0, 0],
        seq![0u8, 1, 1, 1, 1, 0, 0, 0],
        seq![1u8, 0, 0, 1, 1, 1, 1, 1],
    ];
    w[duty as int][step as int]
}

fn waveform_at(duty: u8, step: u8) -> (r: u8)
    requires
        duty < 4,
        step < 8,
    ensures
        r == waveform(duty, step),
{
    let table: [[u8; 8]; 4] = [
        [0, 1, 0, 0, 0, 0, 0, 0],
        [0, 1, 1, 0, 0, 0, 0, 0],
        [0, 1, 1, 1, 1, 0, 0, 0],
        [1, 0, 0, 1, 1, 1, 1, 1],
    ];
    let row = table[duty as usize];
    let v = row[step as usize];
    proof {
        let w: Seq<Seq<u8>> = seq![
            seq![0u8, 1, 0, 0, 0, 0, 0, 0],
            seq![0u8, 1, 1, 0, 0, 0, 0, 0],
            seq![0u8, 1, 1, 1, 1, 0, 0, 0],
            seq![1u8, 0, 0, 1, 1, 1, 1, 1],
        ];
        assert(table@[0]@ =~= w[0]);
        assert(table@[1]@ =~= w[1]);
        assert(table@[2]@ =~= w[2]);
        assert(table@[3]@ =~= w[3]);
    }
    v
}

/// https://www.nesdev.org/wiki/APU_Pulse
#[derive(Clone, Copy, Debug, PartialEq, Eq, Structural)]
pub struct PulseChannel {
    /// Register `$4000`: bits 0-3 envelope period, bit 4 constant volume, bit 5 length
    /// counter halt, bits 6-7 duty cycle.
    pub control: u8,
    pub sweep: Sweep,
    pub length_counter: LengthCounter,
    /// The step of the waveform sequencer, 0 to 7.
    pub current_step: u8,
    pub counter: u8,
}

impl PulseChannel {
    /// The sequencer step is one of the eight.
    pub open spec fn wf(self) -> bool {
        self.current_step < 8
    }

    /// A silent channel.
    pub fn default() -> (r: PulseChannel)
        ensures
            r.wf(),
            r == (PulseChannel {
                control: 0,
                sweep: Sweep { flags: 0, timer: 0 },
                length_counter: LengthCounter { low: 0, high: 0, length: 0, state: State::Disabled },
                current_step: 0,
                counter: 0,
            }),
    {
        PulseChannel {
            control: 0,
            sweep: Sweep::default(),
            length_counter: LengthCounter::default(),
            current_step: 0,
            counter: 0,
        }
    }

    /// The channel after a clock: a half frame counts the length down and applies the
    /// sweep to the period; no frame clock steps the sequencer, which moves on each time
    /// its counter, reloaded from the low byte of the period, runs out. Quarter frames
    /// change nothing.
    pub open spec fn ticked(self, frame: Option<Frame>) -> PulseChannel {
        match frame {
            Some(Frame::Quarter) => self,
            Some(Frame::Half) => {
                let lc = self.length_counter.ticked();
                let (sweep, target) = self.sweep.ticked(lc.timer_of() as int);
                PulseChannel {
                    length_counter: match target {
                        Some(t) => lc.with_timer(t as u16),
                        None => lc,
                    },
                    sweep,
                    ..self
                }
            },
            None => if self.counter == 0 {
                PulseChannel {
                    counter: (self.length_counter.timer_of() % 256) as u8,
                    current_step: ((self.current_step + 1) % 8) as u8,
                    ..self
                }
            } else {
                PulseChannel { counter: (self.counter - 1) as u8, ..self }
            },
        }
    }

    /// The sweep target of the current period.
    pub fn target_period(&mut self) -> (r: i16)
        ensures
            r == old(self).sweep.target_of(old(self).length_counter.timer_of() as int),
            *final(self) == *old(self),
    {
        let timer = self.length_counter.timer() as i16;
        self.sweep.target_period(timer)
    }

    /// Enable or disable the length counter.
    pub fn set_enabled(&mut self, enabled: bool)
        ensures
            *final(self) == (PulseChannel {
                length_counter: LengthCounter {
                    state: if enabled {
                        State::Enabled
                    } else {
                        State::Disabled
                    },
                    ..old(self).length_counter
                },
                ..*old(self)
            }),
    {
        self.length_counter.set_state(State::from(enabled));
    }

    /// The channel sounds.
    pub fn active(&self) -> (r: bool)
        ensures
            r == (self.length_counter.state == State::Enabled && self.length_counter.timer_of()
                > 0),
    {
        self.length_counter.active()
    }

    /// Clock the channel.
    pub fn tick(&mut self, frame: Option<Frame>)
        requires
            old(self).wf(),
        ensures
            final(self).wf(),
            *final(self) == old(self).ticked(frame),
    {
        match frame {
            Some(Frame::Quarter) => {},
            Some(Frame::Half) => {
                self.length_counter.tick();
                let period = self.length_counter.timer() as i16;
                let target_period = self.sweep.tick(period);
                if let Some(target_period) = target_period {
                    self.length_counter.set_timer(target_period as u16);
                }
            },
            None => {
                // Sequencer
                if self.counter == 0 {
                    self.counter = (self.length_counter.timer() % 256) as u8;
                    self.current_step = (self.current_step + 1) % 8;
                } else {
                    self.counter -= 1;
                }
            },
        }
    }

    /// The output level: the waveform of the duty cycle at the sequencer step while the
    /// channel sounds with a period of at least 8, else 0.
    pub fn sample(&self) -> (r: u8)
        requires
            self.wf(),
        ensures
            r == (if self.length_counter.state == State::Enabled && self.length_counter.timer_of()
                >= 8 {
                waveform(self.control >> 6u8, self.current_step)
            } else {
                0
            }),
    {
        if self.length_counter.active() && self.length_counter.timer() >= 8 {
            let c = self.control;
            assert(c >> 6u8 < 4) by (bit_vector);
            waveform_at(c >> 6, self.current_step)
        } else {
            0
        }
    }
}

impl Memory for PulseChannel {
    open spec fn readable(&self, address: u16) -> bool {
        true
    }

    open spec fn read_effect(&self, address: u16) -> (PulseChannel, u8) {
        (*self, 0)
    }

    open spec fn writable(&self, address: u16, data: u8) -> bool {
        0x4000 <= address <= 0x4003
    }

    /// `$4000` sets the control register (and halts the length counter when its halt bit
    /// is set), `$4001` the sweep, `$4002` and `$4003` the period and length.
    open spec fn write_effect(&self, address: u16, data: u8) -> PulseChannel {
        if address == 0x4000 {
            PulseChannel {
                control: data,
                length_counter: if bit_of(data, 5) {
                    LengthCounter { state: State::Halted, ..self.length_counter }
                } else {
                    self.length_counter
                },
                ..*self
            }
        } else if address == 0x4001 {
            PulseChannel { sweep: Sweep { flags: data, ..self.sweep }, ..*self }
        } else if address == 0x4002 {
            PulseChannel { length_counter: LengthCounter { low: data, ..self.length_counter }, ..*self }
        } else {
            PulseChannel { length_counter: self.length_counter.written_high(data), ..*self }
        }
    }

    fn write_byte(&mut self, address: u16, data: u8) {
        if address == 0x4000 {
            self.control = data;
            if nth_bit(self.control, 5) {
                self.length_counter.set_state(State::Halted);
            }
        } else if address == 0x4001 {
            self.sweep.write(data);
        } else if address == 0x4002 {
            self.length_counter.set_low(data);
        } else {
            self.length_counter.set_high(data);
        }
    }

    /// Registers are write-only: this is open bus.
    fn read_byte(&mut self, _address: u16) -> (r: u8) {
        0
    }
}

impl Device for PulseChannel {
    open spec fn maps(&self, address: u16) -> bool {
        0x4000 <= address <= 0x4003
    }

    fn contains(&self, address: u16) -> (r: bool) {
        let r = 0x4000 <= address && address <= 0x4003;
        assert(r == self.maps(address));
        r
    }
}

/// A write of `$4000` stores the control byte and halts the length counter exactly when
/// bit 5 of the byte (length counter halt) is set; otherwise the counter keeps its state.
/// The other bits (duty, constant volume, envelope) do not touch the counter, and the
/// sweep, the counter's length and timer, and the sequencer stay as they were.
pub proof fn lemma_control_write(p: PulseChannel, data: u8)
    ensures
        ({
            let q = p.write_effect(0x4000, data);
            &&& q.control == data
            &&& q.length_counter.state == (if data & 0x20 != 0 {
                State::Halted
            } else {
                p.length_counter.state
            })
            &&& q.length_counter.low == p.length_counter.low
            &&& q.length_counter.high == p.length_counter.high
            &&& q.length_counter.length == p.length_counter.length
            &&& q.sweep == p.sweep
            &&& q.current_step == p.current_step
            &&& q.counter == p.counter
        }),
{
    lemma_bit_masks(data);
}

} // verus!
