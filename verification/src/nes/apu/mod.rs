//! The audio processing unit: two pulse channels, a triangle and a noise
//! channel, the first three clocked by the frame counter.

mod adressing;
pub mod channel;
pub mod divider;
pub mod envelope;
pub mod length_counter;
pub mod noise_channel;
pub mod pulse_channel;
pub mod sweeper;
pub mod triangle_channel;

use vstd::prelude::*;
use crate::bits::lemma_byte;

use crate::nes::apu::noise_channel::NoiseChannel;
use crate::nes::apu::pulse_channel::PulseChannel;
use crate::nes::apu::triangle_channel::TriangleChannel;

verus! {

pub const ENVELOPE_AND_LINEARCOUNTER: u8 = 0b10;

pub const LENGTHCOUNTER_AND_SWEEP: u8 = 0b01;

/// The frame counter steps at ~240 Hz, which is every 3728.5 APU cycles. The
/// half cycle only shifts where the IRQ lands inside a step, so rounding it
/// away costs one APU cycle per sequence and nothing audible.
pub const FRAME_COUNTER_PERIOD: u16 = 3729;

/// The length of the frame counter's repeating sequence in mode 0 and 1.
pub open spec fn frame_sequence_len(mode: u8) -> int {
    if mode == 0 { 4 } else { 5 }
}

/// What step `step` of the frame counter sequence in mode `mode` clocks:
/// bit 1 the envelopes and the linear counter, bit 0 the length counters and
/// sweeps.
pub open spec fn frame_rule(mode: u8, step: int) -> u8 {
    if mode == 0 {
        seq![0b10u8, 0b11, 0b10, 0b11][step]
    } else {
        seq![0b10u8, 0b11, 0b10, 0, 0b11][step]
    }
}

fn frame_counter_rule(mode: u8, step: usize) -> (r: u8)
    requires
        mode <= 1,
        step < frame_sequence_len(mode),
    ensures
        r == frame_rule(mode, step as int),
{
    if mode == 0 {
        let rules: [u8; 4] = [
            ENVELOPE_AND_LINEARCOUNTER,
            0b11,
            ENVELOPE_AND_LINEARCOUNTER,
            0b11,
        ];
        assert(rules@ =~= seq![0b10u8, 0b11, 0b10, 0b11]);
        rules[step]
    } else {
        let rules: [u8; 5] = [
            ENVELOPE_AND_LINEARCOUNTER,
            0b11,
            ENVELOPE_AND_LINEARCOUNTER,
            0,
            0b11,
        ];
        assert(rules@ =~= seq![0b10u8, 0b11, 0b10, 0, 0b11]);
        rules[step]
    }
}

fn frame_counter_len(mode: u8) -> (r: usize)
    requires
        mode <= 1,
    ensures
        r == frame_sequence_len(mode),
{
    if mode == 0 { 4 } else { 5 }
}

/// The four sound channels the mixer combines.
#[derive(Copy, Clone, Debug)]
pub struct APUChannels {
    pub pulse_1: PulseChannel,
    pub pulse_2: PulseChannel,
    pub triangle: TriangleChannel,
    pub noise: NoiseChannel,
}

impl APUChannels {
    pub open spec fn wf(self) -> bool {
        &&& self.pulse_1.wf()
        &&& self.pulse_2.wf()
        &&& self.triangle.wf()
        &&& self.noise.wf()
    }

    /// All four channels silent and disabled.
    pub fn new() -> (c: APUChannels)
        ensures
            c == (APUChannels {
                pulse_1: PulseChannel::power_on(),
                pulse_2: PulseChannel::power_on(),
                triangle: TriangleChannel::power_on(),
                noise: NoiseChannel::power_on(),
            }),
            c.wf(),
            c.pulse_1.length().count() == 0 && c.pulse_2.length().count() == 0,
            c.triangle.length().count() == 0 && c.noise.length().count() == 0,
    {
        return APUChannels {
            pulse_1: PulseChannel::new(),
            pulse_2: PulseChannel::new(),
            triangle: TriangleChannel::new(),
            noise: NoiseChannel::new(),
        };
    }
}

/// The APU: its channels, the status register and the frame counter.
#[derive(Copy, Clone, Debug)]
pub struct APU {
    channels: APUChannels,
    status: u8,
    frame_counter_mode: u8,
    frame_counter: usize,
    frame_divider: u16,
}

impl APU {
    pub closed spec fn chans(self) -> APUChannels {
        self.channels
    }

    pub closed spec fn status_reg(self) -> u8 {
        self.status
    }

    pub closed spec fn mode(self) -> u8 {
        self.frame_counter_mode
    }

    pub closed spec fn step(self) -> int {
        self.frame_counter as int
    }

    pub closed spec fn divider(self) -> u16 {
        self.frame_divider
    }

    /// The mode is 0 or 1, the step indexes its sequence, the divider stays
    /// below the frame counter period.
    pub closed spec fn wf(self) -> bool {
        &&& self.channels.wf()
        &&& self.frame_counter_mode <= 1
        &&& self.frame_counter < frame_sequence_len(self.frame_counter_mode)
        &&& self.frame_divider < FRAME_COUNTER_PERIOD
    }

    pub closed spec fn length_and_sweep_ticked(self) -> APU {
        APU {
            channels: APUChannels {
                pulse_1: self.channels.pulse_1.length_ticked().sweep_ticked(),
                pulse_2: self.channels.pulse_2.length_ticked().sweep_ticked(),
                triangle: self.channels.triangle.length_ticked(),
                ..self.channels
            },
            ..self
        }
    }

    pub closed spec fn envelope_and_linear_ticked(self) -> APU {
        APU {
            channels: APUChannels {
                pulse_1: self.channels.pulse_1.envelope_ticked(),
                pulse_2: self.channels.pulse_2.envelope_ticked(),
                triangle: self.channels.triangle.linear_ticked(),
                ..self.channels
            },
            ..self
        }
    }

    /// One frame-counter step: apply the step's rule, then move to the next
    /// step of the sequence.
    pub closed spec fn frame_ticked(self) -> APU {
        let rule = frame_rule(self.frame_counter_mode, self.frame_counter as int);
        let a = if rule & ENVELOPE_AND_LINEARCOUNTER != 0 { self.envelope_and_linear_ticked() } else { self };
        let b = if rule & LENGTHCOUNTER_AND_SWEEP != 0 { a.length_and_sweep_ticked() } else { a };
        APU {
            frame_counter: ((self.frame_counter + 1) % frame_sequence_len(self.frame_counter_mode)) as usize,
            ..b
        }
    }

    /// One APU cycle: the frame divider counts up and steps the frame counter
    /// when it reaches its period; both pulse timers tick.
    pub closed spec fn half_clock_ticked(self) -> APU {
        let d = (self.frame_divider + 1) as u16;
        let a = if d >= FRAME_COUNTER_PERIOD {
            APU { frame_divider: 0, ..self }.frame_ticked()
        } else {
            APU { frame_divider: d, ..self }
        };
        APU {
            channels: APUChannels {
                pulse_1: a.channels.pulse_1.ticked(),
                pulse_2: a.channels.pulse_2.ticked(),
                ..a.channels
            },
            ..a
        }
    }

    pub closed spec fn full_clock_ticked(self) -> APU {
        APU { channels: APUChannels { triangle: self.channels.triangle.ticked(), ..self.channels }, ..self }
    }

    /// A write to 0x4017: the mode is bit 7, the sequence and divider restart,
    /// and in mode 1 the first step is clocked at once.
    pub closed spec fn frame_counter_set(self, data: u8) -> APU {
        let mode = (data & 0x80) >> 7u8;
        let a = APU { frame_counter_mode: mode, frame_counter: 0, frame_divider: 0, ..self };
        if mode == 1 { a.envelope_and_linear_ticked().length_and_sweep_ticked() } else { a }
    }

    /// The APU after `data` is written to CPU address `addr`.
    pub closed spec fn after_write(self, addr: u16, data: u8) -> APU {
        if 0x4000 <= addr <= 0x4003 {
            APU {
                channels: APUChannels {
                    pulse_1: self.channels.pulse_1.after_set((addr - 0x4000) as u8, data),
                    ..self.channels
                },
                ..self
            }
        } else if 0x4004 <= addr <= 0x4007 {
            APU {
                channels: APUChannels {
                    pulse_2: self.channels.pulse_2.after_set((addr - 0x4004) as u8, data),
                    ..self.channels
                },
                ..self
            }
        } else if addr == 0x4015 {
            APU { status: data, ..self }
        } else if addr == 0x4017 {
            self.frame_counter_set(data)
        } else {
            self
        }
    }

    /// The APU at power-on: its channels at power-on, status and frame
    /// counter zero.
    pub closed spec fn power_on() -> APU {
        APU {
            channels: APUChannels {
                pulse_1: PulseChannel::power_on(),
                pulse_2: PulseChannel::power_on(),
                triangle: TriangleChannel::power_on(),
                noise: NoiseChannel::power_on(),
            },
            status: 0,
            frame_counter_mode: 0,
            frame_counter: 0,
            frame_divider: 0,
        }
    }

    pub fn new() -> (a: APU)
        ensures
            a == APU::power_on(),
            a.wf(),
            a.mode() == 0 && a.step() == 0 && a.divider() == 0 && a.status_reg() == 0,
    {
        APU {
            channels: APUChannels::new(),
            status: 0,
            frame_counter_mode: 0,
            frame_counter: 0,
            frame_divider: 0,
        }
    }

    /// The channels, for mixing.
    pub fn channels(&self) -> (c: &APUChannels)
        ensures
            *c == self.chans(),
    {
        &self.channels
    }

    fn tick_length_counter_and_sweep(&mut self)
        requires
            old(self).wf(),
        ensures
            final(self).wf(),
            *final(self) == old(self).length_and_sweep_ticked(),
    {
        self.channels.pulse_1.tick_length_counter();
        self.channels.pulse_1.tick_sweep();

        self.channels.pulse_2.tick_length_counter();
        self.channels.pulse_2.tick_sweep();

        self.channels.triangle.tick_length_counter();
    }

    fn tick_envelope_and_linear_counter(&mut self)
        requires
            old(self).wf(),
        ensures
            final(self).wf(),
            *final(self) == old(self).envelope_and_linear_ticked(),
    {
        self.channels.pulse_1.tick_envelope();
        self.channels.pulse_2.tick_envelope();

        self.channels.triangle.tick_linear_counter();
    }

    /// Advances the frame counter by one step and applies that step's rule.
    /// This is the ~240 Hz clock the note lengths and envelopes run on, *not*
    /// the APU cycle clock — see `tick_half_clock`.
    fn tick_frame_counter(&mut self)
        requires
            old(self).wf(),
        ensures
            final(self).wf(),
            *final(self) == old(self).frame_ticked(),
    {
        let step = frame_counter_rule(self.frame_counter_mode, self.frame_counter);
        let len = frame_counter_len(self.frame_counter_mode);

        if step & ENVELOPE_AND_LINEARCOUNTER != 0 {
            self.tick_envelope_and_linear_counter();
        }
        if step & LENGTHCOUNTER_AND_SWEEP != 0 {
            self.tick_length_counter_and_sweep();
        }

        self.frame_counter = (self.frame_counter + 1) % len;
    }

    /// Advances the APU by one APU cycle, i.e. every second CPU cycle.
    pub fn tick_half_clock(&mut self)
        requires
            old(self).wf(),
        ensures
            final(self).wf(),
            *final(self) == old(self).half_clock_ticked(),
    {
        self.frame_divider = self.frame_divider + 1;
        if self.frame_divider >= FRAME_COUNTER_PERIOD {
            self.frame_divider = 0;
            self.tick_frame_counter();
        }

        self.channels.pulse_1.tick();
        self.channels.pulse_2.tick();
    }

    /// Ticks once per CPU clock.
    pub fn tick_full_clock(&mut self)
        requires
            old(self).wf(),
        ensures
            final(self).wf(),
            *final(self) == old(self).full_clock_ticked(),
    {
        self.channels.triangle.tick();
    }

    /// Handles a write to $4017. Resets the sequence, and in mode 1 clocks the
    /// first step immediately rather than a divider period later.
    fn set_frame_counter(&mut self, data: u8)
        requires
            old(self).wf(),
        ensures
            final(self).wf(),
            *final(self) == old(self).frame_counter_set(data),
    {
        proof {
            lemma_byte(data);
        }
        self.frame_counter_mode = (data & 0x80) >> 7;
        self.frame_counter = 0;
        self.frame_divider = 0;

        if self.frame_counter_mode == 1 {
            self.tick_envelope_and_linear_counter();
            self.tick_length_counter_and_sweep();
        }
    }
}

/// The frame counter walks its sequence and never leaves it: after any number
/// of APU cycles the step stays within the 4 or 5 steps of the mode.
pub proof fn lemma_frame_counter_in_sequence(a: APU)
    requires
        a.wf(),
    ensures
        0 <= a.step() < frame_sequence_len(a.mode()),
        a.mode() <= 1,
{
}

/// A write of `d` to 0x4017 selects the frame-counter mode from bit 7 (1:
/// the five-step sequence) and restarts the sequence. In five-step mode it
/// clocks at once the envelopes and the triangle's linear counter, then the
/// length counters and the pulse sweeps; in four-step mode it clocks nothing.
pub proof fn lemma_frame_counter_write(a: APU, d: u8)
    ensures
        ({
            let b = a.after_write(0x4017, d);
            &&& b.mode() == (if d >= 128 { 1u8 } else { 0u8 })
            &&& b.step() == 0
            &&& b.divider() == 0
            &&& b.status_reg() == a.status_reg()
            &&& d >= 128 ==> {
                &&& b.chans().pulse_1 == a.chans().pulse_1.envelope_ticked().length_ticked().sweep_ticked()
                &&& b.chans().pulse_2 == a.chans().pulse_2.envelope_ticked().length_ticked().sweep_ticked()
                &&& b.chans().triangle == a.chans().triangle.linear_ticked().length_ticked()
                &&& b.chans().noise == a.chans().noise
            }
            &&& d < 128 ==> b.chans() == a.chans()
        }),
{
    crate::bits::lemma_byte_fields(d);
}

} // verus!
