use vstd::prelude::*;
use crate::bits::lemma_byte;

use crate::nes::apu::channel::{timer_high, timer_low};
use crate::nes::apu::length_counter::LengthCounter;

verus! {

broadcast use crate::nes::apu::length_counter::group_length_counter;

/// The 32-step triangle: 15 down to 0, then 0 up to 15.
pub open spec fn triangle_sequence(i: int) -> u8 {
    if i < 16 { (15 - i) as u8 } else { (i - 16) as u8 }
}

fn sequence(i: u8) -> (r: u8)
    requires
        i < 32,
    ensures
        r == triangle_sequence(i as int),
{
    let seq: [u8; 32] = [
        15, 14, 13, 12, 11, 10, 9, 8, 7, 6, 5, 4, 3, 2, 1, 0, 0, 1, 2, 3, 4, 5, 6, 7, 8, 9, 10, 11,
        12, 13, 14, 15,
    ];
    seq[i as usize]
}

/// The triangle-wave channel.
#[derive(Copy, Clone, Debug)]
pub struct TriangleChannel {
    pub length_counter: LengthCounter,
    pub period: u16,
    pub t: u16,
    pub sequence_idx: u8,
    pub linear_counter: u8,
    pub linear_counter_reload_value: u8,
    pub linear_counter_reload: bool,
    pub control: bool,
    pub enabled: bool,
}

impl TriangleChannel {
    pub open spec fn length(self) -> LengthCounter {
        self.length_counter
    }

    pub open spec fn period(self) -> u16 {
        self.period
    }

    pub open spec fn timer(self) -> u16 {
        self.t
    }

    pub open spec fn index(self) -> u8 {
        self.sequence_idx
    }

    pub open spec fn linear(self) -> u8 {
        self.linear_counter
    }

    pub open spec fn reload_value(self) -> u8 {
        self.linear_counter_reload_value
    }

    pub open spec fn reload_pending(self) -> bool {
        self.linear_counter_reload
    }

    pub open spec fn control_flag(self) -> bool {
        self.control
    }

    pub open spec fn enable_flag(self) -> bool {
        self.enabled
    }

    pub closed spec fn wf(self) -> bool {
        &&& self.sequence_idx < 32
        &&& self.length_counter.wf()
    }

    /// The channel after `data` is written to its register `reg` (0-3).
    pub open spec fn after_set(self, reg: u8, data: u8) -> TriangleChannel {
        if reg == 0 {
            TriangleChannel {
                length_counter: self.length_counter.with_halt(data & 0x80 != 0),
                control: data & 0x80 != 0,
                linear_counter_reload_value: data & 0x7F,
                ..self
            }
        } else if reg == 1 {
            self
        } else if reg == 2 {
            TriangleChannel { period: (self.period as int / 256 * 256 + data as int) as u16, ..self }
        } else {
            TriangleChannel {
                period: ((data as int % 8) * 256 + self.period as int % 256) as u16,
                length_counter: self.length_counter.loaded((data & 0xF8) >> 3u8),
                linear_counter_reload: true,
                ..self
            }
        }
    }

    pub open spec fn with_enabled(self, v: bool) -> TriangleChannel {
        TriangleChannel { enabled: v, length_counter: self.length_counter.with_enabled(v), ..self }
    }

    pub open spec fn length_ticked(self) -> TriangleChannel {
        TriangleChannel { length_counter: self.length_counter.ticked(), ..self }
    }

    /// One linear-counter clock: reload if flagged, else count down to zero;
    /// the reload flag clears unless the control flag holds it.
    pub open spec fn linear_ticked(self) -> TriangleChannel {
        TriangleChannel {
            linear_counter: if self.linear_counter_reload {
                self.linear_counter_reload_value
            } else if self.linear_counter > 0 {
                (self.linear_counter - 1) as u8
            } else {
                self.linear_counter
            },
            linear_counter_reload: if !self.control { false } else { self.linear_counter_reload },
            ..self
        }
    }

    /// One timer tick: when the timer is at zero it reloads from the period
    /// and, while both counters run, the sequence steps on.
    pub open spec fn ticked(self) -> TriangleChannel {
        if self.t == 0 {
            TriangleChannel {
                sequence_idx: if self.linear_counter > 0 && self.length_counter.is_active() {
                    ((self.sequence_idx + 1) % 32) as u8
                } else {
                    self.sequence_idx
                },
                t: self.period,
                ..self
            }
        } else {
            TriangleChannel { t: (self.t - 1) as u16, ..self }
        }
    }

    pub open spec fn sounding(self) -> bool {
        self.enabled && self.length_counter.is_active()
    }

    /// The current step of the triangle, 0 while silent.
    pub open spec fn output(self) -> u16 {
        if self.sounding() { triangle_sequence(self.sequence_idx as int) as u16 } else { 0 }
    }

    /// The channel at power-on: disabled, every counter and the period zero.
    pub open spec fn power_on() -> TriangleChannel {
        TriangleChannel {
            t: 0,
            sequence_idx: 0,
            linear_counter: 0,
            length_counter: LengthCounter::power_on(),
            period: 0,
            enabled: false,
            linear_counter_reload: false,
            linear_counter_reload_value: 0,
            control: false,
        }
    }

    pub fn new() -> (c: TriangleChannel)
        ensures
            c == TriangleChannel::power_on(),
            c.wf(),
            c.index() == 0 && c.timer() == 0 && c.period() == 0 && c.linear() == 0,
            !c.enable_flag() && !c.reload_pending() && !c.control_flag(),
            c.length().count() == 0,
    {
        TriangleChannel {
            t: 0,
            sequence_idx: 0,
            linear_counter: 0,
            length_counter: LengthCounter::new(),
            period: 0,
            enabled: false,
            linear_counter_reload: false,
            linear_counter_reload_value: 0,
            control: false,
        }
    }

    /// Writes `data` to register `reg` of the channel.
    pub fn set(&mut self, reg: u8, data: u8)
        requires
            old(self).wf(),
            reg < 4,
        ensures
            final(self).wf(),
            *final(self) == old(self).after_set(reg, data),
    {
        proof {
            lemma_byte(data);
        }
        if reg == 0 {
            self.length_counter.set_halt(data & 0x80 != 0);
            self.control = data & 0x80 != 0;
            self.linear_counter_reload_value = data & 0x7F;
        } else if reg == 1 {
        } else if reg == 2 {
            self.period = timer_low(self.period, data);
        } else {
            self.period = timer_high(self.period, data);
            self.length_counter.set_counter((data & 0xF8) >> 3);
            self.linear_counter_reload = true;
        }
    }

    pub fn set_enabled(&mut self, v: bool)
        requires
            old(self).wf(),
        ensures
            final(self).wf(),
            *final(self) == old(self).with_enabled(v),
    {
        self.enabled = v;
        self.length_counter.set_enabled(v);
    }

    fn enabled(&self) -> (r: bool)
        ensures
            r == self.sounding(),
    {
        self.enabled && self.length_counter.active()
    }

    pub fn tick_length_counter(&mut self)
        requires
            old(self).wf(),
        ensures
            final(self).wf(),
            *final(self) == old(self).length_ticked(),
    {
        self.length_counter.tick();
    }

    pub fn tick_linear_counter(&mut self)
        requires
            old(self).wf(),
        ensures
            final(self).wf(),
            *final(self) == old(self).linear_ticked(),
    {
        if self.linear_counter_reload {
            self.linear_counter = self.linear_counter_reload_value;
        } else if self.linear_counter > 0 {
            self.linear_counter = self.linear_counter - 1;
        }

        if !self.control {
            self.linear_counter_reload = false;
        }
    }

    pub fn tick(&mut self)
        requires
            old(self).wf(),
        ensures
            final(self).wf(),
            *final(self) == old(self).ticked(),
    {
        if self.t == 0 {
            if self.linear_counter > 0 && self.length_counter.active() {
                self.sequence_idx = (self.sequence_idx + 1) % 32;
            }
            self.t = self.period;
        } else {
            self.t = self.t - 1;
        }
    }

    pub fn get_output(&self) -> (r: u16)
        requires
            self.wf(),
        ensures
            r == self.output(),
    {
        if self.enabled() {
            sequence(self.sequence_idx) as u16
        } else {
            0
        }
    }
}

/// The triangle plays levels 0..=15 and is silent while disabled.
pub proof fn lemma_triangle_output_bounded(c: TriangleChannel)
    requires
        c.wf(),
    ensures
        c.output() <= 15,
        !c.enable_flag() ==> c.output() == 0,
{
}

/// The triangle is symmetric and climbs by one: over its 32 steps, step `i`
/// and step `31 - i` give the same level; it falls by one per step from 15 at
/// step 0 to 0 at step 15, and rises by one per step from 0 at step 16 to 15
/// at step 31.
pub proof fn lemma_triangle_shape()
    ensures
        forall|i: int| 0 <= i < 32 ==> #[trigger] triangle_sequence(i) == triangle_sequence(31 - i),
        forall|i: int| 16 <= i < 31 ==> #[trigger] triangle_sequence(i + 1) == triangle_sequence(i) + 1,
        forall|i: int| 0 <= i < 15 ==> #[trigger] triangle_sequence(i) == triangle_sequence(i + 1) + 1,
        triangle_sequence(0) == 15,
        triangle_sequence(16) == 0,
        triangle_sequence(31) == 15,
{
}

/// What a sounding triangle channel outputs at step `i` it outputs at step
/// `31 - i` too.
pub proof fn lemma_triangle_output_symmetric(c: TriangleChannel)
    requires
        c.sounding(),
        c.sequence_idx < 32,
    ensures
        (TriangleChannel { sequence_idx: (31 - c.sequence_idx) as u8, ..c }).output() == c.output(),
{
    lemma_triangle_shape();
    assert(triangle_sequence(c.sequence_idx as int) == triangle_sequence(31 - c.sequence_idx as int));
}

} // verus!
