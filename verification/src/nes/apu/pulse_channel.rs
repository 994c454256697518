use vstd::prelude::*;
use crate::bits::lemma_byte;

use crate::nes::apu::channel::{timer_high, timer_low};
use crate::nes::apu::divider::Divider;
use crate::nes::apu::envelope::Envelope;
use crate::nes::apu::length_counter::LengthCounter;
use crate::nes::apu::sweeper::{lemma_small_period_target, sweep_mutes, Sweeper};

verus! {

broadcast use {
    crate::nes::apu::divider::group_divider,
    crate::nes::apu::envelope::group_envelope,
    crate::nes::apu::length_counter::group_length_counter,
    crate::nes::apu::sweeper::group_sweeper,
};

/// The output of the sequencer. First index is by duty cycle mode, which may
/// be set by writing to 0x4000 or 0x4004; second index is the current
/// sequencer step. The sequencer is clocked every time the timer wraps around
/// to zero, see `tick`.
pub open spec fn pulse_sequence(duty: int, step: int) -> u8 {
    seq![
        seq![0u8, 1, 0, 0, 0, 0, 0, 0],  // 12.5%
        seq![0u8, 1, 1, 0, 0, 0, 0, 0],  // 25%
        seq![0u8, 1, 1, 1, 1, 0, 0, 0],  // 50%
        seq![1u8, 0, 0, 1, 1, 1, 1, 1],  // 25% negated
    ][duty][step]
}

fn pulse_sequencer(duty: u8, step: u8) -> (r: u8)
    requires
        duty < 4,
        step < 8,
    ensures
        r == pulse_sequence(duty as int, step as int),
        r <= 1,
{
    let row: [u8; 8] = if duty == 0 {
        [0, 1, 0, 0, 0, 0, 0, 0]
    } else if duty == 1 {
        [0, 1, 1, 0, 0, 0, 0, 0]
    } else if duty == 2 {
        [0, 1, 1, 1, 1, 0, 0, 0]
    } else {
        [1, 0, 0, 1, 1, 1, 1, 1]
    };
    row[step as usize]
}

/// A square-wave channel.
#[derive(Copy, Clone, Debug)]
pub struct PulseChannel {
    pub duty: u8,
    pub enabled: bool,
    pub sequencer_step: u8,
    pub divider: Divider,
    pub envelope: Envelope,
    pub sweeper: Sweeper,
    pub length_counter: LengthCounter,
}

impl PulseChannel {
    pub open spec fn duty(self) -> u8 {
        self.duty
    }

    pub open spec fn step(self) -> u8 {
        self.sequencer_step
    }

    pub open spec fn timer(self) -> Divider {
        self.divider
    }

    pub open spec fn env(self) -> Envelope {
        self.envelope
    }

    pub open spec fn sweep(self) -> Sweeper {
        self.sweeper
    }

    pub open spec fn length(self) -> LengthCounter {
        self.length_counter
    }

    pub open spec fn enable_flag(self) -> bool {
        self.enabled
    }

    /// Duty and step index the sequencer table, the timer period fits in 11
    /// bits, the sweep shift in 3.
    pub closed spec fn wf(self) -> bool {
        &&& self.duty < 4
        &&& self.sequencer_step < 8
        &&& self.divider.target() <= 0x7FF
        &&& self.sweeper.shift_count() < 8
        &&& self.envelope.wf()
        &&& self.length_counter.wf()
    }

    /// The channel after `data` is written to its register `reg` (0-3).
    pub open spec fn after_set(self, reg: u8, data: u8) -> PulseChannel {
        if reg == 0 {
            PulseChannel {
                duty: (data & 0xC0) >> 6u8,
                envelope: self.envelope.with_params((data & 0x10) != 0, data & 0xF, data & 0x20 != 0),
                length_counter: self.length_counter.with_halt(data & 0x20 != 0),
                ..self
            }
        } else if reg == 1 {
            PulseChannel {
                sweeper: self.sweeper.with_config(
                    (data & 0x80) != 0,
                    (data & 0x70) >> 4u8,
                    (data & 0x08) != 0,
                    data & 0x07,
                ).reset_spec(),
                ..self
            }
        } else if reg == 2 {
            PulseChannel {
                divider: self.divider.with_period(
                    (self.divider.target() as int / 256 * 256 + data as int) as u16,
                ),
                ..self
            }
        } else {
            PulseChannel {
                divider: self.divider.with_period(
                    ((data as int % 8) * 256 + self.divider.target() as int % 256) as u16,
                ),
                length_counter: self.length_counter.loaded((data & 0xF8) >> 3u8),
                envelope: self.envelope.started(),
                sequencer_step: 0,
                ..self
            }
        }
    }

    /// One timer tick: the sequencer advances when the timer wraps.
    pub open spec fn ticked(self) -> PulseChannel {
        PulseChannel {
            divider: self.divider.ticked(),
            sequencer_step: if self.divider.fires() {
                ((self.sequencer_step + 1) % 8) as u8
            } else {
                self.sequencer_step
            },
            ..self
        }
    }

    pub open spec fn envelope_ticked(self) -> PulseChannel {
        PulseChannel { envelope: self.envelope.ticked(), ..self }
    }

    pub open spec fn sweep_ticked(self) -> PulseChannel {
        PulseChannel {
            divider: self.divider.with_period(self.sweeper.swept(self.divider.target())),
            sweeper: self.sweeper.ticked(),
            ..self
        }
    }

    pub open spec fn length_ticked(self) -> PulseChannel {
        PulseChannel { length_counter: self.length_counter.ticked(), ..self }
    }

    pub open spec fn with_enabled(self, v: bool) -> PulseChannel {
        PulseChannel { enabled: v, length_counter: self.length_counter.with_enabled(v), ..self }
    }

    /// The channel sounds while its length counter runs and the sweep does not
    /// mute it.
    pub open spec fn sounding(self) -> bool {
        self.length_counter.is_active() && !sweep_mutes(
            self.divider.target(),
            self.sweeper.shift_count(),
            self.sweeper.negates(),
        )
    }

    /// The current output level: the envelope level where the duty sequence
    /// is high, 0 where it is low or the channel is silent.
    pub open spec fn output(self) -> u16 {
        if self.sounding() {
            (self.envelope.level() * pulse_sequence(self.duty as int, self.sequencer_step as int)) as u16
        } else {
            0
        }
    }

    /// The channel at power-on: disabled, duty 0 at step 0, its timer,
    /// envelope, sweep unit and length counter in their power-on states.
    pub open spec fn power_on() -> PulseChannel {
        PulseChannel {
            enabled: false,
            duty: 0,
            sequencer_step: 0,
            divider: Divider::new_spec(0),
            envelope: Envelope::power_on(),
            sweeper: Sweeper::power_on(),
            length_counter: LengthCounter::power_on(),
        }
    }

    pub fn new() -> (c: PulseChannel)
        ensures
            c == PulseChannel::power_on(),
            c.wf(),
            c.duty() == 0 && c.step() == 0 && !c.enable_flag(),
            c.timer() == Divider::new_spec(0),
            c.length().count() == 0 && !c.length().is_enabled(),
    {
        PulseChannel {
            enabled: false,
            duty: 0,
            sequencer_step: 0,
            divider: Divider::new(0),
            envelope: Envelope::new(),
            sweeper: Sweeper::new(),
            length_counter: LengthCounter::new(),
        }
    }

    /// Writes `data` to register `reg` of the channel.
    pub fn set(&mut self, reg: u8, data: u8)
        requires
            old(self).wf(),
            reg < 4,
        ensures
            final(self).wf(),
            *final(self) == old(self).after_set(reg, data),
    {
        proof {
            lemma_byte(data);
        }
        if reg == 0 {
            self.duty = (data & 0xC0) >> 6;
            self.envelope.set_params((data & 0x10) != 0, data & 0xF, data & 0x20 != 0);
            self.length_counter.set_halt(data & 0x20 != 0);
        } else if reg == 1 {
            self.sweeper.configure((data & 0x80) != 0, (data & 0x70) >> 4, (data & 0x08) != 0, data & 0x07);
            self.sweeper.reset();
        } else if reg == 2 {
            let p = timer_low(self.divider.get_period(), data);
            self.divider.set_period(p);
        } else {
            let p = timer_high(self.divider.get_period(), data);
            self.divider.set_period(p);
            self.length_counter.set_counter((data & 0xF8) >> 3);
            self.envelope.set_start();

            // Side effect of write
            self.sequencer_step = 0;
        }
    }

    pub fn tick(&mut self)
        requires
            old(self).wf(),
        ensures
            final(self).wf(),
            *final(self) == old(self).ticked(),
    {
        // Clock the sequencer on the transition from 0 to period
        if self.divider.tick() {
            self.sequencer_step = (self.sequencer_step + 1) % 8;
        }
    }

    pub fn tick_envelope(&mut self)
        requires
            old(self).wf(),
        ensures
            final(self).wf(),
            *final(self) == old(self).envelope_ticked(),
    {
        self.envelope.tick();
    }

    pub fn tick_sweep(&mut self)
        requires
            old(self).wf(),
        ensures
            final(self).wf(),
            *final(self) == old(self).sweep_ticked(),
    {
        let period = self.divider.get_period();
        proof {
            lemma_small_period_target(period, self.sweeper.shift, self.sweeper.negate);
        }
        let p = self.sweeper.tick(period);
        self.divider.set_period(p);
    }

    pub fn tick_length_counter(&mut self)
        requires
            old(self).wf(),
        ensures
            final(self).wf(),
            *final(self) == old(self).length_ticked(),
    {
        self.length_counter.tick();
    }

    pub fn set_enabled(&mut self, v: bool)
        requires
            old(self).wf(),
        ensures
            final(self).wf(),
            *final(self) == old(self).with_enabled(v),
    {
        self.enabled = v;
        self.length_counter.set_enabled(v);
    }

    fn enabled(&self) -> (r: bool)
        requires
            self.wf(),
        ensures
            r == self.sounding(),
    {
        let period = self.divider.get_period();
        proof {
            lemma_small_period_target(period, self.sweeper.shift, self.sweeper.negate);
        }
        self.length_counter.active() && !self.sweeper.mute(period)
    }

    pub fn get_output(&self) -> (r: u16)
        requires
            self.wf(),
        ensures
            r == self.output(),
    {
        if self.enabled() {
            // The sequencer table holds the current duty mode (0-3) and the
            // current sequencer step, an 8-step looping sequence; volume is
            // determined by the envelope.
            let v = self.envelope.volume();
            let s = pulse_sequencer(self.duty, self.sequencer_step);
            assert(v * s <= v) by (nonlinear_arith)
                requires
                    s <= 1,
            ;
            (v * s) as u16
        } else {
            0
        }
    }
}

/// A pulse channel plays at most the envelope level, and nothing while its
/// length counter is at zero.
pub proof fn lemma_pulse_output_bounded(c: PulseChannel)
    requires
        c.wf(),
    ensures
        c.output() <= c.env().level(),
        !c.length().is_active() ==> c.output() == 0,
{
    let v = pulse_sequence(c.duty() as int, c.step() as int);
    let l = c.env().level();
    assert(v <= 1);
    assert(l * v <= l) by (nonlinear_arith)
        requires
            v <= 1,
    ;
}

/// At sequencer step `s`, whether `c` (with its step moved there) outputs a
/// nonzero level: 1 if so, 0 if not.
pub open spec fn high_at(c: PulseChannel, s: u8) -> int {
    if (PulseChannel { sequencer_step: s, ..c }).output() != 0 { 1 } else { 0 }
}

/// Over the eight sequencer steps of one period, the number at which `c`
/// is high.
pub open spec fn high_steps(c: PulseChannel) -> int {
    high_at(c, 0) + high_at(c, 1) + high_at(c, 2) + high_at(c, 3) + high_at(c, 4) + high_at(c, 5)
        + high_at(c, 6) + high_at(c, 7)
}

/// The duty cycles: a sounding channel with a nonzero level is high (at that
/// level) for 1 of its 8 sequencer steps with duty 0 (12.5%), 2 with duty 1
/// (25%), 4 with duty 2 (50%) and 6 with duty 3 (25% negated), and 0 at the
/// other steps.
pub proof fn lemma_pulse_duty_cycle(c: PulseChannel)
    requires
        c.sounding(),
        c.envelope.level() > 0,
        c.duty < 4,
    ensures
        high_steps(c) == if c.duty == 0 { 1int } else if c.duty == 1 { 2int } else if c.duty == 2 { 4int } else { 6int },
        forall|s: u8| s < 8 ==> {
            let o = #[trigger] (PulseChannel { sequencer_step: s, ..c }).output();
            o == 0 || o == c.envelope.level()
        },
{
    lemma_pulse_rows();
    assert forall|s: u8| s < 8 implies #[trigger] high_at(c, s) == pulse_sequence(c.duty as int, s as int) as int
        && ((PulseChannel { sequencer_step: s, ..c }).output() == 0
            || (PulseChannel { sequencer_step: s, ..c }).output() == c.envelope.level()) by {
        let t = PulseChannel { sequencer_step: s, ..c };
        assert(t.sounding());
        let d = c.duty as int;
        assert(d == 0 || d == 1 || d == 2 || d == 3);
        assert(s == 0 || s == 1 || s == 2 || s == 3 || s == 4 || s == 5 || s == 6 || s == 7);
        let v = pulse_sequence(d, s as int);
        assert(v == 0 || v == 1);
        assert(t.output() == (c.envelope.level() * v) as u16);
    }
    assert(high_at(c, 0) == pulse_sequence(c.duty as int, 0) as int);
    assert(high_at(c, 1) == pulse_sequence(c.duty as int, 1) as int);
    assert(high_at(c, 2) == pulse_sequence(c.duty as int, 2) as int);
    assert(high_at(c, 3) == pulse_sequence(c.duty as int, 3) as int);
    assert(high_at(c, 4) == pulse_sequence(c.duty as int, 4) as int);
    assert(high_at(c, 5) == pulse_sequence(c.duty as int, 5) as int);
    assert(high_at(c, 6) == pulse_sequence(c.duty as int, 6) as int);
    assert(high_at(c, 7) == pulse_sequence(c.duty as int, 7) as int);
}

/// The four duty rows, step by step.
proof fn lemma_pulse_rows()
    ensures
        pulse_sequence(0, 0) == 0,
        pulse_sequence(0, 1) == 1,
        pulse_sequence(0, 2) == 0,
        pulse_sequence(0, 3) == 0,
        pulse_sequence(0, 4) == 0,
        pulse_sequence(0, 5) == 0,
        pulse_sequence(0, 6) == 0,
        pulse_sequence(0, 7) == 0,
        pulse_sequence(1, 0) == 0,
        pulse_sequence(1, 1) == 1,
        pulse_sequence(1, 2) == 1,
        pulse_sequence(1, 3) == 0,
        pulse_sequence(1, 4) == 0,
        pulse_sequence(1, 5) == 0,
        pulse_sequence(1, 6) == 0,
        pulse_sequence(1, 7) == 0,
        pulse_sequence(2, 0) == 0,
        pulse_sequence(2, 1) == 1,
        pulse_sequence(2, 2) == 1,
        pulse_sequence(2, 3) == 1,
        pulse_sequence(2, 4) == 1,
        pulse_sequence(2, 5) == 0,
        pulse_sequence(2, 6) == 0,
        pulse_sequence(2, 7) == 0,
        pulse_sequence(3, 0) == 1,
        pulse_sequence(3, 1) == 0,
        pulse_sequence(3, 2) == 0,
        pulse_sequence(3, 3) == 1,
        pulse_sequence(3, 4) == 1,
        pulse_sequence(3, 5) == 1,
        pulse_sequence(3, 6) == 1,
        pulse_sequence(3, 7) == 1,
{
}

} // verus!
