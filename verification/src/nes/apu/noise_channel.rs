use vstd::prelude::*;
use crate::bits::lemma_byte;

use crate::nes::apu::divider::Divider;
use crate::nes::apu::envelope::Envelope;
use crate::nes::apu::length_counter::LengthCounter;

verus! {

broadcast use {
    crate::nes::apu::divider::group_divider,
    crate::nes::apu::envelope::group_envelope,
    crate::nes::apu::length_counter::group_length_counter,
};

/// The timer periods a noise-period write selects.
pub open spec fn noise_period(i: int) -> u16 {
    seq![4u16, 8, 16, 32, 64, 96, 128, 160, 202, 254, 380, 508, 762, 1016, 2034, 4068][i]
}

fn timer_period_table(i: u8) -> (r: u16)
    requires
        i < 16,
    ensures
        r == noise_period(i as int),
{
    let table: [u16; 16] = [4, 8, 16, 32, 64, 96, 128, 160, 202, 254, 380, 508, 762, 1016, 2034, 4068];
    table[i as usize]
}

/// The shift register after one step: shifted right, with the feedback bit,
/// the XOR of bit 0 and either bit 6 (short mode) or bit 1, entered at bit 14.
/// The result is a pseudo-random sequence.
pub open spec fn lfsr_step(shift_reg: u16, mode: bool) -> u16 {
    let feedback = (shift_reg & 1) ^ (if mode { (shift_reg >> 6u16) & 1 } else { (shift_reg >> 1u16) & 1 });
    ((shift_reg >> 1u16) & !(0x4000u16)) | (feedback << 14u16)
}

/// The pseudo-random noise channel.
#[derive(Copy, Clone, Debug)]
pub struct NoiseChannel {
    pub divider: Divider,
    pub length_counter: LengthCounter,
    pub envelope: Envelope,
    pub mode: bool,
    pub shift_reg: u16,
    pub enabled: bool,
}

impl NoiseChannel {
    pub open spec fn timer(self) -> Divider {
        self.divider
    }

    pub open spec fn length(self) -> LengthCounter {
        self.length_counter
    }

    pub open spec fn env(self) -> Envelope {
        self.envelope
    }

    pub open spec fn short_mode(self) -> bool {
        self.mode
    }

    pub open spec fn lfsr(self) -> u16 {
        self.shift_reg
    }

    pub open spec fn enable_flag(self) -> bool {
        self.enabled
    }

    pub closed spec fn wf(self) -> bool {
        &&& self.envelope.wf()
        &&& self.length_counter.wf()
    }

    /// The channel after `data` is written to its register `reg` (0-3).
    pub open spec fn after_set(self, reg: u8, data: u8) -> NoiseChannel {
        if reg == 0 {
            NoiseChannel {
                envelope: self.envelope.with_constant(data & 0x10 != 0).with_volume(data & 0x0F),
                length_counter: self.length_counter.with_halt(data & 0x20 != 0),
                ..self
            }
        } else if reg == 1 {
            self
        } else if reg == 2 {
            NoiseChannel {
                mode: data & 0x80 != 0,
                divider: self.divider.with_period((noise_period((data & 0x0F) as int) / 2) as u16),
                ..self
            }
        } else {
            NoiseChannel {
                length_counter: self.length_counter.loaded((data & 0xF8) >> 3u8),
                envelope: self.envelope.started(),
                ..self
            }
        }
    }

    pub open spec fn with_enabled(self, v: bool) -> NoiseChannel {
        NoiseChannel { enabled: v, length_counter: self.length_counter.with_enabled(v), ..self }
    }

    pub open spec fn envelope_ticked(self) -> NoiseChannel {
        NoiseChannel { envelope: self.envelope.ticked(), ..self }
    }

    pub open spec fn length_ticked(self) -> NoiseChannel {
        NoiseChannel { length_counter: self.length_counter.ticked(), ..self }
    }

    /// One timer tick: the shift register steps when the timer wraps.
    pub open spec fn ticked(self) -> NoiseChannel {
        NoiseChannel {
            divider: self.divider.ticked(),
            shift_reg: if self.divider.fires() { lfsr_step(self.shift_reg, self.mode) } else { self.shift_reg },
            ..self
        }
    }

    /// The envelope level while enabled, counting and bit 0 of the shift
    /// register is set; 0 otherwise.
    pub open spec fn output(self) -> u16 {
        if self.enabled && self.length_counter.is_active() && (self.shift_reg & 1 != 0) {
            self.envelope.level() as u16
        } else {
            0
        }
    }

    /// The channel at power-on: disabled, long mode, the shift register at 1.
    pub open spec fn power_on() -> NoiseChannel {
        NoiseChannel {
            divider: Divider::new_spec(0),
            length_counter: LengthCounter::power_on(),
            envelope: Envelope::power_on(),
            mode: false,
            shift_reg: 1,
            enabled: false,
        }
    }

    pub fn new() -> (c: NoiseChannel)
        ensures
            c == NoiseChannel::power_on(),
            c.wf(),
            c.lfsr() == 1,
            !c.short_mode() && !c.enable_flag(),
            c.length().count() == 0,
    {
        NoiseChannel {
            divider: Divider::new(0),
            length_counter: LengthCounter::new(),
            envelope: Envelope::new(),
            mode: false,
            shift_reg: 1,
            enabled: false,
        }
    }

    /// Writes `data` to register `reg` of the channel.
    pub fn set(&mut self, reg: u8, data: u8)
        requires
            old(self).wf(),
            reg < 4,
        ensures
            final(self).wf(),
            *final(self) == old(self).after_set(reg, data),
    {
        proof {
            lemma_byte(data);
        }
        if reg == 0 {
            self.envelope.set_constant_volume_flag(data & 0x10 != 0);
            self.envelope.set_volume(data & 0x0F);
            self.length_counter.set_halt(data & 0x20 != 0);
        } else if reg == 1 {
        } else if reg == 2 {
            self.mode = data & 0x80 != 0;
            self.divider.set_period(timer_period_table(data & 0x0F) / 2);
        } else {
            self.length_counter.set_counter((data & 0xF8) >> 3);
            self.envelope.set_start();
        }
    }

    pub fn set_enabled(&mut self, enabled: bool)
        requires
            old(self).wf(),
        ensures
            final(self).wf(),
            *final(self) == old(self).with_enabled(enabled),
    {
        self.enabled = enabled;
        self.length_counter.set_enabled(self.enabled);
    }

    pub fn tick_envelope(&mut self)
        requires
            old(self).wf(),
        ensures
            final(self).wf(),
            *final(self) == old(self).envelope_ticked(),
    {
        self.envelope.tick();
    }

    pub fn tick_length_counter(&mut self)
        requires
            old(self).wf(),
        ensures
            final(self).wf(),
            *final(self) == old(self).length_ticked(),
    {
        self.length_counter.tick();
    }

    /// Clocked every other CPU cycle.
    pub fn tick(&mut self)
        requires
            old(self).wf(),
        ensures
            final(self).wf(),
            *final(self) == old(self).ticked(),
    {
        if self.divider.tick() {
            // Feedback is XOR of shift bit 0 and either shift bit 6 or 1, depending on mode flag
            let feedback = (self.shift_reg & 1) ^ if self.mode {
                (self.shift_reg >> 6) & 1
            } else {
                (self.shift_reg >> 1) & 1
            };
            // Shift the register right, and load new value in the 14th bit
            self.shift_reg = self.shift_reg >> 1;
            self.shift_reg = (self.shift_reg & !0x4000u16) | (feedback << 14);
        }
    }

    pub fn get_output(&self) -> (r: u16)
        requires
            self.wf(),
        ensures
            r == self.output(),
    {
        if self.enabled && self.length_counter.active() && (self.shift_reg & 1 != 0) {
            self.envelope.volume() as u16
        } else {
            0
        }
    }
}

/// Starting from 1, the shift register never reaches zero, so the channel
/// never falls silent for good.
pub proof fn lemma_lfsr_nonzero(shift_reg: u16, mode: bool)
    requires
        shift_reg != 0,
        shift_reg < 0x8000,
    ensures
        lfsr_step(shift_reg, mode) < 0x8000,
        lfsr_step(shift_reg, mode) != 0,
{
    assert((shift_reg < 0x8000 ==> lfsr_step(shift_reg, mode) < 0x8000) && (shift_reg != 0 && shift_reg < 0x8000
        ==> lfsr_step(shift_reg, mode) != 0)) by (bit_vector);
}

} // verus!
