use vstd::prelude::*;

verus! {

/// The note lengths a length-counter load selects: even indices are note
/// lengths, odd indices a linear ramp.
pub open spec fn length_table(i: int) -> u8 {
    seq![
        10u8, 254, 20, 2, 40, 4, 80, 6, 160, 8, 60, 10, 14, 12, 26, 14,
        12, 16, 24, 18, 48, 20, 96, 22, 192, 24, 72, 26, 16, 28, 32, 30,
    ][i]
}

/// The length-counter load table, entry `i`.
pub fn length_counter_table(i: u8) -> (r: u8)
    requires
        i < 0x20,
    ensures
        r == length_table(i as int),
{
    match i {
        0x00 => 10, 0x01 => 254, 0x02 => 20, 0x03 => 2,
        0x04 => 40, 0x05 => 4, 0x06 => 80, 0x07 => 6,
        0x08 => 160, 0x09 => 8, 0x0A => 60, 0x0B => 10,
        0x0C => 14, 0x0D => 12, 0x0E => 26, 0x0F => 14,
        0x10 => 12, 0x11 => 16, 0x12 => 24, 0x13 => 18,
        0x14 => 48, 0x15 => 20, 0x16 => 96, 0x17 => 22,
        0x18 => 192, 0x19 => 24, 0x1A => 72, 0x1B => 26,
        0x1C => 16, 0x1D => 28, 0x1E => 32, _ => 30,
    }
}

/// Counts a note down to silence at the frame counter's rate.
#[derive(Copy, Clone, Debug)]
pub struct LengthCounter {
    pub length_counter: u8,
    pub enabled: bool,
    pub halt: bool,
}

impl LengthCounter {
    pub open spec fn count(self) -> u8 {
        self.length_counter
    }

    pub open spec fn is_enabled(self) -> bool {
        self.enabled
    }

    pub open spec fn halted(self) -> bool {
        self.halt
    }

    /// A disabled counter holds zero.
    pub closed spec fn wf(self) -> bool {
        !self.enabled ==> self.length_counter == 0
    }

    pub open spec fn is_active(self) -> bool {
        self.count() > 0
    }

    pub open spec fn with_halt(self, v: bool) -> LengthCounter {
        LengthCounter { halt: v, ..self }
    }

    /// Loading is ignored while disabled.
    pub open spec fn loaded(self, v: u8) -> LengthCounter {
        if !self.enabled { self } else { LengthCounter { length_counter: length_table(v as int), ..self } }
    }

    /// Disabling clears the count.
    pub open spec fn with_enabled(self, v: bool) -> LengthCounter {
        LengthCounter { enabled: v, length_counter: if v { self.length_counter } else { 0 }, ..self }
    }

    /// Counts down unless halted, disabled or already at zero.
    pub open spec fn ticked(self) -> LengthCounter {
        if self.length_counter > 0 && !self.halt && self.enabled {
            LengthCounter { length_counter: (self.length_counter - 1) as u8, ..self }
        } else {
            self
        }
    }

    /// The counter at power-on: zero, disabled, not halted.
    pub open spec fn power_on() -> LengthCounter {
        LengthCounter { length_counter: 0, halt: false, enabled: false }
    }

    pub fn new() -> (c: LengthCounter)
        ensures
            c == LengthCounter::power_on(),
            c.wf(),
            c.count() == 0,
            !c.halted(),
            !c.is_enabled(),
    {
        LengthCounter { length_counter: 0, halt: false, enabled: false }
    }

    pub fn set_halt(&mut self, v: bool)
        ensures
            *final(self) == old(self).with_halt(v),
    {
        self.halt = v;
    }

    pub fn set_counter(&mut self, v: u8)
        requires
            v < 0x20,
        ensures
            *final(self) == old(self).loaded(v),
    {
        if !self.enabled {
            return;
        }
        self.length_counter = length_counter_table(v);
    }

    pub fn set_enabled(&mut self, v: bool)
        ensures
            *final(self) == old(self).with_enabled(v),
    {
        self.enabled = v;
        if !v {
            self.length_counter = 0;
        }
    }

    pub fn tick(&mut self)
        ensures
            *final(self) == old(self).ticked(),
    {
        if self.length_counter > 0 && !self.halt && self.enabled {
            self.length_counter = self.length_counter - 1;
        }
    }

    pub fn active(&self) -> (r: bool)
        ensures
            r == self.is_active(),
    {
        return self.length_counter > 0;
    }
}

pub broadcast proof fn lemma_length_halt_wf(c: LengthCounter, b: bool)
    requires
        c.wf(),
    ensures
        #[trigger] c.with_halt(b).wf(),
{
}

pub broadcast proof fn lemma_length_loaded_wf(c: LengthCounter, v: u8)
    requires
        c.wf(),
    ensures
        #[trigger] c.loaded(v).wf(),
{
}

pub broadcast proof fn lemma_length_enabled_wf(c: LengthCounter, b: bool)
    requires
        c.wf(),
    ensures
        #[trigger] c.with_enabled(b).wf(),
{
}

pub broadcast proof fn lemma_length_ticked_wf(c: LengthCounter)
    requires
        c.wf(),
    ensures
        #[trigger] c.ticked().wf(),
{
}

pub broadcast group group_length_counter {
    lemma_length_halt_wf,
    lemma_length_loaded_wf,
    lemma_length_enabled_wf,
    lemma_length_ticked_wf,
}

/// Every operation keeps a disabled counter at zero, so a disabled channel
/// is never active; and a tick never raises the count.
pub proof fn lemma_length_counter_invariant(c: LengthCounter, v: u8, b: bool)
    requires
        c.wf(),
    ensures
        c.with_halt(b).wf(),
        c.loaded(v).wf(),
        c.with_enabled(b).wf(),
        c.ticked().wf(),
        !c.is_enabled() ==> !c.is_active(),
        c.ticked().count() <= c.count(),
        !b ==> !c.with_enabled(b).is_active(),
{
}

} // verus!
