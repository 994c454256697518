use vstd::prelude::*;

verus! {

/// The sweep unit of a pulse channel: periodically moves the channel's timer
/// period towards a target derived from the period itself.
#[derive(Copy, Clone, Debug)]
pub struct Sweeper {
    pub enabled: bool,
    pub period: u8,
    pub negate: bool,
    pub shift: u8,
    pub divider: u8,
    pub reload: bool,
}

/// The change a sweep applies to `period`: the period shifted right by
/// `shift`, taken as a signed 16-bit value, negated and lessened by one more
/// when negating.
pub open spec fn sweep_change(period: u16, shift: u8, negate: bool) -> int {
    let c = ((period >> shift) as i16) as int;
    if negate { -c - 1 } else { c }
}

/// Whether a sweep target can be formed without overflow: the shift is below
/// 16, the negation of the change fits 16 bits, and so does the sum of the
/// period (as a signed 16-bit value) and the change.
pub open spec fn sweep_target_ok(period: u16, shift: u8, negate: bool) -> bool {
    &&& shift < 16
    &&& (negate ==> ((period >> shift) as i16) as int != -0x8000)
    &&& -0x8000 <= (period as i16) as int + sweep_change(period, shift, negate) <= 0x7FFF
}

/// The period a sweep moves `period` to: the period (as a signed 16-bit
/// value) plus the change, clamped at zero.
pub open spec fn sweep_target(period: u16, shift: u8, negate: bool) -> int {
    let sum = (period as i16) as int + sweep_change(period, shift, negate);
    if sum < 0 { 0 } else { sum }
}

/// For an 11-bit period and a shift below 16 the target is formed without
/// overflow: the period plus its shifted value, or minus it and one more.
pub proof fn lemma_small_period_target(period: u16, shift: u8, negate: bool)
    requires
        period <= 0x7FF,
        shift < 16,
    ensures
        sweep_target_ok(period, shift, negate),
        sweep_target(period, shift, negate) == ({
            let sum = if negate { period as int - (period >> shift) as int - 1 } else {
                period as int + (period >> shift) as int
            };
            if sum < 0 { 0 } else { sum }
        }),
{
    assert((period >> shift) <= period) by (bit_vector)
        requires
            shift < 16,
    ;
}

/// A channel is silenced when its period is below 8 or its sweep target
/// exceeds 11 bits.
pub open spec fn sweep_mutes(period: u16, shift: u8, negate: bool) -> bool {
    period < 8 || sweep_target(period, shift, negate) > 0x7FF
}

impl Sweeper {
    pub open spec fn counter(self) -> u8 {
        self.divider
    }

    pub open spec fn reloading(self) -> bool {
        self.reload
    }

    /// The period after one sweep tick: moved to the target when the divider
    /// is at zero, the unit enabled with a nonzero shift and the channel not
    /// muted; unchanged otherwise.
    pub open spec fn swept(self, period: u16) -> u16 {
        if self.counter() == 0 && self.enabled && self.shift > 0 && !sweep_mutes(period, self.shift, self.negate) {
            sweep_target(period, self.shift, self.negate) as u16
        } else {
            period
        }
    }

    /// The unit after one sweep tick: the divider reloads from the sweep period
    /// at zero or on a pending reload, and counts down otherwise.
    pub open spec fn ticked(self) -> Sweeper {
        if self.divider == 0 || self.reload {
            Sweeper { divider: self.period, reload: false, ..self }
        } else {
            Sweeper { divider: (self.divider - 1) as u8, ..self }
        }
    }

    pub open spec fn is_enabled(self) -> bool {
        self.enabled
    }

    pub open spec fn sweep_period(self) -> u8 {
        self.period
    }

    pub open spec fn negates(self) -> bool {
        self.negate
    }

    pub open spec fn shift_count(self) -> u8 {
        self.shift
    }

    /// The unit with its four configuration fields replaced.
    pub open spec fn with_config(self, enabled: bool, period: u8, negate: bool, shift: u8) -> Sweeper {
        Sweeper { enabled, period, negate, shift, ..self }
    }

    pub open spec fn reset_spec(self) -> Sweeper {
        Sweeper { reload: true, ..self }
    }

    pub proof fn lemma_shift_bound(period: u16, shift: u8)
        requires
            shift < 16,
        ensures
            (period >> shift) <= period,
    {
        assert((period >> shift) <= period) by (bit_vector)
            requires
                shift < 16,
        ;
    }

    pub fn mute(&self, period: u16) -> (r: bool)
        requires
            period >= 8 ==> sweep_target_ok(period, self.shift_count(), self.negates()),
        ensures
            r == sweep_mutes(period, self.shift_count(), self.negates()),
    {
        return period < 8 || self.target_period(period) > 0x7FF;
    }

    /// The sweep unit at power-on: disabled, every field zero.
    pub open spec fn power_on() -> Sweeper {
        Sweeper { enabled: false, period: 0, negate: false, shift: 0, reload: false, divider: 0 }
    }

    pub fn new() -> (s: Sweeper)
        ensures
            s == Sweeper::power_on(),
            !s.is_enabled() && s.sweep_period() == 0 && !s.negates() && s.shift_count() == 0,
            !s.reloading(),
            s.counter() == 0,
    {
        Sweeper { enabled: false, period: 0, negate: false, shift: 0, reload: false, divider: 0 }
    }

    /// Replaces the four configuration fields.
    pub fn configure(&mut self, enabled: bool, period: u8, negate: bool, shift: u8)
        ensures
            *final(self) == old(self).with_config(enabled, period, negate, shift),
    {
        self.enabled = enabled;
        self.period = period;
        self.negate = negate;
        self.shift = shift;
    }

    pub fn reset(&mut self)
        ensures
            *final(self) == old(self).reset_spec(),
    {
        self.reload = true;
    }

    /// A sweeper iteration may alter the channel timer period, hence the
    /// function takes in the current period and returns a (possibly altered)
    /// new period value.
    pub fn tick(&mut self, period: u16) -> (r: u16)
        requires
            (old(self).counter() == 0 && old(self).is_enabled() && old(self).shift_count() > 0 && period >= 8)
                ==> sweep_target_ok(period, old(self).shift_count(), old(self).negates()),
        ensures
            r == old(self).swept(period),
            period <= 0x7FF ==> r <= 0x7FF,
            *final(self) == old(self).ticked(),
    {
        let mut period = period;

        if self.divider == 0 && self.enabled && self.shift > 0 {
            if !self.mute(period) {
                period = self.target_period(period);
            }
        }

        if self.divider == 0 || self.reload {
            self.divider = self.period;
            self.reload = false;
        } else {
            self.divider = self.divider - 1;
        }

        period
    }

    pub fn target_period(&self, period: u16) -> (r: u16)
        requires
            sweep_target_ok(period, self.shift_count(), self.negates()),
        ensures
            r as int == sweep_target(period, self.shift_count(), self.negates()),
    {
        let change = (period >> self.shift) as i16;
        let change = if self.negate { -change - 1 } else { change };

        let sum = period as i16 + change;
        if sum < 0 { 0 } else { sum as u16 }
    }
}

pub broadcast proof fn lemma_sweeper_ticked_shift(s: Sweeper)
    ensures
        #[trigger] s.ticked().shift_count() == s.shift_count(),
{
}

pub broadcast proof fn lemma_sweeper_reset_shift(s: Sweeper)
    ensures
        #[trigger] s.reset_spec().shift_count() == s.shift_count(),
{
}

pub broadcast proof fn lemma_sweeper_config_shift(s: Sweeper, e: bool, p: u8, n: bool, sh: u8)
    ensures
        #[trigger] s.with_config(e, p, n, sh).shift_count() == sh,
{
}

pub broadcast proof fn lemma_sweeper_swept_bound(s: Sweeper, period: u16)
    requires
        period <= 0x7FF,
    ensures
        #[trigger] s.swept(period) <= 0x7FF,
{
}

pub broadcast group group_sweeper {
    lemma_sweeper_ticked_shift,
    lemma_sweeper_reset_shift,
    lemma_sweeper_config_shift,
    lemma_sweeper_swept_bound,
}

/// A sweep never moves the period outside 11 bits.
pub proof fn lemma_sweep_keeps_eleven_bits(s: Sweeper, period: u16)
    requires
        period <= 0x7FF,
    ensures
        s.swept(period) <= 0x7FF,
{
}

} // verus!
