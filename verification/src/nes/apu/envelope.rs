use vstd::prelude::*;

verus! {

/// The volume envelope of a pulse or noise channel: either a constant volume
/// or a decay level that counts down from 15 at a rate set by the volume.
#[derive(Copy, Clone, Debug)]
pub struct Envelope {
    pub start: bool,
    pub constant_volume: bool,
    pub decay_level: u8,
    pub loop_flag: bool,
    pub volume: u8,
    pub divider: u8,
}

impl Envelope {
    pub open spec fn decay(self) -> u8 {
        self.decay_level
    }

    pub open spec fn param(self) -> u8 {
        self.volume
    }

    pub open spec fn starting(self) -> bool {
        self.start
    }

    pub open spec fn looping(self) -> bool {
        self.loop_flag
    }

    pub open spec fn constant(self) -> bool {
        self.constant_volume
    }

    pub open spec fn counter(self) -> u8 {
        self.divider
    }

    /// The decay level never exceeds 15.
    pub closed spec fn wf(self) -> bool {
        self.decay_level <= 15
    }

    /// The level the channel plays at.
    pub open spec fn level(self) -> u8 {
        if self.constant() { self.param() } else { self.decay() }
    }

    pub open spec fn with_params(self, constant_volume: bool, volume: u8, loop_flag: bool) -> Envelope {
        Envelope { volume, constant_volume, loop_flag, ..self }
    }

    pub open spec fn with_constant(self, v: bool) -> Envelope {
        Envelope { constant_volume: v, ..self }
    }

    pub open spec fn with_volume(self, v: u8) -> Envelope {
        Envelope { volume: v, ..self }
    }

    pub open spec fn started(self) -> Envelope {
        Envelope { start: true, ..self }
    }

    /// One divider clock: at zero the divider reloads from the volume and the
    /// decay level steps down (wrapping to 15 when looping); otherwise the
    /// divider counts down.
    pub open spec fn clocked(self) -> Envelope {
        if self.divider == 0 {
            Envelope {
                divider: self.volume,
                decay_level: if self.decay_level > 0 {
                    (self.decay_level - 1) as u8
                } else if self.loop_flag {
                    15
                } else {
                    self.decay_level
                },
                ..self
            }
        } else {
            Envelope { divider: (self.divider - 1) as u8, ..self }
        }
    }

    /// One envelope tick: a pending start restarts the decay at 15, otherwise
    /// the divider is clocked.
    pub open spec fn ticked(self) -> Envelope {
        if self.start {
            Envelope { start: false, decay_level: 15, divider: self.volume, ..self }
        } else {
            self.clocked()
        }
    }

    /// The envelope at power-on: starting, at level 15, with no volume, loop
    /// or constant volume set.
    pub open spec fn power_on() -> Envelope {
        Envelope { start: true, decay_level: 15, loop_flag: false, volume: 0, divider: 0, constant_volume: false }
    }

    pub fn new() -> (e: Envelope)
        ensures
            e == Envelope::power_on(),
            e.wf(),
            e.starting(),
            e.decay() == 15,
            !e.looping(),
            e.param() == 0,
            e.counter() == 0,
            !e.constant(),
    {
        Envelope {
            start: true,
            decay_level: 15,
            loop_flag: false,
            volume: 0,
            divider: 0,
            constant_volume: false,
        }
    }

    /// These parameters are set via writing to specific APU addresses
    pub fn set_params(&mut self, constant_volume: bool, volume: u8, loop_flag: bool)
        ensures
            *final(self) == old(self).with_params(constant_volume, volume, loop_flag),
    {
        self.volume = volume;
        self.constant_volume = constant_volume;
        self.loop_flag = loop_flag;
    }

    /// Chooses between the constant volume and the decay level.
    pub fn set_constant_volume_flag(&mut self, v: bool)
        ensures
            *final(self) == old(self).with_constant(v),
    {
        self.constant_volume = v;
    }

    /// Sets the constant volume, which is also the decay divider's period.
    pub fn set_volume(&mut self, v: u8)
        ensures
            *final(self) == old(self).with_volume(v),
    {
        self.volume = v;
    }

    pub fn tick(&mut self)
        ensures
            *final(self) == old(self).ticked(),
    {
        if self.start {
            self.start = false;
            self.decay_level = 15;
            self.divider = self.volume;
        } else {
            self.clock_divider();
        }
    }

    /// Set the start flag. Occurs as a side effect of writing to the length
    /// counter load register.
    pub fn set_start(&mut self)
        ensures
            *final(self) == old(self).started(),
    {
        self.start = true;
    }

    fn clock_divider(&mut self)
        ensures
            *final(self) == old(self).clocked(),
    {
        if self.divider == 0 {
            self.divider = self.volume;
            if self.decay_level > 0 {
                self.decay_level = self.decay_level - 1;
            } else if self.loop_flag {
                self.decay_level = 15;
            }
        } else {
            self.divider = self.divider - 1;
        }
    }

    pub fn volume(&self) -> (r: u8)
        ensures
            r == self.level(),
    {
        if self.constant_volume {
            self.volume
        } else {
            self.decay_level
        }
    }

    pub fn loop_flag(&self) -> (r: bool)
        ensures
            r == self.looping(),
    {
        self.loop_flag
    }
}

pub broadcast proof fn lemma_envelope_ticked_wf(e: Envelope)
    requires
        e.wf(),
    ensures
        #[trigger] e.ticked().wf(),
{
}

pub broadcast proof fn lemma_envelope_started_wf(e: Envelope)
    requires
        e.wf(),
    ensures
        #[trigger] e.started().wf(),
{
}

pub broadcast proof fn lemma_envelope_params_wf(e: Envelope, cv: bool, v: u8, l: bool)
    requires
        e.wf(),
    ensures
        #[trigger] e.with_params(cv, v, l).wf(),
{
}

pub broadcast proof fn lemma_envelope_constant_wf(e: Envelope, v: bool)
    requires
        e.wf(),
    ensures
        #[trigger] e.with_constant(v).wf(),
{
}

pub broadcast proof fn lemma_envelope_volume_wf(e: Envelope, v: u8)
    requires
        e.wf(),
    ensures
        #[trigger] e.with_volume(v).wf(),
{
}

pub broadcast proof fn lemma_envelope_level(e: Envelope)
    requires
        e.wf(),
        e.param() <= 15,
    ensures
        #[trigger] e.level() <= 15,
{
}

pub broadcast group group_envelope {
    lemma_envelope_ticked_wf,
    lemma_envelope_started_wf,
    lemma_envelope_params_wf,
    lemma_envelope_level,
    lemma_envelope_constant_wf,
    lemma_envelope_volume_wf,
}

/// Every operation keeps the decay level within 0..=15, so with a volume
/// parameter of at most 15 the envelope never plays louder than 15.
pub proof fn lemma_envelope_level_bounded(e: Envelope, cv: bool, v: u8, l: bool)
    requires
        e.wf(),
    ensures
        e.ticked().wf(),
        e.clocked().wf(),
        e.started().wf(),
        e.with_params(cv, v, l).wf(),
        v <= 15 ==> e.with_params(cv, v, l).level() <= 15,
        e.param() <= 15 ==> e.level() <= 15,
{
}

/// A started envelope restarts its decay at full level on the next tick.
pub proof fn lemma_envelope_restart(e: Envelope)
    ensures
        e.started().ticked().decay() == 15,
        !e.started().ticked().starting(),
        e.started().ticked().counter() == e.param(),
{
}

} // verus!
