use vstd::prelude::*;
use crate::bits::lemma_byte;

verus! {

/// The controller port: a latch of the eight buttons read out one bit per
/// read while the strobe is low.
#[derive(Copy, Clone, Debug)]
pub struct InputController {
    strobe: bool,
    inputs: u8,
}

impl InputController {
    pub closed spec fn strobing(self) -> bool {
        self.strobe
    }

    pub closed spec fn latch(self) -> u8 {
        self.inputs
    }

    /// What a read returns: the lowest latched bit.
    pub open spec fn read_value(self) -> u8 {
        self.latch() & 1
    }

    /// A read shifts the latch right unless the strobe is high.
    pub closed spec fn after_read(self) -> InputController {
        if !self.strobe { InputController { inputs: self.inputs >> 1u8, ..self } } else { self }
    }

    /// A write sets the strobe from bit 0.
    pub closed spec fn after_write(self, val: u8) -> InputController {
        InputController { strobe: (val & 1) != 0, ..self }
    }

    pub closed spec fn with_state(self, state: u8) -> InputController {
        InputController { inputs: state, ..self }
    }

    pub fn new() -> (c: InputController)
        ensures
            !c.strobing(),
            c.latch() == 0,
    {
        Self { strobe: false, inputs: 0 }
    }

    pub fn write(&mut self, val: u8)
        ensures
            *final(self) == old(self).after_write(val),
    {
        self.strobe = (val & 1) != 0;
    }

    pub fn set_controller_state(&mut self, state: u8)
        ensures
            *final(self) == old(self).with_state(state),
    {
        self.inputs = state;
    }

    /// The bit a read would return, without shifting the latch.
    pub fn peek(&self) -> (r: u8)
        ensures
            r == self.read_value(),
    {
        self.inputs & 1
    }

    /// Reads the next button bit.
    pub fn read(&mut self, controller: u8) -> (r: u8)
        ensures
            r == old(self).read_value(),
            *final(self) == old(self).after_read(),
    {
        let ret = self.inputs & 1;
        if !self.strobe {
            self.inputs = self.inputs >> 1;
        }
        ret
    }
}

/// Setting the state replaces the latch and keeps the strobe.
pub broadcast proof fn lemma_with_state_parts(c: InputController, state: u8)
    ensures
        (#[trigger] c.with_state(state)).latch() == state,
        c.with_state(state).strobing() == c.strobing(),
{
}

/// A write sets the strobe from bit 0 of the value and keeps the latch.
pub broadcast proof fn lemma_after_write_parts(c: InputController, val: u8)
    ensures
        (#[trigger] c.after_write(val)).strobing() == ((val & 1) != 0),
        c.after_write(val).latch() == c.latch(),
{
}

/// A read keeps the strobe; with the strobe low it shifts the latch right by
/// one, with the strobe high it keeps it.
pub broadcast proof fn lemma_after_read_parts(c: InputController)
    ensures
        (#[trigger] c.after_read()).strobing() == c.strobing(),
        c.after_read().latch() == if c.strobing() { c.latch() } else { c.latch() >> 1u8 },
{
}

pub broadcast group group_controller_parts {
    lemma_with_state_parts,
    lemma_after_write_parts,
    lemma_after_read_parts,
}

/// Serial readout: with the strobe low, the k-th read after latching a state
/// returns bit k of it (A first, then B, Select, Start, Up, Down, Left, Right),
/// and zeros after the eighth; with the strobe high every read returns the
/// A button.
pub proof fn lemma_controller_serial_read(c: InputController, state: u8, k: nat)
    ensures
        !c.strobing() ==> reads(c.with_state(state), k).read_value() as int == (state as int / pow2_u8(k)) % 2,
        !c.strobing() && k >= 8 ==> reads(c.with_state(state), k).read_value() == 0,
        c.strobing() ==> reads(c.with_state(state), k).read_value() == state & 1,
{
    let c0 = c.with_state(state);
    lemma_reads_latch(c0, k);
    let l = reads(c0, k).latch();
    lemma_byte(l);
    if k >= 8 {
        lemma_pow2_at_least(k);
        let p = pow2_u8(k);
        assert(state as int / p == 0) by (nonlinear_arith)
            requires
                p >= 256,
                0 <= state < 256,
        ;
    }
}

/// The controller after `k` reads.
pub open spec fn reads(c: InputController, k: nat) -> InputController
    decreases k,
{
    if k == 0 { c } else { reads(c, (k - 1) as nat).after_read() }
}

proof fn lemma_pow2_at_least(k: nat)
    requires
        k >= 8,
    ensures
        pow2_u8(k) >= 256,
    decreases k,
{
    if k > 8 {
        lemma_pow2_at_least((k - 1) as nat);
        lemma_pow2_positive((k - 1) as nat);
    } else {
        reveal_with_fuel(pow2_u8, 9);
    }
}

proof fn lemma_pow2_positive(k: nat)
    ensures
        pow2_u8(k) >= 1,
    decreases k,
{
    if k > 0 {
        lemma_pow2_positive((k - 1) as nat);
    }
}

proof fn lemma_reads_latch(c: InputController, k: nat)
    ensures
        reads(c, k).strobing() == c.strobing(),
        !c.strobing() ==> reads(c, k).latch() as int == c.latch() as int / pow2_u8(k),
        c.strobing() ==> reads(c, k).latch() == c.latch(),
    decreases k,
{
    if k > 0 {
        lemma_reads_latch(c, (k - 1) as nat);
        let l = reads(c, (k - 1) as nat).latch();
        lemma_byte(l);
        lemma_pow2_positive((k - 1) as nat);
        let p = pow2_u8((k - 1) as nat);
        vstd::arithmetic::div_mod::lemma_div_denominator(c.latch() as int, p, 2);
        assert(p * 2 == pow2_u8(k));
    }
}

/// 2 to the power `k`.
pub open spec fn pow2_u8(k: nat) -> int
    decreases k,
{
    if k == 0 { 1 } else { 2 * pow2_u8((k - 1) as nat) }
}

} // verus!
