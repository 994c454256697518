use vstd::prelude::*;

verus! {

/// The eight buttons of a controller, one bit each.
#[derive(Copy, Clone, Debug)]
pub struct InputFlag {
    pub bits: u8,
}

impl InputFlag {
    pub const A: u8 = 1;
    pub const B: u8 = 2;
    pub const SELECT: u8 = 4;
    pub const START: u8 = 8;
    pub const UP: u8 = 16;
    pub const DOWN: u8 = 32;
    pub const LEFT: u8 = 64;
    pub const RIGHT: u8 = 128;

    /// No button held.
    pub fn empty() -> (r: InputFlag)
        ensures
            r.bits == 0,
    {
        InputFlag { bits: 0 }
    }

    pub fn bits(&self) -> (r: u8)
        ensures
            r == self.bits,
    {
        self.bits
    }

    /// Whether every button of `t` is held.
    pub fn contains(&self, t: u8) -> (r: bool)
        ensures
            r == (self.bits & t == t),
    {
        self.bits & t == t
    }

    /// Marks the buttons of `t` held when `v`, released otherwise.
    pub fn set(&mut self, t: u8, v: bool)
        ensures
            final(self).bits == (if v { old(self).bits | t } else { old(self).bits & !t }),
    {
        if v {
            self.bits = self.bits | t;
        } else {
            self.bits = self.bits & !t;
        }
    }
}

/// The buttons currently held.
pub struct Inputs {
    pub inputs: InputFlag,
}

impl Inputs {
    pub open spec fn view(&self) -> u8 {
        self.inputs.bits
    }

    /// No button held.
    pub fn new() -> (r: Inputs)
        ensures
            r.view() == 0,
    {
        Inputs { inputs: InputFlag::empty() }
    }

    /// Marks the buttons of `t` held when `v`, released otherwise.
    pub fn set(&mut self, t: u8, v: bool)
        ensures
            final(self).view() == (if v { old(self).view() | t } else { old(self).view() & !t }),
    {
        self.inputs.set(t, v);
    }

    /// Whether every button of `t` is held.
    pub fn get(&mut self, t: u8) -> (r: bool)
        ensures
            r == (old(self).view() & t == t),
            final(self).view() == old(self).view(),
    {
        self.inputs.contains(t)
    }

    /// All buttons as one byte, in the controller's bit order.
    pub fn get_input_byte(&self) -> (r: InputFlag)
        ensures
            r.bits == self.view(),
    {
        self.inputs
    }
}

/// Pressing a button and then asking for it answers yes; releasing it answers
/// no; the other buttons keep their state.
pub proof fn lemma_input_set_get(state: u8, t: u8, other: u8, v: bool)
    by (bit_vector)
    requires
        t == 1 || t == 2 || t == 4 || t == 8 || t == 16 || t == 32 || t == 64 || t == 128,
        other == 1 || other == 2 || other == 4 || other == 8 || other == 16 || other == 32
            || other == 64 || other == 128,
    ensures
        ((if v { state | t } else { state & !t }) & t == t) == v,
        other != t ==> (((if v { state | t } else { state & !t }) & other == other) == (state
            & other == other)),
{
}

} // verus!
