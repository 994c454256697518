use vstd::prelude::*;

verus! {

/// The console's 2 KiB of work RAM.
pub struct RAM {
    data: Vec<u8>,
}

impl View for RAM {
    type V = Seq<u8>;

    closed spec fn view(&self) -> Seq<u8> {
        self.data@
    }
}

impl RAM {
    /// All 2048 bytes zero.
    pub fn new() -> (r: RAM)
        ensures
            r@ == Seq::new(2048, |i: int| 0u8),
    {
        let r = RAM { data: vec![0u8; 2048] };
        assert(r@ =~= Seq::new(2048, |i: int| 0u8));
        r
    }

    /// The byte at `index`.
    pub fn index(&self, index: u16) -> (r: u8)
        requires
            (index as int) < self@.len(),
        ensures
            r == self@[index as int],
    {
        self.data[index as usize]
    }

    /// Stores `value` at `index`.
    pub fn set(&mut self, index: u16, value: u8)
        requires
            (index as int) < old(self)@.len(),
        ensures
            final(self)@ == old(self)@.update(index as int, value),
    {
        self.data.set(index as usize, value);
    }
}

} // verus!
