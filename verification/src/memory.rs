use vstd::prelude::*;

verus! {

/// A flat 64 KiB address space.
pub struct Memory {
    data: Vec<u8>,
}

impl Memory {
    /// The byte at every address, in address order.
    pub closed spec fn view(&self) -> Seq<u8> {
        self.data@
    }

    pub closed spec fn wf(&self) -> bool {
        self.data@.len() == 65536
    }

    /// All 65536 bytes zero.
    pub fn new() -> (m: Memory)
        ensures
            m.wf(),
            m.view() == Seq::new(65536, |i: int| 0u8),
    {
        let m = Memory { data: vec![0u8; 65536] };
        assert(m.data@ =~= Seq::new(65536, |i: int| 0u8));
        m
    }

    pub fn write(&mut self, addr: u16, value: u8)
        requires
            old(self).wf(),
        ensures
            final(self).wf(),
            final(self).view() == old(self).view().update(addr as int, value),
    {
        self.data.set(addr as usize, value);
    }

    /// The byte at `index`.
    pub fn index(&self, index: u16) -> (r: u8)
        requires
            self.wf(),
        ensures
            r == self.view()[index as int],
    {
        self.data[index as usize]
    }
}

/// What a read gives back of a write: the written byte at the written address,
/// the old contents everywhere else.
pub proof fn lemma_memory_read_after_write(before: Seq<u8>, addr: u16, value: u8, other: u16)
    requires
        before.len() == 65536,
    ensures
        before.update(addr as int, value)[addr as int] == value,
        other != addr ==> before.update(addr as int, value)[other as int] == before[other as int],
{
}

} // verus!
