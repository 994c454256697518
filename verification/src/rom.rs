use vstd::prelude::*;

verus! {

/// A read-only block of bytes.
pub struct ROM {
    data: Vec<u8>,
}

impl ROM {
    pub closed spec fn view(&self) -> Seq<u8> {
        self.data@
    }

    /// A ROM holding a copy of `data`.
    pub fn new(data: &[u8]) -> (r: ROM)
        ensures
            r.view() == data@,
    {
        let mut v: Vec<u8> = Vec::new();
        let mut i: usize = 0;
        while i < data.len()
            invariant
                i <= data@.len(),
                v@ == data@.subrange(0, i as int),
            decreases data@.len() - i,
        {
            v.push(data[i]);
            i = i + 1;
            assert(v@ =~= data@.subrange(0, i as int));
        }
        assert(v@ =~= data@);
        ROM { data: v }
    }

    /// The byte at `addr`.
    pub fn read(&self, addr: u16) -> (r: u8)
        requires
            (addr as int) < self.view().len(),
        ensures
            r == self.view()[addr as int],
    {
        self.data[addr as usize]
    }
}

} // verus!
