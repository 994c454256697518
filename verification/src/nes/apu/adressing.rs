use vstd::prelude::*;

use crate::nes::apu::APU;

verus! {

impl APU {
    /// Handles a CPU write to the APU's registers.
    pub fn write(&mut self, addr: u16, data: u8)
        requires
            old(self).wf(),
        ensures
            final(self).wf(),
            *final(self) == old(self).after_write(addr, data),
    {
        if 0x4000 <= addr && addr <= 0x4003 {
            self.channels.pulse_1.set((addr - 0x4000) as u8, data);
        } else if 0x4004 <= addr && addr <= 0x4007 {
            self.channels.pulse_2.set((addr - 0x4004) as u8, data);
        } else if addr == 0x4015 {
            self.status = data;
        } else if addr == 0x4017 {
            self.set_frame_counter(data);
        }
    }

    /// The APU's registers all read as 0.
    pub fn read(&mut self, addr: u16) -> (r: u8)
        ensures
            r == 0,
            *final(self) == *old(self),
    {
        0
    }
}

} // verus!
