use vstd::prelude::*;
use crate::bits::lemma_join;

verus! {

/// Set lower 8 bits of an APU channel timer. Maintains the upper bits as they
/// were.
pub fn timer_low(period: u16, data: u8) -> (r: u16)
    ensures
        r as int == period as int / 256 * 256 + data as int,
{
    proof {
        lemma_join(period, 0, data as u16);
    }
    (period & 0xFF00) | (data as u16)
}

/// Sets upper 3 bits of an APU channel timer. Maintains the lower bits as
/// they were.
pub fn timer_high(period: u16, data: u8) -> (r: u16)
    ensures
        r as int == (data as int % 8) * 256 + period as int % 256,
{
    assert((((data & 0x07) as u16) << 8) | (period & 0x00FF) == ((data % 8) as u16) * 256 + period % 256)
        by (bit_vector);
    (((data & 0x07) as u16) << 8) | (period & 0x00FF)
}

/// Both halves of a timer write keep the timer within 11 bits.
pub proof fn lemma_timer_eleven_bits(period: u16, data: u8)
    requires
        period <= 0x7FF,
    ensures
        period as int / 256 * 256 + data as int <= 0x7FF,
        (data as int % 8) * 256 + period as int % 256 <= 0x7FF,
{
}

} // verus!
