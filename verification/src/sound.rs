//! The audio output's bookkeeping around a band-limited resampler
//! (`blip_buf::BlipBuf`): which level changes it is handed, and how much
//! emulation the output can still absorb.

use vstd::prelude::*;

use blip_buf::BlipBuf;

verus! {

/// The output sample rate, in Hz.
pub const SAMPLE_RATE: u32 = 48_000;

/// The resampler's capacity, in samples: a tenth of a second.
pub const BLIP_CAPACITY: u32 = 4_800;

/// The most samples `clocks_free` asks the resampler about. The resampler
/// measures time in 1/2^52 of a sample, so asking about 2^12 samples or more
/// overflows the 64-bit product; callers only need to know whether one more
/// frame fits, so stopping well short of that costs nothing.
pub const MAX_QUERY: u32 = 2048;

#[verifier::external_type_specification]
#[verifier::external_body]
pub struct ExBlipBuf(blip_buf::BlipBuf);

/// How many resampled samples `blip` holds ready for reading.
pub uninterp spec fn blip_avail(blip: BlipBuf) -> nat;

/// The length of `blip`'s sample store: the capacity it was made with plus
/// blip_buf's fixed slack of 18 samples.
pub uninterp spec fn blip_store_len(blip: BlipBuf) -> nat;

/// What `blip`'s sample store holds: the running sums the recorded steps are
/// added into.
pub uninterp spec fn blip_samples(blip: BlipBuf) -> Seq<int>;

/// `blip`'s rate factor: the length of one input clock in 1/2^52 of an
/// output sample, as `BlipBuf::new` (2^32) or `set_rates` last set it.
pub uninterp spec fn blip_factor(blip: BlipBuf) -> nat;

/// `blip`'s time offset: where the current frame starts, in 1/2^52 of an
/// output sample.
pub uninterp spec fn blip_offset(blip: BlipBuf) -> nat;

/// The frame length, in clocks, that `BlipBuf::clocks_needed` answers for
/// `n` more samples when it succeeds.
pub uninterp spec fn blip_clocks_needed(blip: BlipBuf, n: u32) -> u32;

/// The most one recorded step of size 1 adds to a running sum: the two
/// largest kernel weights blip_buf applies to a step's two parts.
pub open spec fn step_weight() -> int {
    42044int
}

/// `BlipBuf::samples_avail`: the number of samples ready, taken to 32 bits.
#[verifier::external_body]
fn samples_avail(blip: &BlipBuf) -> (r: u32)
    ensures
        r as int == blip_avail(*blip) as int % 0x1_0000_0000,
{
    blip.samples_avail()
}

/// `BlipBuf::clocks_needed`: fails exactly when the samples ready plus `n`
/// exceed the sample store; otherwise answers the clock count named by
/// `blip_clocks_needed`. It forms `n` times 2^52 and adds the rate factor in
/// 64 bits and divides by the factor, so the factor is at least 1 and that
/// sum stays below 2^64.
#[verifier::external_body]
fn clocks_needed(blip: &BlipBuf, n: u32) -> (r: Result<u32, &'static str>)
    requires
        blip_factor(*blip) >= 1,
        n as int * 0x10_0000_0000_0000 + blip_factor(*blip) < 0x1_0000_0000_0000_0000,
    ensures
        r is Err <==> blip_avail(*blip) + n > blip_store_len(*blip),
        r matches Ok(c) ==> c == blip_clocks_needed(*blip, n),
{
    blip.clocks_needed(n)
}

/// The resampler after `BlipBuf::add_delta` records a step of `delta` at
/// `clock_time` (unchanged when that time lies past its buffer).
pub uninterp spec fn blip_after_delta(blip: BlipBuf, clock_time: u32, delta: i32) -> BlipBuf;

/// Whether `BlipBuf::add_delta` can record a step of `delta` at `clock_time`
/// without overflow: the time times the rate factor plus the offset fits 64
/// bits, the step fits 15 bits of magnitude (so its product with the 15-bit
/// interpolation weight, and with each kernel weight, fits an `i32`), and every
/// running sum has room for the step's weighted part.
pub open spec fn delta_fits(blip: BlipBuf, clock_time: u32, delta: i32) -> bool {
    let m = if delta < 0 { -delta } else { delta as int };
    &&& clock_time as int * blip_factor(blip) + blip_offset(blip) < 0x1_0000_0000_0000_0000
    &&& -0x8000 < delta < 0x8000
    &&& forall|i: int|
        0 <= i < blip_samples(blip).len() ==> -0x8000_0000 <= #[trigger] blip_samples(blip)[i] - step_weight() * m
            && blip_samples(blip)[i] + step_weight() * m <= 0x7FFF_FFFF
}

/// `BlipBuf::add_delta`: records a step of `delta` at `clock_time`, adding
/// its weighted parts into at most 16 running sums, each by at most
/// `step_weight()` times its size. The samples ready, the store, the rate
/// factor, the offset and the clock counts asked of it stay as they were.
#[verifier::external_body]
fn add_delta(blip: &mut BlipBuf, clock_time: u32, delta: i32)
    requires
        delta_fits(*old(blip), clock_time, delta),
    ensures
        *final(blip) == blip_after_delta(*old(blip), clock_time, delta),
        blip_avail(*final(blip)) == blip_avail(*old(blip)),
        blip_store_len(*final(blip)) == blip_store_len(*old(blip)),
        blip_factor(*final(blip)) == blip_factor(*old(blip)),
        blip_offset(*final(blip)) == blip_offset(*old(blip)),
        blip_samples(*final(blip)).len() == blip_samples(*old(blip)).len(),
        forall|i: int|
            0 <= i < blip_samples(*old(blip)).len() ==> {
                let m = if delta < 0 { -delta } else { delta as int };
                &&& #[trigger] blip_samples(*final(blip))[i] - blip_samples(*old(blip))[i] <= step_weight() * m
                &&& blip_samples(*old(blip))[i] - blip_samples(*final(blip))[i] <= step_weight() * m
            },
        forall|n: u32| #[trigger] blip_clocks_needed(*final(blip), n) == blip_clocks_needed(*old(blip), n),
{
    let _ = blip.add_delta(clock_time, delta);
}

/// Records the output level `sample` from `clock` (CPU cycles since the start
/// of the current frame) onwards, where the level was `*last`. Only a change
/// of level is handed to the resampler, as a step of the difference; `*last`
/// becomes `sample`.
pub fn push_sample(blip: &mut BlipBuf, last: &mut i32, clock: u32, sample: i32)
    requires
        sample != *old(last) ==> -0x8000 < sample - *old(last) < 0x8000,
        sample != *old(last) ==> delta_fits(*old(blip), clock, (sample - *old(last)) as i32),
    ensures
        *final(last) == sample,
        *final(blip) == if sample == *old(last) {
            *old(blip)
        } else {
            blip_after_delta(*old(blip), clock, (sample - *old(last)) as i32)
        },
{
    if sample != *last {
        add_delta(blip, clock, sample - *last);
        *last = sample;
    }
}

/// How many samples to ask the resampler about: the free space of the output
/// ring (`vacant`), limited by the room the resampler has left below its
/// capacity, and by `MAX_QUERY`.
pub open spec fn free_query(vacant: int, samples_avail: int) -> int {
    let headroom = if BLIP_CAPACITY - samples_avail > 0 { BLIP_CAPACITY - samples_avail } else { 0 };
    let a = if vacant < headroom { vacant } else { headroom };
    if a < MAX_QUERY { a } else { MAX_QUERY as int }
}

/// The number of samples `clocks_free` asks the resampler about.
pub fn clocks_free_query(vacant: usize, samples_avail: u32) -> (n: u32)
    ensures
        n == free_query(vacant as int, samples_avail as int),
        n <= MAX_QUERY,
{
    let headroom: u32 = if samples_avail < BLIP_CAPACITY { BLIP_CAPACITY - samples_avail } else { 0 };
    let a: u32 = if vacant < headroom as usize { vacant as u32 } else { headroom };
    if a < MAX_QUERY { a } else { MAX_QUERY }
}

/// How many CPU clocks of emulation the output can still absorb: the frame
/// length the resampler needs to produce `clocks_free_query` more samples,
/// or 0 when it cannot hold that many. `vacant` is the free space of the ring
/// the samples go to.
pub fn clocks_free(blip: &BlipBuf, vacant: usize) -> (r: u32)
    requires
        blip_factor(*blip) >= 1,
        free_query(vacant as int, blip_avail(*blip) as int % 0x1_0000_0000) * 0x10_0000_0000_0000
            + blip_factor(*blip) < 0x1_0000_0000_0000_0000,
    ensures
        ({
            let n = free_query(vacant as int, blip_avail(*blip) as int % 0x1_0000_0000);
            r == if blip_avail(*blip) + n > blip_store_len(*blip) {
                0u32
            } else {
                blip_clocks_needed(*blip, n as u32)
            }
        }),
{
    let avail = samples_avail(blip);
    let n = clocks_free_query(vacant, avail);
    match clocks_needed(blip, n) {
        Ok(c) => c,
        Err(_) => 0,
    }
}

} // verus!
