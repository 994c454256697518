use blip_buf::BlipBuf;
use nes_emulator::sound::{clocks_free, clocks_free_query, push_sample, BLIP_CAPACITY, MAX_QUERY};

#[test]
fn query_is_limited_by_ring_room_and_cap() {
    assert_eq!(clocks_free_query(100, 0), 100);
    assert_eq!(clocks_free_query(10_000, 0), MAX_QUERY);
    assert_eq!(clocks_free_query(10_000, BLIP_CAPACITY - 5), 5);
    assert_eq!(clocks_free_query(10_000, BLIP_CAPACITY + 7), 0);
    assert_eq!(clocks_free_query(0, 0), 0);
}

#[test]
fn clocks_free_asks_the_resampler() {
    let mut blip = BlipBuf::new(BLIP_CAPACITY);
    blip.set_rates(1_789_773.0, 48_000.0).unwrap();
    let expected = blip.clocks_needed(300).unwrap();
    assert_eq!(clocks_free(&blip, 300), expected);
    assert!(expected > 0);
    assert_eq!(clocks_free(&blip, 100_000), blip.clocks_needed(MAX_QUERY).unwrap());
}

#[test]
fn only_level_changes_reach_the_resampler() {
    let mut blip = BlipBuf::new(BLIP_CAPACITY);
    let mut last = 0;
    push_sample(&mut blip, &mut last, 10, 0);
    assert_eq!(last, 0);
    push_sample(&mut blip, &mut last, 20, 15);
    assert_eq!(last, 15);
    push_sample(&mut blip, &mut last, 30, 3);
    assert_eq!(last, 3);
    assert_eq!(blip.samples_avail(), 0);
}
