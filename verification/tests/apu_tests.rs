use nes_emulator::nes::apu::channel::{timer_high, timer_low};
use nes_emulator::nes::apu::divider::Divider;
use nes_emulator::nes::apu::envelope::Envelope;
use nes_emulator::nes::apu::length_counter::{length_counter_table, LengthCounter};
use nes_emulator::nes::apu::noise_channel::NoiseChannel;
use nes_emulator::nes::apu::pulse_channel::PulseChannel;
use nes_emulator::nes::apu::sweeper::Sweeper;
use nes_emulator::nes::apu::triangle_channel::TriangleChannel;
use nes_emulator::nes::apu::{APUChannels, APU};

#[test]
fn divider_fires_once_per_period() {
    let mut d = Divider::new(2);
    assert_eq!(d.get_period(), 2);
    let fired: Vec<bool> = (0..7).map(|_| d.tick()).collect();
    assert_eq!(fired, vec![true, false, false, true, false, false, true]);
    d.set_period(0);
    assert_eq!(d.get_period(), 0);
}

#[test]
fn envelope_decays_from_15() {
    let mut e = Envelope::new();
    assert_eq!(e.volume(), 15);
    e.set_params(true, 7, false);
    assert_eq!(e.volume(), 7);
    assert!(!e.loop_flag());
    e.set_params(false, 0, true);
    assert!(e.loop_flag());
    e.tick(); // start: level 15, divider reloaded with 0
    assert_eq!(e.volume(), 15);
    for expected in (0..15).rev() {
        e.tick();
        assert_eq!(e.volume(), expected);
    }
    // Looping: from 0 back to 15.
    e.tick();
    assert_eq!(e.volume(), 15);
    e.set_start();
    e.tick();
    assert_eq!(e.volume(), 15);
}

#[test]
fn envelope_stops_at_zero_without_loop() {
    let mut e = Envelope::new();
    e.set_constant_volume_flag(false);
    e.set_volume(0);
    for _ in 0..40 {
        e.tick();
    }
    assert_eq!(e.volume(), 0);
    e.set_constant_volume_flag(true);
    e.set_volume(9);
    assert_eq!(e.volume(), 9);
}

#[test]
fn length_table_values() {
    assert_eq!(length_counter_table(0x00), 10);
    assert_eq!(length_counter_table(0x01), 254);
    assert_eq!(length_counter_table(0x18), 192);
    assert_eq!(length_counter_table(0x1F), 30);
}

#[test]
fn length_counter_counts_down_when_enabled() {
    let mut c = LengthCounter::new();
    c.set_counter(0);
    assert!(!c.active());
    c.set_enabled(true);
    c.set_counter(0x03); // 2
    assert!(c.active());
    c.tick();
    assert!(c.active());
    c.tick();
    assert!(!c.active());
    c.tick();
    assert!(!c.active());
    c.set_counter(0x00);
    c.set_halt(true);
    for _ in 0..20 {
        c.tick();
    }
    assert!(c.active());
    c.set_enabled(false);
    assert!(!c.active());
}

#[test]
fn timer_bits() {
    assert_eq!(timer_low(0x0700, 0x34), 0x0734);
    assert_eq!(timer_low(0x0712, 0xFF), 0x07FF);
    assert_eq!(timer_high(0x00AB, 0x05), 0x05AB);
    assert_eq!(timer_high(0x07AB, 0xF8), 0x00AB);
}

#[test]
fn sweep_targets() {
    let mut s = Sweeper::new();
    s.configure(true, 0, false, 1);
    assert_eq!(s.target_period(0x100), 0x180);
    assert!(!s.mute(0x400));
    assert!(s.mute(0x600));
    assert!(s.mute(7));
    s.configure(true, 0, true, 1);
    assert_eq!(s.target_period(0x100), 0x7F);
    // One tick with the divider at 0 applies the sweep.
    assert_eq!(s.tick(0x100), 0x7F);
    s.reset();
    s.configure(false, 3, false, 1);
    assert_eq!(s.tick(0x100), 0x100);
}

#[test]
fn pulse_channel_silent_until_loaded() {
    let mut p = PulseChannel::new();
    assert_eq!(p.get_output(), 0);
    p.set_enabled(true);
    p.set(0, 0b1001_1111); // duty 2, constant volume 15
    p.set(2, 0x00);
    p.set(3, 0x01); // period 0x100, length index 0
    // Duty 2 is 0 at step 0.
    assert_eq!(p.get_output(), 0);
    p.tick();
    // The divider was at 0: the sequencer moved to step 1, which is high.
    assert_eq!(p.get_output(), 15);
    p.tick_envelope();
    p.tick_length_counter();
    p.tick_sweep();
    assert_eq!(p.get_output(), 15);
    p.set_enabled(false);
    assert_eq!(p.get_output(), 0);
}

#[test]
fn triangle_channel_plays_its_sequence() {
    let mut t = TriangleChannel::new();
    assert_eq!(t.get_output(), 0);
    t.set_enabled(true);
    t.set(0, 0x7F);
    t.set(2, 0x10);
    t.set(3, 0x00);
    t.tick_linear_counter();
    t.tick_length_counter();
    t.tick();
    // One step into the sequence 15, 14, ...
    assert_eq!(t.get_output(), 14);
}

#[test]
fn noise_channel_output() {
    let mut n = NoiseChannel::new();
    assert_eq!(n.get_output(), 0);
    n.set_enabled(true);
    n.set(0, 0x1F); // constant volume 15
    n.set(2, 0x00);
    n.set(3, 0x00);
    // Shift register starts at 1: bit 0 set.
    assert_eq!(n.get_output(), 15);
    n.tick();
    n.tick_envelope();
    n.tick_length_counter();
    assert!(n.get_output() == 0 || n.get_output() == 15);
}

#[test]
fn apu_registers_and_clocks() {
    let mut apu = APU::new();
    apu.write(0x4015, 0x0F);
    assert_eq!(apu.read(0x4015), 0);
    apu.write(0x4000, 0x3F);
    apu.write(0x4017, 0x80);
    for _ in 0..10000 {
        apu.tick_half_clock();
    }
    apu.tick_full_clock();
    let c: &APUChannels = apu.channels();
    assert_eq!(c.pulse_1.get_output(), 0);
    let fresh = APUChannels::new();
    assert_eq!(fresh.triangle.get_output(), 0);
}

#[test]
fn sweep_target_works_in_signed_16_bits() {
    let mut s = Sweeper::new();
    s.configure(true, 0, false, 1);
    // 0x9000 is negative as a signed 16-bit value: -28672 + 18432 clamps to 0.
    assert_eq!(s.target_period(0x9000), 0);
    assert!(!s.mute(0x9000));
    assert_eq!(s.target_period(0x100), 0x180);
    s.configure(true, 0, true, 1);
    assert_eq!(s.target_period(0x100), 0x7F);
}
