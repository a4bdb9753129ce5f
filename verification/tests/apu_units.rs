use nescore::chnl::{length_table, LengthCounter, Noise, Pulse, Triangle};

#[test]
fn length_table_matches_canonical_values() {
    let canonical: [u8; 32] = [
        10, 254, 20, 2, 40, 4, 80, 6, 160, 8, 60, 10, 14, 12, 26, 14, 12, 16, 24, 18, 48, 20, 96,
        22, 192, 24, 72, 26, 16, 28, 32, 30,
    ];
    for i in 0..32 {
        assert_eq!(length_table(i), canonical[i]);
    }
}

#[test]
fn length_counter_loads_and_counts() {
    let mut lc = LengthCounter::default();
    lc.set_enabled(true);
    lc.load(1);
    assert_eq!(lc.counter, 254);
    lc.tick();
    assert_eq!(lc.counter, 253);
    lc.set_halt(true);
    lc.tick();
    assert_eq!(lc.counter, 253);
    lc.set_enabled(false);
    assert_eq!(lc.counter, 0);
    assert!(lc.silenced());
}

#[test]
fn pulse_sweep_target_overflow_mutes() {
    let mut p = Pulse::new(false);
    // enable the channel and give it something to play
    p.lenctr.set_enabled(true);
    p.write_reg(0, 0b1011_1111); // duty 2, halt, constant volume 15
    p.write_reg(2, 0xF0); // period low
    p.write_reg(3, 0x07 | (1 << 3)); // period high bits -> $7F0, load length
    // sweep: enabled, add mode, shift 1 -> target $7F0 + $3F8 > $7FF
    p.write_reg(1, 0b1000_0001);
    assert!(p.sweep_target() > 0x7FF);
    assert_eq!(p.output(), 0);
}

#[test]
fn pulse_low_period_mutes() {
    let mut p = Pulse::new(false);
    p.lenctr.set_enabled(true);
    p.write_reg(0, 0b1011_1111);
    p.write_reg(2, 0x04); // period 4 < 8
    p.write_reg(3, 1 << 3);
    assert_eq!(p.output(), 0);
}

#[test]
fn triangle_sequence_walks_down_then_up() {
    let mut t = Triangle::new();
    assert_eq!(t.output(), 15);
    t.lenctr.set_enabled(true);
    t.write_reg(0, 0x7F); // control + full linear reload
    t.write_reg(2, 0x00); // period 0: sequencer advances every clock
    t.write_reg(3, 1 << 3); // load length, set linear reload
    // quarter frame latches the linear counter
    t.quarter_frame();
    t.clock_timer();
    assert_eq!(t.output(), 14);
    for _ in 0..14 {
        t.clock_timer();
    }
    assert_eq!(t.output(), 0);
    t.clock_timer();
    assert_eq!(t.output(), 0);
    t.clock_timer();
    assert_eq!(t.output(), 1);
}

#[test]
fn noise_register_writes_touch_length_counter() {
    let mut n = Noise::new();
    n.lenctr.set_enabled(true);
    n.write_byte(0, 0x20);
    assert!(n.lenctr.halt);
    n.write_byte(3, 1 << 3); // length index 1 -> 254
    assert_eq!(n.lenctr.counter, 254);
}
