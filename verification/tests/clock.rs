use lib::clock::ClockDivider;

#[test]
fn ratio_25_192_fires_exactly_25_times() {
    let mut clk = ClockDivider::new(25, 192);
    let mut fires = 0;
    for _ in 0..192 {
        if clk.tick() {
            fires += 1;
        }
    }
    assert_eq!(fires, 25);
}

#[test]
fn ratio_1_1_fires_every_tick() {
    let mut clk = ClockDivider::new(1, 1);
    for _ in 0..100 {
        assert!(clk.tick());
    }
}

#[test]
fn ratio_1_3_fires_once_per_three() {
    let mut clk = ClockDivider::new(1, 3);
    let mut fires = 0;
    for _ in 0..300 {
        if clk.tick() {
            fires += 1;
        }
    }
    assert_eq!(fires, 100);
}

#[test]
fn reset_clears_accumulator() {
    let mut clk = ClockDivider::new(25, 192);
    for _ in 0..50 {
        clk.tick();
    }
    clk.reset();
    assert_eq!(clk.phase_accum, 0);
}

