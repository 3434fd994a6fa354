use lib::audio::AudioResampler;

#[test]
fn resampler_produces_correct_sample_count() {
    let mut r = AudioResampler::new(1_000_000, 44_100);
    for _ in 0..1_000_000 {
        r.tick(1000);
    }
    let mut buf = vec![0i16; 50_000];
    let n = r.fill_audio(&mut buf);
    assert!(
        (44_099..=44_101).contains(&n),
        "expected ~44100 samples, got {n}"
    );
}

#[test]
fn resampler_averages_correctly() {
    let mut r = AudioResampler::new(4, 1);
    r.tick(100);
    r.tick(200);
    r.tick(300);
    r.tick(400);

    let mut buf = [0i16; 4];
    let n = r.fill_audio(&mut buf);
    assert_eq!(n, 1);
    assert_eq!(buf[0], 250);
}

#[test]
fn tick_sample_returns_average_without_pushing() {
    let mut r = AudioResampler::new(4, 1);
    assert_eq!(r.tick_sample(100), None);
    assert_eq!(r.tick_sample(200), None);
    assert_eq!(r.tick_sample(300), None);
    assert_eq!(r.tick_sample(400), Some(250));

    let mut buf = [0i16; 4];
    assert_eq!(r.fill_audio(&mut buf), 0);
}

#[test]
fn push_sample_adds_to_buffer() {
    let mut r = AudioResampler::new(1_000_000, 44_100);
    r.push_sample(42);
    r.push_sample(-100);

    let mut buf = [0i16; 4];
    let n = r.fill_audio(&mut buf);
    assert_eq!(n, 2);
    assert_eq!(buf[0], 42);
    assert_eq!(buf[1], -100);
}

#[test]
fn fill_audio_drains_buffer() {
    let mut r = AudioResampler::new(2, 1);
    r.tick(100);
    r.tick(200);

    let mut buf = [0i16; 1];
    assert_eq!(r.fill_audio(&mut buf), 1);
    assert_eq!(buf[0], 150);

    assert_eq!(r.fill_audio(&mut buf), 0);
}

#[test]
fn reset_clears_all_state() {
    let mut r = AudioResampler::new(2, 1);
    r.tick(100);
    r.tick(200);
    r.reset();

    assert_eq!(r.sample_accum, 0);
    assert_eq!(r.sample_count, 0);
    assert_eq!(r.sample_phase, 0);
    assert!(r.buffer.is_empty());
}


#[test]
fn phase_step_is_due_when_it_reaches_the_input_rate() {
    assert_eq!(lib::audio::next_phase(0, 100, 30), (30, false));
    assert_eq!(lib::audio::next_phase(70, 100, 30), (0, true));
    assert_eq!(lib::audio::next_phase(90, 100, 30), (20, true));
}
