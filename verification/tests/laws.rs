use spinners::{Controls, Plot, Tip, GOLDEN_RATIO, MAX_TIME_SCALE, PI_RATIO, UNIT};

fn state(plot: &Plot) -> (i64, i64, i64, Vec<Tip>) {
    (plot.frequency_ratio(), plot.elapsed_time(), plot.time_scale(), plot.trace().clone())
}

#[test]
fn reset_is_idempotent() {
    let mut plot = Plot::new(PI_RATIO);
    plot.set_time_scale(4 * UNIT);
    let before = state(&plot);
    plot.reset();
    assert_eq!(state(&plot), before);
    plot.update(20_000, Controls::idle());
    plot.reset();
    let once = state(&plot);
    plot.reset();
    assert_eq!(state(&plot), once);
}

#[test]
fn reset_clears_history_after_many_frames() {
    let mut plot = Plot::new(PI_RATIO);
    for frame in 0..50 {
        plot.update(1_000 + 300 * frame, Controls::idle());
    }
    assert!(plot.elapsed_time() > 0);
    assert!(plot.trace().len() > 0);
    plot.reset();
    assert!(plot.trace().is_empty());
    assert_eq!(plot.elapsed_time(), 0);
}

#[test]
fn changing_the_ratio_resets_before_the_next_point() {
    let mut plot = Plot::new(GOLDEN_RATIO);
    for _ in 0..3 {
        plot.update(20_000, Controls::idle());
    }
    assert_eq!(plot.trace().len(), 66);
    plot.set_frequency_ratio(GOLDEN_RATIO - 1);
    assert!(plot.trace().is_empty());
    assert_eq!(plot.elapsed_time(), 0);
    plot.update(20_000, Controls::idle());
    assert_eq!(plot.trace()[0], Tip { primary: 0, secondary: 0 });
    assert!(plot.trace().iter().all(|t| *t == Tip::at(t.primary, GOLDEN_RATIO - 1)));
}

#[test]
fn time_is_monotonic() {
    let deltas: [i64; 8] = [0, 1, 4_000, 8_333, 8_334, 16_667, 10_000_000, i64::MAX];
    let scales: [i64; 5] = [0, 49_999, UNIT, 3_300_000, MAX_TIME_SCALE];
    for ratio in [1, 999_999, GOLDEN_RATIO, PI_RATIO, 5 * UNIT, i64::MAX] {
        let mut plot = Plot::new(ratio);
        let mut last = plot.elapsed_time();
        for scale in scales {
            plot.set_time_scale(scale);
            for delta in deltas {
                plot.update(delta, Controls::idle());
                assert!(plot.elapsed_time() >= last);
                last = plot.elapsed_time();
            }
        }
    }
}

#[test]
fn samples_of_a_forward_frame_are_in_time_order() {
    let mut plot = Plot::new(PI_RATIO);
    plot.set_time_scale(7_770_000);
    for _ in 0..4 {
        plot.update(7_001, Controls::idle());
    }
    let trace = plot.trace();
    assert_eq!(trace.len(), 4 * 157);
    assert!(trace.windows(2).all(|pair| pair[0].primary <= pair[1].primary));
    assert_eq!(trace[trace.len() - 1], plot.tip());
}

#[test]
fn frame_delta_clamp() {
    let mut stalled = Plot::new(5 * UNIT);
    stalled.update(10 * UNIT, Controls::idle());
    let mut steady = Plot::new(5 * UNIT);
    steady.update(8_334, Controls::idle());
    assert_eq!(stalled.elapsed_time(), 8_333);
    assert_eq!(steady.elapsed_time(), 8_333);
    assert_eq!(stalled.trace(), steady.trace());
    let mut brisk = Plot::new(5 * UNIT);
    brisk.update(8_000, Controls::idle());
    assert_eq!(brisk.elapsed_time(), 8_000);
}

#[test]
fn trace_growth() {
    let mut plot = Plot::new(PI_RATIO);
    plot.update(16_667, Controls::idle());
    assert_eq!(plot.trace().len(), 20 + 1 + 1);
    plot.update(16_667, Controls::idle());
    assert_eq!(plot.trace().len(), 2 * 22);
    plot.set_time_scale(MAX_TIME_SCALE);
    plot.update(16_667, Controls::idle());
    assert_eq!(plot.trace().len(), 2 * 22 + 202);
    plot.set_time_scale(1_999_999);
    plot.update(16_667, Controls::idle());
    assert_eq!(plot.trace().len(), 2 * 22 + 202 + 41);
}

#[test]
fn trace_growth_when_the_time_scale_rounds_to_zero() {
    let mut plot = Plot::new(PI_RATIO);
    plot.set_time_scale(49_999);
    let end = plot.update(20_000, Controls::idle());
    assert_eq!(plot.elapsed_time(), 663);
    assert_eq!(plot.trace(), &vec![end]);
    assert_eq!(end, Tip { primary: 663, secondary: 2_082 });
    plot.set_time_scale(50_000);
    plot.update(20_000, Controls::idle());
    assert_eq!(plot.elapsed_time(), 1_326);
    let first = Tip { primary: 663, secondary: 2_082 };
    let second = Tip { primary: 1_326, secondary: 4_165 };
    assert_eq!(plot.trace(), &vec![first, first, second, second]);
}

#[test]
fn zero_time_scale_stands_still() {
    let mut plot = Plot::new(PI_RATIO);
    plot.update(16_667, Controls::idle());
    plot.update(16_667, Controls::idle());
    let clock = plot.elapsed_time();
    let stood = plot.tip();
    let before = plot.trace().len();
    plot.set_time_scale(0);
    for frame in 0..7 {
        let end = plot.update(16_667 * (frame + 1), Controls::idle());
        assert_eq!(end, stood);
        assert_eq!(plot.elapsed_time(), clock);
        assert_eq!(plot.trace().len(), before + frame as usize + 1);
    }
    assert!(plot.trace()[before..].iter().all(|t| *t == stood));
    assert_eq!(clock, 26_524);
}

#[test]
fn zero_time_scale_ignores_the_frame_delta() {
    let mut plot = Plot::new(GOLDEN_RATIO);
    let still = Controls { reset: false, frequency_ratio: Some(GOLDEN_RATIO), time_scale: Some(0) };
    plot.update(16_667, still);
    assert_eq!(plot.elapsed_time(), 25_751);
    assert_eq!(plot.time_scale(), 0);
    let stood = Tip { primary: 25_751, secondary: 41_665 };
    for delta in [i64::MIN, -1, 0, 1, 8_334, i64::MAX] {
        let end = plot.update(delta, still);
        assert_eq!(plot.elapsed_time(), 25_751);
        assert_eq!(end, stood);
    }
    assert_eq!(plot.trace().len(), 22 + 6);
    assert!(plot.trace()[21..].iter().all(|t| *t == stood));
}

#[test]
fn the_trace_ends_at_the_tip() {
    let mut plot = Plot::new(GOLDEN_RATIO);
    let frames = [
        Controls::idle(),
        Controls { reset: false, frequency_ratio: None, time_scale: Some(30_000) },
        Controls::idle(),
        Controls { reset: true, frequency_ratio: None, time_scale: None },
        Controls { reset: false, frequency_ratio: Some(PI_RATIO), time_scale: Some(UNIT) },
        Controls::idle(),
    ];
    for controls in frames {
        let end = plot.update(9_999, controls);
        assert_eq!(plot.trace().last(), Some(&end));
        assert_eq!(plot.tip(), end);
    }
}
