use spinners::{App, Controls, Plot, Tip, GOLDEN_RATIO, PI_RATIO, UNIT};

#[test]
fn the_shell_starts_with_two_plots_at_rest() {
    let app = App::new(true);
    let plots = app.plots();
    assert_eq!(plots.len(), 2);
    assert_eq!(plots[0].frequency_ratio(), PI_RATIO);
    assert_eq!(plots[1].frequency_ratio(), GOLDEN_RATIO);
    for plot in plots {
        assert_eq!(plot.elapsed_time(), 0);
        assert_eq!(plot.time_scale(), UNIT);
        assert!(plot.trace().is_empty());
    }
}

#[test]
fn the_shell_remembers_its_theme() {
    let mut dark = App::new(true);
    let mut light = App::new(false);
    assert!(dark.dark_mode());
    assert!(!light.dark_mode());
    let reset = Controls { reset: true, frequency_ratio: Some(1), time_scale: Some(0) };
    dark.update(16_667, [reset, reset]);
    light.update(16_667, [Controls::idle(), reset]);
    assert!(dark.dark_mode());
    assert!(!light.dark_mode());
}

#[test]
fn the_default_ratios_are_pi_and_the_golden_ratio() {
    assert_eq!(PI_RATIO, 3_141_593);
    assert_eq!(GOLDEN_RATIO, 1_618_034);
    assert!(PI_RATIO != GOLDEN_RATIO);
}

#[test]
fn a_frame_runs_both_plots_and_asks_for_the_next() {
    let mut app = App::new(true);
    let frame = app.update(16_667, [Controls::idle(), Controls::idle()]);
    assert!(frame.repaint);
    assert_eq!(frame.tips[0], Tip { primary: 13_262, secondary: 41_663 });
    assert_eq!(frame.tips[1], Tip { primary: 25_751, secondary: 41_665 });
    let plots = app.plots();
    assert_eq!(plots[0].elapsed_time(), 13_262);
    assert_eq!(plots[1].elapsed_time(), 25_751);
    assert_eq!(plots[0].trace().len(), 22);
    assert_eq!(plots[1].trace().len(), 22);
    assert_eq!(plots[0].tip(), frame.tips[0]);
    assert_eq!(plots[1].tip(), frame.tips[1]);
}

#[test]
fn every_frame_asks_for_the_next() {
    let mut app = App::new(true);
    let still = Controls { reset: false, frequency_ratio: None, time_scale: Some(0) };
    assert!(app.update(0, [still, still]).repaint);
    for _ in 0..5 {
        assert!(app.update(0, [Controls::idle(), Controls::idle()]).repaint);
    }
    let reset = Controls { reset: true, frequency_ratio: None, time_scale: None };
    assert!(app.update(-1, [reset, reset]).repaint);
}

#[test]
fn the_shell_drives_each_plot_as_it_would_run_alone() {
    let mut app = App::new(true);
    let mut left = Plot::new(PI_RATIO);
    let mut right = Plot::new(GOLDEN_RATIO);
    let script = [
        (16_667, Controls::idle(), Controls::idle()),
        (5_000, Controls { reset: false, frequency_ratio: None, time_scale: Some(3 * UNIT) }, Controls::idle()),
        (8_000, Controls::idle(), Controls { reset: true, frequency_ratio: None, time_scale: None }),
        (12_000, Controls { reset: false, frequency_ratio: Some(7 * UNIT), time_scale: None }, Controls::idle()),
        (3_000, Controls::idle(), Controls::idle()),
    ];
    for (delta, for_left, for_right) in script {
        let frame = app.update(delta, [for_left, for_right]);
        let left_tip = left.update(delta, for_left);
        let right_tip = right.update(delta, for_right);
        assert_eq!(frame.tips, [left_tip, right_tip]);
        let plots = app.plots();
        assert_eq!(plots[0].trace(), left.trace());
        assert_eq!(plots[1].trace(), right.trace());
        assert_eq!(plots[0].elapsed_time(), left.elapsed_time());
        assert_eq!(plots[1].elapsed_time(), right.elapsed_time());
        assert_eq!(plots[0].time_scale(), left.time_scale());
        assert_eq!(plots[1].frequency_ratio(), right.frequency_ratio());
    }
}

#[test]
fn resetting_one_plot_leaves_the_other_alone() {
    let mut app = App::new(true);
    app.update(16_667, [Controls::idle(), Controls::idle()]);
    let reset = Controls { reset: true, frequency_ratio: None, time_scale: None };
    app.update(16_667, [reset, Controls::idle()]);
    let plots = app.plots();
    assert_eq!(plots[0].elapsed_time(), 0);
    assert_eq!(plots[0].trace().len(), 1);
    assert_eq!(plots[1].elapsed_time(), 51_502);
    assert_eq!(plots[1].trace().len(), 44);
}
