use spinners::{Controls, Plot, Tip, GOLDEN_RATIO, PI_RATIO, UNIT};

fn arms(tip: &Tip) -> ([f64; 2], [f64; 2]) {
    let primary = tip.primary as f64 / UNIT as f64;
    let secondary = tip.secondary as f64 / UNIT as f64;
    let joint = [primary.cos(), primary.sin()];
    let end = [joint[0] + secondary.cos(), joint[1] + secondary.sin()];
    (joint, end)
}

fn distance(a: [f64; 2], b: [f64; 2]) -> f64 {
    ((a[0] - b[0]).powi(2) + (a[1] - b[1]).powi(2)).sqrt()
}

#[test]
fn both_arms_have_unit_length() {
    for ratio in [PI_RATIO, GOLDEN_RATIO, -PI_RATIO, 1, 5 * UNIT] {
        let mut plot = Plot::new(ratio);
        plot.set_time_scale(3 * UNIT);
        for _ in 0..40 {
            plot.update(16_667, Controls::idle());
        }
        for tip in plot.trace() {
            let (joint, end) = arms(tip);
            assert!((distance(joint, [0.0, 0.0]) - 1.0).abs() < 1e-12);
            assert!((distance(end, joint) - 1.0).abs() < 1e-12);
        }
    }
}

#[test]
fn a_plot_at_rest_points_to_two_on_the_x_axis() {
    let plot = Plot::new(PI_RATIO);
    let (joint, end) = arms(&plot.tip());
    assert_eq!(joint, [1.0, 0.0]);
    assert_eq!(end, [2.0, 0.0]);
}

#[test]
fn the_secondary_arm_turns_at_the_frequency_ratio() {
    let tip = Tip::at(UNIT, 2 * UNIT);
    let (joint, end) = arms(&tip);
    assert!((joint[0] - 1f64.cos()).abs() < 1e-12);
    assert!((joint[1] - 1f64.sin()).abs() < 1e-12);
    assert!((end[0] - (1f64.cos() + 2f64.cos())).abs() < 1e-12);
    assert!((end[1] - (1f64.sin() + 2f64.sin())).abs() < 1e-12);
}
