use geoprim::interpolate::{interpolate as lerp, Ease};

fn close(a: f64, b: f64) -> bool {
    (a - b).abs() < 1e-9
}

#[test]
fn interpolate_on_integers() {
    assert_eq!(lerp(10, 20, 0), 10);
    assert_eq!(lerp(10, 20, 1), 20);
    assert_eq!(lerp(10, 20, 3), 40);
    assert_eq!(lerp(20, 10, 2), 0);
}

#[test]
fn interpolate_between_other_ends() {
    assert_eq!(lerp(2.0, 6.0, 0.5), 4.0);
    assert_eq!(lerp(6.0, 2.0, 0.25), 5.0);
    assert_eq!(lerp(-1.0, 1.0, 2.0), 3.0);
}

#[test]
fn ease_linear() {
    assert_eq!(Ease.linear(0.0), 0.0);
    assert_eq!(Ease.linear(0.5), 0.5);
    assert_eq!(Ease.linear(1.0), 1.0);
    assert_eq!(Ease.linear(0.25), 0.25);
    assert_eq!(Ease.linear(0.75), 0.75);
}

#[test]
fn powers_of_a_half() {
    assert_eq!(Ease.quad_in(0.5), 0.25);
    assert_eq!(Ease.cubic_in(0.5), 0.125);
    assert_eq!(Ease.quart_in(0.5), 0.0625);
    assert_eq!(Ease.quint_in(0.5), 0.03125);
    assert_eq!(Ease.sext_in(0.5), 0.015625);
    assert_eq!(Ease.sept_in(0.5), 0.0078125);
    assert_eq!(Ease.oct_in(0.5), 0.00390625);
}

#[test]
fn powers_on_integers() {
    assert_eq!(Ease.quad_in(3), 9);
    assert_eq!(Ease.cubic_in(3), 27);
    assert_eq!(Ease.quart_in(3), 81);
    assert_eq!(Ease.quint_in(3), 243);
    assert_eq!(Ease.sext_in(3), 729);
    assert_eq!(Ease.sept_in(3), 2187);
    assert_eq!(Ease.oct_in(3i64), 6561);
    assert_eq!(Ease.quad_out(3i64), -3);
    assert_eq!(Ease.cubic_out(3i64), 9);
    assert_eq!(Ease.quad_inout(3i64), -7);
    assert_eq!(Ease.quad_inout(-1i64), 2);
}

#[test]
fn out_curves_mirror_the_in_curves() {
    assert_eq!(Ease.quad_out(0.5), 0.75);
    assert_eq!(Ease.cubic_out(0.5), 0.875);
    assert_eq!(Ease.quart_out(0.5), 0.9375);
    assert_eq!(Ease.quint_out(0.5), 0.96875);
    assert_eq!(Ease.sext_out(0.5), 0.984375);
    assert_eq!(Ease.sept_out(0.5), 0.9921875);
    assert_eq!(Ease.oct_out(0.5), 0.99609375);
    assert_eq!(Ease.quad_out(0.25), 1.0 - Ease.quad_in(0.75));
}

#[test]
fn inout_curves_in_their_first_half() {
    assert_eq!(Ease.quad_inout(0.25), 0.125);
    assert_eq!(Ease.cubic_inout(0.25), 0.0625);
    assert_eq!(Ease.quart_inout(0.25), 0.03125);
    assert_eq!(Ease.quint_inout(0.25), 0.015625);
    assert_eq!(Ease.sext_inout(0.25), 0.0078125);
    assert_eq!(Ease.sept_inout(0.25), 0.00390625);
    assert_eq!(Ease.oct_inout(0.25), 0.001953125);
}

#[test]
fn inout_curves_in_their_second_half() {
    assert_eq!(Ease.quad_inout(0.75), 0.875);
    assert_eq!(Ease.cubic_inout(0.75), 0.9375);
    assert_eq!(Ease.quart_inout(0.75), 0.96875);
    assert_eq!(Ease.quint_inout(0.75), 0.984375);
    assert_eq!(Ease.sext_inout(0.75), 0.9921875);
    assert_eq!(Ease.sept_inout(0.75), 0.99609375);
    assert_eq!(Ease.oct_inout(0.75), 0.998046875);
}

#[test]
fn every_curve_starts_at_zero_and_ends_at_one() {
    let e = Ease;
    let at = |f: &dyn Fn(f64) -> f64| (f(0.0), f(1.0));
    let curves: Vec<Box<dyn Fn(f64) -> f64>> = vec![
        Box::new(move |t| e.linear(t)),
        Box::new(move |t| e.quad_in(t)),
        Box::new(move |t| e.quad_out(t)),
        Box::new(move |t| e.quad_inout(t)),
        Box::new(move |t| e.cubic_in(t)),
        Box::new(move |t| e.cubic_out(t)),
        Box::new(move |t| e.cubic_inout(t)),
        Box::new(move |t| e.quart_in(t)),
        Box::new(move |t| e.quart_out(t)),
        Box::new(move |t| e.quart_inout(t)),
        Box::new(move |t| e.quint_in(t)),
        Box::new(move |t| e.quint_out(t)),
        Box::new(move |t| e.quint_inout(t)),
        Box::new(move |t| e.sext_in(t)),
        Box::new(move |t| e.sext_out(t)),
        Box::new(move |t| e.sext_inout(t)),
        Box::new(move |t| e.sept_in(t)),
        Box::new(move |t| e.sept_out(t)),
        Box::new(move |t| e.sept_inout(t)),
        Box::new(move |t| e.oct_in(t)),
        Box::new(move |t| e.oct_out(t)),
        Box::new(move |t| e.oct_inout(t)),
        Box::new(move |t| e.sine_in(t)),
        Box::new(move |t| e.sine_out(t)),
        Box::new(move |t| e.sine_inout(t)),
        Box::new(move |t| e.expo_inout(t)),
        Box::new(move |t| e.circ_in(t)),
        Box::new(move |t| e.circ_out(t)),
        Box::new(move |t| e.circ_inout(t)),
        Box::new(move |t| e.elastic_in(t)),
        Box::new(move |t| e.back_in_with(t, 1.70158)),
        Box::new(move |t| e.back_out_with(t, 1.70158)),
        Box::new(move |t| e.back_inout_with(t, 3.22658)),
    ];
    for f in curves.iter() {
        let (first, last) = at(f.as_ref());
        assert!(close(first, 0.0));
        assert!(close(last, 1.0));
    }
}

#[test]
fn inout_curves_are_continuous_in_the_middle() {
    let e = Ease;
    let before = 0.5 - 1e-12;
    let curves: Vec<Box<dyn Fn(f64) -> f64>> = vec![
        Box::new(move |t| e.quad_inout(t)),
        Box::new(move |t| e.cubic_inout(t)),
        Box::new(move |t| e.quart_inout(t)),
        Box::new(move |t| e.quint_inout(t)),
        Box::new(move |t| e.sext_inout(t)),
        Box::new(move |t| e.sept_inout(t)),
        Box::new(move |t| e.oct_inout(t)),
        Box::new(move |t| e.sine_inout(t)),
        Box::new(move |t| e.expo_inout(t)),
        Box::new(move |t| e.circ_inout(t)),
        Box::new(move |t| e.back_inout_with(t, 3.22658)),
    ];
    for f in curves.iter() {
        assert!(close(f(0.5), 0.5));
        assert!((f(before) - f(0.5)).abs() < 1e-5);
    }
}

#[test]
fn sine_curves() {
    assert!(close(Ease.sine_in(0.5), 1.0 - std::f64::consts::FRAC_PI_4.cos()));
    assert!(close(Ease.sine_out(0.5), std::f64::consts::FRAC_PI_4.sin()));
    assert!(close(Ease.sine_inout(0.25), (1.0 - std::f64::consts::FRAC_PI_4.cos()) / 2.0));
    assert!(close(Ease.sine_in_with(0.25), 0.75));
    assert!(close(Ease.sine_inout_with(0.0), 0.5));
    assert_eq!(Ease.sine_in_with(3), -2);
    assert_eq!(Ease.sine_inout_with(-3), 2);
}

#[test]
fn expo_curves() {
    assert_eq!(Ease.expo_in(0.0), 0.0);
    assert_eq!(Ease.expo_in(1.0), 1.0);
    assert_eq!(Ease.expo_in(0.5), 0.03125);
    assert_eq!(Ease.expo_in(0.9), 2.0f64.powf(-1.0));
    assert_eq!(Ease.expo_out(1.0), 1.0);
    assert_eq!(Ease.expo_out(0.0), 0.0);
    assert_eq!(Ease.expo_out(0.5), 0.96875);
    assert_eq!(Ease.expo_inout(0.0), 0.0);
    assert_eq!(Ease.expo_inout(1.0), 1.0);
    assert_eq!(Ease.expo_inout(0.25), 0.015625);
    assert_eq!(Ease.expo_inout(0.75), 0.984375);
}

#[test]
fn expo_curves_with_a_given_power() {
    assert_eq!(Ease.expo_out_with(1, 7), 1);
    assert_eq!(Ease.expo_out_with(0, 7), -6);
    assert_eq!(Ease.expo_inout_with(0.0, 9.0), 0.0);
    assert_eq!(Ease.expo_inout_with(1.0, 9.0), 1.0);
    assert_eq!(Ease.expo_inout_with(0.25, 0.5), 0.25);
    assert_eq!(Ease.expo_inout_with(0.75, 0.5), 0.75);
    assert_eq!(Ease.expo_inout_exponent(0.25), -5.0);
    assert_eq!(Ease.expo_inout_exponent(0.75), -5.0);
    assert_eq!(Ease.expo_inout_exponent(0.5), 0.0);
}

#[test]
fn circ_curves() {
    assert!(close(Ease.circ_in(0.6), 0.2));
    assert!(close(Ease.circ_out(0.4), 0.8));
    assert!(close(Ease.circ_inout(0.3), 0.1));
    assert!(close(Ease.circ_inout(0.7), 0.9));
    assert_eq!(Ease.circ_in_with(0.25), 0.75);
    assert_eq!(Ease.circ_inout_with(0.25, 0.5), 0.25);
    assert_eq!(Ease.circ_inout_with(0.75, 0.5), 0.75);
    assert_eq!(Ease.circ_inout_square(0.25), 0.75);
    assert_eq!(Ease.circ_inout_square(0.75), 0.75);
}

#[test]
fn back_curves_overshoot() {
    let c1 = 1.70158;
    let c3 = 3.22658;
    assert!(Ease.back_in_with(0.2, c1) < 0.0);
    assert!(Ease.back_out_with(0.8, c1) > 1.0);
    assert!(Ease.back_inout_with(0.1, c3) < 0.0);
    assert!(Ease.back_inout_with(0.9, c3) > 1.0);
    assert!(close(Ease.back_in_with(0.5, c1), 2.70158 * 0.125 - c1 * 0.25));
    assert!(close(Ease.back_out_with(0.5, c1), 1.0 - 2.70158 * 0.125 + c1 * 0.25));
    assert_eq!(Ease.back_in_with(2, 1), 12);
    assert_eq!(Ease.back_out_with(2, 1), 4);
    assert_eq!(Ease.back_inout_with(2i64, 1), 11);
    assert_eq!(Ease.back_inout_with(-1i64, 1), -10);
}

#[test]
fn elastic_curve() {
    assert_eq!(Ease.elastic_in(0.0), 0.0);
    assert_eq!(Ease.elastic_in(1.0), 1.0);
    let t: f64 = 0.5;
    let c4 = 2.0 * std::f64::consts::PI / (1.0 / 3.0);
    let expected = -(2.0f64.powf(10.0 * t - 10.0)) * ((t * 10.0 - 10.75) * c4).sin();
    assert!(close(Ease.elastic_in(t), expected));
    assert_eq!(Ease.elastic_in_with(0.5, 2.0, 0.25), -0.5);
    assert_eq!(Ease.elastic_in_with(0.0, 2.0, 0.25), 0.0);
    assert_eq!(Ease.elastic_in_with(1.0, 2.0, 0.25), 1.0);
    assert!(close(Ease.elastic_angle(1.0, 1.0), -0.75 * 6.0));
}

#[test]
fn clamp_rounds_to_the_nearest_whole_number() {
    assert_eq!(Ease.clamp(0.4), 0.0);
    assert_eq!(Ease.clamp(0.5), 1.0);
    assert_eq!(Ease.clamp(0.6), 1.0);
    assert_eq!(Ease.clamp(-0.5), -1.0);
    assert_eq!(Ease.clamp(2.5f32), 3.0);
}
