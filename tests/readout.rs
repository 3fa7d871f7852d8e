use orbits::fixed::{FixedComplex, ONE};
use orbits::readout::readout;

fn fc(re: i64, im: i64) -> FixedComplex {
    FixedComplex { re, im }
}

fn float_text(c: &FixedComplex) -> String {
    let re = c.re as f64 / ONE as f64;
    let im = c.im as f64 / ONE as f64;
    format!("{:.8} {:+.8}i", re, im)
}

#[test]
fn readout_of_simple_points() {
    assert_eq!(readout(&fc(-ONE / 2, 5 * ONE / 4)), "-0.50000000 +1.25000000i");
    assert_eq!(readout(&fc(0, 0)), "0.00000000 +0.00000000i");
    assert_eq!(readout(&fc(-3 * ONE / 2, -ONE)), "-1.50000000 -1.00000000i");
    assert_eq!(readout(&fc(1000 * ONE, ONE / 3)), "1000.00000000 +0.33333333i");
}

#[test]
fn readout_keeps_sign_of_tiny_negatives() {
    assert_eq!(readout(&fc(-1, -1)), "-0.00000000 -0.00000000i");
}

#[test]
fn readout_rounds_ties_to_even() {
    // 2^-9 = 0.001953125 lies halfway between two eighth decimals
    let c = fc(549755813888, 3 * 549755813888);
    assert_eq!(readout(&c), "0.00195312 +0.00585938i");
}

#[test]
fn readout_matches_float_formatting() {
    for &(re, im) in &[
        (123456789, -987654321),
        (ONE / 7, -ONE / 9),
        (-12345 * ONE / 1000, 2 * ONE + 17),
        (549755813888 * 5, -549755813888 * 7),
    ] {
        let c = fc(re, im);
        assert_eq!(readout(&c), float_text(&c));
    }
}
