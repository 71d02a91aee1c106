use forecast::number::Number;
use forecast::precipitation::{
    Precipitation, LIGHT_FROM, MODERATE_FROM, MODERATE_TO, NONE_FROM, VERY_LIGHT_FROM,
};

fn num(x: f64) -> Number {
    Number::from_bits(x.to_bits())
}

fn word(intensity: f64) -> String {
    Precipitation { intensity: num(intensity), probability: num(0.5) }.human_intensity()
}

fn report(probability: f64, intensity: f64) -> String {
    let percent = format!("{}", (probability * 100.0).round());
    Precipitation { intensity: num(intensity), probability: num(probability) }.sentence(&percent)
}

#[test]
fn from_bits_keeps_the_bits() {
    assert_eq!(Number::from_bits(0x3ff0_0000_0000_0000).bits, 1.0f64.to_bits());
    assert_eq!(f64::from_bits(num(0.25).bits), 0.25);
}

#[test]
fn order_agrees_with_the_floating_point_order() {
    let samples = [
        0.0,
        -0.0,
        0.002,
        0.017,
        0.1,
        0.4,
        0.5,
        1.0,
        -1.0,
        -0.002,
        5e-324,
        -5e-324,
        f64::MIN_POSITIVE,
        f64::MAX,
        f64::MIN,
        f64::INFINITY,
        f64::NEG_INFINITY,
        f64::NAN,
        -f64::NAN,
        1e300,
        -1e300,
    ];
    for a in samples {
        for b in samples {
            assert_eq!(num(a).at_most(&num(b)), a <= b, "{a} <= {b}");
        }
    }
}

#[test]
fn negative_zero_is_at_most_zero_and_back() {
    assert!(num(-0.0).at_most(&num(0.0)));
    assert!(num(0.0).at_most(&num(-0.0)));
}

#[test]
fn nothing_compares_with_not_a_number() {
    assert!(!num(f64::NAN).at_most(&num(f64::NAN)));
    assert!(!num(0.0).at_most(&num(f64::NAN)));
    assert!(!num(f64::NAN).at_most(&num(f64::INFINITY)));
}

#[test]
fn closed_range_holds_both_ends() {
    let low = num(0.1);
    let high = num(0.4);
    for x in [0.1, 0.25, 0.4] {
        assert!(num(x).is_within(&low, &high));
        assert!((0.1..=0.4).contains(&x));
    }
    for x in [0.09999, 0.40001, -0.2, f64::NAN] {
        assert!(!num(x).is_within(&low, &high));
    }
}

#[test]
fn boundaries_are_the_bits_of_the_decimal_bounds() {
    assert_eq!(NONE_FROM, 0.0f64.to_bits());
    assert_eq!(VERY_LIGHT_FROM, 0.002f64.to_bits());
    assert_eq!(LIGHT_FROM, 0.017f64.to_bits());
    assert_eq!(MODERATE_FROM, 0.1f64.to_bits());
    assert_eq!(MODERATE_TO, 0.4f64.to_bits());
}

#[test]
fn intensity_words_inside_each_range() {
    assert_eq!(word(0.0), "no");
    assert_eq!(word(0.001), "no");
    assert_eq!(word(0.01), "very light");
    assert_eq!(word(0.05), "light");
    assert_eq!(word(0.2), "moderate");
    assert_eq!(word(0.5), "heavy");
    assert_eq!(word(3.0), "heavy");
}

#[test]
fn a_boundary_has_the_lighter_word() {
    assert_eq!(word(0.002), "no");
    assert_eq!(word(0.017), "very light");
    assert_eq!(word(0.1), "light");
    assert_eq!(word(0.4), "moderate");
}

#[test]
fn just_past_a_boundary_has_the_heavier_word() {
    let next = |x: f64| f64::from_bits(x.to_bits() + 1);
    assert_eq!(word(next(0.002)), "very light");
    assert_eq!(word(next(0.017)), "light");
    assert_eq!(word(next(0.1)), "moderate");
    assert_eq!(word(next(0.4)), "heavy");
}

#[test]
fn what_no_range_holds_is_heavy() {
    assert_eq!(word(-0.001), "heavy");
    assert_eq!(word(-5.0), "heavy");
    assert_eq!(word(f64::NAN), "heavy");
    assert_eq!(word(f64::INFINITY), "heavy");
    assert_eq!(word(f64::NEG_INFINITY), "heavy");
}

#[test]
fn negative_zero_is_no_rain() {
    assert_eq!(word(-0.0), "no");
}

#[test]
fn sentence_for_an_even_chance_of_light_rain() {
    assert_eq!(report(0.5, 0.05), "50% chance of light rain.");
}

#[test]
fn sentence_rounds_a_small_chance_down() {
    assert_eq!(report(0.004, 0.05), "0% chance of light rain.");
    assert_eq!(report(0.004, 0.0), "0% chance of no rain.");
}

#[test]
fn sentence_rounds_half_away_from_zero() {
    assert_eq!(report(0.125, 0.3), "13% chance of moderate rain.");
    assert_eq!(report(0.995, 0.9), "100% chance of heavy rain.");
}

#[test]
fn sentence_puts_the_percent_first_as_given() {
    let p = Precipitation { intensity: num(0.01), probability: num(0.3) };
    assert_eq!(p.sentence("30"), "30% chance of very light rain.");
    assert_eq!(p.sentence(""), "% chance of very light rain.");
}
