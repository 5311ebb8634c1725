use get_rich_slow::decimal::{checked_pow10, Decimal, SCALE};

fn raw(v: i128) -> Decimal {
    Decimal::from_raw(v)
}

#[test]
fn scale_is_a_billion() {
    assert_eq!(SCALE, 1_000_000_000);
    assert_eq!(Decimal::one(), raw(1_000_000_000));
    assert_eq!(Decimal::zero(), raw(0));
}

#[test]
fn powers_of_ten() {
    assert_eq!(checked_pow10(0), Some(1));
    assert_eq!(checked_pow10(9), Some(1_000_000_000));
    assert_eq!(checked_pow10(38), Some(100_000_000_000_000_000_000_000_000_000_000_000_000));
    assert_eq!(checked_pow10(39), None);
    assert_eq!(checked_pow10(255), None);
}

#[test]
fn sums_and_differences() {
    assert_eq!(raw(5).checked_add(raw(-7)), Some(raw(-2)));
    assert_eq!(raw(i128::MAX).checked_add(raw(1)), None);
    assert_eq!(raw(5).checked_sub(raw(7)), Some(raw(-2)));
    assert_eq!(raw(i128::MIN).checked_sub(raw(1)), None);
}

#[test]
fn products_round_down() {
    assert_eq!(raw(1_500_000_000).checked_mul(raw(2_000_000_000)), Some(raw(3_000_000_000)));
    assert_eq!(raw(1).checked_mul(raw(1)), Some(raw(0)));
    assert_eq!(raw(-1).checked_mul(raw(1)), Some(raw(-1)));
    assert_eq!(raw(-7).checked_mul(raw(3)), Some(raw(-1)));
    assert_eq!(raw(7).checked_mul(raw(-3)), Some(raw(-1)));
    assert_eq!(raw(-7).checked_mul(raw(-3)), Some(raw(0)));
    assert_eq!(raw(-5).checked_mul(raw(0)), Some(raw(0)));
}

#[test]
fn products_as_far_as_the_range_goes() {
    let max = i128::MAX;
    let min = i128::MIN;
    assert_eq!(
        raw(max).checked_mul(raw(2)),
        Some(raw(340_282_366_920_938_463_463_374_607_431))
    );
    assert_eq!(raw(max).checked_mul(raw(1_000_000_000)), Some(raw(max)));
    assert_eq!(raw(max).checked_mul(raw(1_000_000_001)), None);
    assert_eq!(raw(min).checked_mul(raw(1_000_000_000)), Some(raw(min)));
    assert_eq!(raw(min).checked_mul(raw(-1_000_000_000)), None);
    assert_eq!(raw(min).checked_mul(raw(1_000_000_001)), None);
    assert_eq!(raw(max).checked_mul(raw(max)), None);
    assert_eq!(raw(min).checked_mul(raw(min)), None);
    assert_eq!(
        raw(1_000_000_000_000_000_000_000_000_000_000).checked_mul(raw(100_000_000_000_000_000)),
        Some(raw(100_000_000_000_000_000_000_000_000_000_000_000_000))
    );
    assert_eq!(
        raw(-1_000_000_000_000_000_000_000_000_000_000).checked_mul(raw(100_000_000_000_000_000)),
        Some(raw(-100_000_000_000_000_000_000_000_000_000_000_000_000))
    );
    assert_eq!(
        raw(1_000_000_000_000_000_000_000_000_000_000)
            .checked_mul(raw(1_000_000_000_000_000_000)),
        None
    );
    assert_eq!(
        raw(123_456_789_012_345_678_901_234_567_890).checked_mul(raw(-98_765_432_109_876_543_210)),
        None
    );
}

#[test]
fn quotients_round_down() {
    assert_eq!(raw(1_000_000_000).checked_div(raw(3_000_000_000)), Some(raw(333_333_333)));
    assert_eq!(raw(-1_000_000_000).checked_div(raw(3_000_000_000)), Some(raw(-333_333_334)));
    assert_eq!(raw(1).checked_div(raw(3)), Some(raw(333_333_333)));
    assert_eq!(raw(-1).checked_div(raw(3)), Some(raw(-333_333_334)));
    assert_eq!(raw(-7).checked_div(raw(2)), Some(raw(-3_500_000_000)));
    assert_eq!(raw(0).checked_div(raw(2)), Some(raw(0)));
    assert_eq!(raw(1_000_000_000).checked_div(raw(0)), None);
    assert_eq!(raw(0).checked_div(raw(0)), None);
}

#[test]
fn quotients_by_negative_numbers_round_down() {
    assert_eq!(raw(1_000_000_000).checked_div(raw(-1)), Some(raw(-1_000_000_000_000_000_000)));
    assert_eq!(raw(1_000_000_000).checked_div(raw(-3_000_000_000)), Some(raw(-333_333_334)));
    assert_eq!(raw(-1_000_000_000).checked_div(raw(-3_000_000_000)), Some(raw(333_333_333)));
    assert_eq!(raw(1).checked_div(raw(-3)), Some(raw(-333_333_334)));
    assert_eq!(raw(-1).checked_div(raw(-3)), Some(raw(333_333_333)));
    assert_eq!(raw(7).checked_div(raw(-2)), Some(raw(-3_500_000_000)));
    assert_eq!(raw(-7).checked_div(raw(-2)), Some(raw(3_500_000_000)));
    assert_eq!(raw(0).checked_div(raw(-5)), Some(raw(0)));
    let max = i128::MAX;
    let min = i128::MIN;
    assert_eq!(raw(max).checked_div(raw(-1_000_000_000)), Some(raw(-max)));
    assert_eq!(raw(min).checked_div(raw(-1_000_000_000)), None);
    assert_eq!(
        raw(min).checked_div(raw(-1_000_000_001)),
        Some(raw(170_141_183_290_328_048_441_359_255_274_524_850_453))
    );
    assert_eq!(raw(min).checked_div(raw(-999_999_999)), None);
    assert_eq!(raw(max).checked_div(raw(-1)), None);
    assert_eq!(raw(min).checked_div(raw(min)), Some(raw(1_000_000_000)));
    assert_eq!(raw(max).checked_div(raw(min)), Some(raw(-1_000_000_000)));
}

#[test]
fn quotients_as_far_as_the_range_goes() {
    let max = i128::MAX;
    let min = i128::MIN;
    assert_eq!(raw(max).checked_div(raw(1_000_000_000)), Some(raw(max)));
    assert_eq!(raw(max).checked_div(raw(999_999_999)), None);
    assert_eq!(raw(max).checked_div(raw(1)), None);
    assert_eq!(raw(max).checked_div(raw(max)), Some(raw(1_000_000_000)));
    assert_eq!(raw(min).checked_div(raw(1_000_000_000)), Some(raw(min)));
    assert_eq!(raw(min).checked_div(raw(max)), Some(raw(-1_000_000_001)));
    assert_eq!(raw(min).checked_div(raw(999_999_999)), None);
    assert_eq!(raw(5).checked_div(raw(max)), Some(raw(0)));
    assert_eq!(raw(10_000_000_000_000_000_000_000_000_000_000_000_000).checked_div(raw(3)), None);
    assert_eq!(
        raw(1_000_000_000_000_000_000_000_000_000_000)
            .checked_div(raw(1_000_000_000_000_000_000_000_000_000_001)),
        Some(raw(999_999_999))
    );
    assert_eq!(
        raw(-1_000_000_000_000_000_000_000_000_000_000)
            .checked_div(raw(1_000_000_000_000_000_000_000_000_000_001)),
        Some(raw(-1_000_000_000))
    );
}

#[test]
fn whole_multiples() {
    assert_eq!(raw(160_000_000).checked_scale(15_768_000), Some(raw(2_522_880_000_000_000)));
    assert_eq!(raw(i128::MAX).checked_scale(2), None);
    assert_eq!(raw(-3).checked_scale(0), Some(raw(0)));
}

#[test]
fn amounts_from_units() {
    assert_eq!(Decimal::from_units(2_500_000_000_000_000_000, 18), Some(raw(2_500_000_000)));
    assert_eq!(Decimal::from_units(123_456_789_012, 8), Some(raw(1_234_567_890_120)));
    assert_eq!(Decimal::from_units(1, 18), Some(raw(0)));
    assert_eq!(Decimal::from_units(7, 0), Some(raw(7_000_000_000)));
    assert_eq!(Decimal::from_units(7, 9), Some(raw(7)));
    assert_eq!(Decimal::from_units(u128::MAX, 255), Some(raw(0)));
    assert_eq!(Decimal::from_units(u128::MAX, 0), None);
    assert_eq!(Decimal::from_units(u128::MAX, 9), None);
    assert_eq!(
        Decimal::from_units(u128::MAX, 10),
        Some(raw(34_028_236_692_093_846_346_337_460_743_176_821_145))
    );
}

#[test]
fn ratios_of_whole_numbers() {
    assert_eq!(Decimal::ratio(1, 3), Some(raw(333_333_333)));
    assert_eq!(Decimal::ratio(700, 1000), Some(raw(700_000_000)));
    assert_eq!(Decimal::ratio(0, 5), Some(raw(0)));
    assert_eq!(Decimal::ratio(5, 0), None);
    assert_eq!(Decimal::ratio(u128::MAX, 1), None);
    assert_eq!(Decimal::ratio(u128::MAX, u128::MAX), Some(raw(1_000_000_000)));
    assert_eq!(Decimal::ratio(u128::MAX - 1, u128::MAX), Some(raw(999_999_999)));
    assert_eq!(Decimal::ratio(u128::MAX, u128::MAX - 1), Some(raw(1_000_000_000)));
    assert_eq!(Decimal::ratio(u128::MAX / 3, u128::MAX), Some(raw(333_333_333)));
    assert_eq!(
        Decimal::ratio(170_141_183_460_469_231_731_687_303_715, 1),
        Some(raw(170_141_183_460_469_231_731_687_303_715_000_000_000))
    );
    assert_eq!(Decimal::ratio(170_141_183_460_469_231_731_687_303_716, 1), None);
    assert_eq!(
        Decimal::ratio(340_282_366_920_938_463_463_374_607_431, 2),
        Some(raw(170_141_183_460_469_231_731_687_303_715_500_000_000))
    );
}

#[test]
fn numbers_from_texts() {
    assert_eq!(Decimal::parse("0.1"), Some(raw(100_000_000)));
    assert_eq!(Decimal::parse("43251.12000000"), Some(raw(43_251_120_000_000)));
    assert_eq!(Decimal::parse("0.00001234"), Some(raw(12_340)));
    assert_eq!(Decimal::parse("12"), Some(raw(12_000_000_000)));
    assert_eq!(Decimal::parse("12."), Some(raw(12_000_000_000)));
    assert_eq!(Decimal::parse(".5"), Some(raw(500_000_000)));
    assert_eq!(Decimal::parse("+1.5"), Some(raw(1_500_000_000)));
    assert_eq!(Decimal::parse("-1.5"), Some(raw(-1_500_000_000)));
    assert_eq!(Decimal::parse("-0"), Some(raw(0)));
    assert_eq!(Decimal::parse("0.1234567891"), Some(raw(123_456_789)));
    assert_eq!(Decimal::parse("-0.0000000019"), Some(raw(-1)));
    assert_eq!(Decimal::parse("007.25"), Some(raw(7_250_000_000)));
}

#[test]
fn texts_that_write_no_number() {
    assert_eq!(Decimal::parse(""), None);
    assert_eq!(Decimal::parse("."), None);
    assert_eq!(Decimal::parse("-"), None);
    assert_eq!(Decimal::parse("+."), None);
    assert_eq!(Decimal::parse("1.2.3"), None);
    assert_eq!(Decimal::parse("1e5"), None);
    assert_eq!(Decimal::parse("--1"), None);
    assert_eq!(Decimal::parse("1 "), None);
    assert_eq!(Decimal::parse(" 1"), None);
    assert_eq!(Decimal::parse("12a"), None);
    assert_eq!(Decimal::parse("1.5x"), None);
    assert_eq!(Decimal::parse("NaN"), None);
    assert_eq!(Decimal::parse("١٢"), None);
    assert_eq!(Decimal::parse("1.٥"), None);
}

#[test]
fn numbers_at_the_edge_of_the_range() {
    assert_eq!(
        Decimal::parse("170141183460469231731687303715.884105727"),
        Some(raw(i128::MAX))
    );
    assert_eq!(Decimal::parse("170141183460469231731687303715.884105728"), None);
    assert_eq!(
        Decimal::parse("-170141183460469231731687303715.884105728"),
        Some(raw(i128::MIN))
    );
    assert_eq!(Decimal::parse("-170141183460469231731687303715.884105729"), None);
    assert_eq!(Decimal::parse("200000000000000000000000000000"), None);
    assert_eq!(Decimal::parse("99999999999999999999999999999999999999999999999999"), None);
}
