use get_rich_slow::decimal::Decimal;
use get_rich_slow::growth::Growth;

fn dec(text: &str) -> Decimal {
    Decimal::parse(text).unwrap()
}

#[test]
fn test_growth() {
    let x = Growth::new_with_inflation(dec("0.1"), dec("0.07"));
    let expected: i128 = 1_100_000_000 * 1_000_000_000 / 1_070_000_000 - 1_000_000_000;
    assert_eq!(x.get_real_growth(), Some(Decimal::from_raw(expected)));
}

#[test]
fn real_growth_of_ten_percent_at_seven_percent_inflation() {
    let x = Growth::new_with_inflation(dec("0.10"), dec("0.07"));
    assert_eq!(x.get_real_growth(), Some(Decimal::from_raw(28_037_383)));
}

#[test]
fn real_growth_without_inflation_is_nominal() {
    let x = Growth::new(dec("0.10"));
    assert_eq!(x.get_nominal_growth(), dec("0.1"));
    assert_eq!(x.get_real_growth(), Some(dec("0.1")));
}

#[test]
fn real_growth_below_zero_rounds_down() {
    let x = Growth::new_with_inflation(dec("0"), dec("0.07"));
    assert_eq!(x.get_real_growth(), Some(Decimal::from_raw(-65_420_561)));
}

#[test]
fn real_growth_is_undefined_at_total_deflation() {
    let x = Growth::new_with_inflation(dec("0.1"), dec("-1"));
    assert_eq!(x.get_real_growth(), None);
}

#[test]
fn real_growth_below_total_deflation() {
    let x = Growth::new_with_inflation(dec("0.1"), dec("-1.5"));
    assert_eq!(x.get_real_growth(), Some(dec("-3.2")));
    let y = Growth::new_with_inflation(dec("0.1"), dec("-2.0"));
    assert_eq!(y.get_real_growth(), Some(dec("-2.1")));
    let z = Growth::new_with_inflation(dec("0.1"), dec("-1.000000001"));
    assert_eq!(z.get_real_growth(), Some(Decimal::from_raw(-1_100_000_001_000_000_000)));
}

#[test]
fn real_growth_at_inflation_is_zero() {
    for rate in ["0", "0.07", "-0.5", "-3", "12.5", "-1.000000001"] {
        let x = Growth::new_with_inflation(dec(rate), dec(rate));
        assert_eq!(x.get_real_growth(), Some(dec("0")));
    }
}

#[test]
fn real_growth_is_undefined_beyond_the_range() {
    let x = Growth::new_with_inflation(Decimal::from_raw(i128::MAX), dec("0.07"));
    assert_eq!(x.get_real_growth(), None);
    let y = Growth::new(Decimal::from_raw(i128::MAX));
    assert_eq!(y.get_real_growth(), Some(Decimal::from_raw(i128::MAX)));
}

#[test]
fn nominal_growth_is_kept() {
    let x = Growth::new_with_inflation(dec("-0.25"), dec("0.02"));
    assert_eq!(x.get_nominal_growth(), Decimal::from_raw(-250_000_000));
}
