use merchandise_catalog::money::Money;
use merchandise_catalog::rounding::{div_round, MoneyError, RoundingMode};
use merchandise_catalog::unit::{MoneyUnit, Rate, UnitCode, MAX_SCALE};

fn cny() -> MoneyUnit {
    MoneyUnit::of(UnitCode::cny()).expect("CNY is a built-in unit")
}

fn jpy() -> MoneyUnit {
    MoneyUnit::of(UnitCode::jpy()).expect("JPY is a built-in unit")
}

#[test]
fn scale_comes_from_the_unit_so_the_same_digits_mean_different_amounts() {
    let yuan = Money::from_minor_str("64000", cny()).expect("valid minor amount");
    let yen = Money::from_minor_str("640", jpy()).expect("valid minor amount");
    assert_eq!("640.00", yuan.to_major_string());
    assert_eq!("640", yen.to_major_string());
    assert_eq!("640.00 CNY", yuan.to_display_string());
    assert_eq!("640 JPY", yen.to_display_string());
}

#[test]
fn parses_major_literals_and_rejects_excess_precision_instead_of_rounding() {
    let amount = Money::parse("640.00", cny()).expect("valid major amount");
    assert_eq!(64000, amount.minor());

    assert_eq!(Err(MoneyError::ScaleExceeded), Money::parse("640.001", cny()));
}

#[test]
fn parses_and_rounds_at_every_declared_mode() {
    let cases = [
        (RoundingMode::HalfUp, "640.005", "640.01"),
        (RoundingMode::HalfDown, "640.005", "640.00"),
        (RoundingMode::HalfEven, "640.005", "640.00"),
        (RoundingMode::HalfEven, "640.015", "640.02"),
        (RoundingMode::Floor, "640.009", "640.00"),
        (RoundingMode::Ceiling, "640.001", "640.01"),
        (RoundingMode::Truncate, "640.009", "640.00"),
    ];
    for (mode, literal, expected) in cases {
        let amount =
            Money::parse_rounded(literal, cny(), mode).expect("rounding a literal succeeds");
        assert_eq!(expected, amount.to_major_string(), "{literal} under {mode:?}");
    }
}

#[test]
fn negative_amounts_round_away_from_zero_for_half_up() {
    let amount = Money::parse_rounded("-640.005", cny(), RoundingMode::HalfUp)
        .expect("rounding a negative literal succeeds");
    assert_eq!("-640.01", amount.to_major_string());
    assert!(amount.is_negative());
    assert_eq!(Err(MoneyError::NegativeValue), amount.require_non_negative());
}

#[test]
fn direction_sensitive_rounding_stays_correct_for_negative_amounts() {
    let cases = [
        (RoundingMode::Floor, "-640.001", "-640.01"),
        (RoundingMode::Ceiling, "-640.001", "-640.00"),
        (RoundingMode::Truncate, "-640.009", "-640.00"),
        (RoundingMode::HalfEven, "-640.005", "-640.00"),
        (RoundingMode::HalfEven, "-640.015", "-640.02"),
    ];
    for (mode, literal, expected) in cases {
        let amount =
            Money::parse_rounded(literal, cny(), mode).expect("rounding a literal succeeds");
        assert_eq!(expected, amount.to_major_string(), "{literal} under {mode:?}");
    }
}

#[test]
fn arithmetic_rejects_mixed_units_instead_of_reinterpreting_them() {
    let yuan = Money::parse("640.00", cny()).expect("valid");
    let yen = Money::parse("640", jpy()).expect("valid");
    assert_eq!(Err(MoneyError::UnitMismatch), yuan.checked_add(yen));
    assert_eq!(None, yuan.partial_cmp(&yen));
}

#[test]
fn addition_and_quantity_multiplication_are_exact() {
    let unit_price = Money::parse("640.00", cny()).expect("valid");
    let total = unit_price
        .mul_int(3)
        .and_then(|value| value.checked_add(Money::parse("0.07", cny()).expect("valid")))
        .expect("exact arithmetic");
    assert_eq!("1920.07", total.to_major_string());
    assert_eq!(192007, total.minor());
}

#[test]
fn allocation_is_sum_preserving_for_awkward_ratios() {
    let total = Money::parse("100.00", cny()).expect("valid");
    let parts = total.allocate(&[1, 1, 1]).expect("three-way split succeeds");
    let rendered: Vec<String> = parts.iter().map(Money::to_major_string).collect();
    assert_eq!(vec!["33.34", "33.33", "33.33"], rendered);
    assert_eq!(total, Money::sum(&parts).expect("sum succeeds"));
}

#[test]
fn allocation_keeps_the_total_for_negative_amounts_too() {
    let total = Money::from_minor(-10000, cny());
    let parts = total.allocate(&[3, 1]).expect("split succeeds");
    assert_eq!(total, Money::sum(&parts).expect("sum succeeds"));
    let rendered: Vec<String> = parts.iter().map(Money::to_major_string).collect();
    assert_eq!(vec!["-75.00", "-25.00"], rendered);
}

#[test]
fn allocation_rejects_degenerate_weight_sets() {
    let total = Money::parse("10.00", cny()).expect("valid");
    assert_eq!(Err(MoneyError::EmptyWeights), total.allocate(&[]));
    assert_eq!(Err(MoneyError::NegativeWeight), total.allocate(&[1, -1]));
    assert_eq!(Err(MoneyError::ZeroWeightTotal), total.allocate(&[0, 0]));
}

#[test]
fn even_split_distributes_the_remainder_once() {
    let total = Money::parse("10.00", cny()).expect("valid");
    let parts = total.split_evenly(3).expect("split succeeds");
    let rendered: Vec<String> = parts.iter().map(Money::to_major_string).collect();
    assert_eq!(vec!["3.34", "3.33", "3.33"], rendered);
    assert_eq!(total, Money::sum(&parts).expect("sum succeeds"));
}

#[test]
fn rate_application_is_deterministic_and_stays_exact_within_scale() {
    let price = Money::parse("640.00", cny()).expect("valid");
    let discounted = price
        .apply_rate("0.97".parse::<Rate>().expect("valid rate"))
        .expect("rate applies");
    assert_eq!("620.80", discounted.to_major_string());

    let tax = price
        .apply_rate("0.06".parse::<Rate>().expect("valid rate"))
        .expect("rate applies");
    assert_eq!("38.40", tax.to_major_string());
}

#[test]
fn conversion_rounds_once_at_the_target_scale() {
    let yuan = Money::parse("640.00", cny()).expect("valid");
    let yen = yuan
        .convert_to(jpy(), "20.5".parse::<Rate>().expect("valid rate"))
        .expect("conversion succeeds");
    // 640.00 CNY * 20.5 = 13120 JPY exactly; scale 0 keeps it integral.
    assert_eq!("13120", yen.to_major_string());
    assert_eq!(13120, yen.minor());
}

#[test]
fn zero_decimal_units_reject_fractional_input() {
    assert_eq!(Err(MoneyError::ScaleExceeded), Money::parse("100.5", jpy()));
    let rounded = Money::parse_rounded("100.5", jpy(), RoundingMode::HalfEven)
        .expect("rounding succeeds");
    assert_eq!("100", rounded.to_major_string());
}

#[test]
fn division_rejects_zero_and_rounds_with_the_unit_mode() {
    let amount = Money::parse("10.00", cny()).expect("valid");
    assert_eq!(Err(MoneyError::DivisionByZero), amount.div_int(0));
    assert_eq!("3.33", amount.div_int(3).expect("divides").to_major_string());
}

#[test]
fn custom_units_carry_their_own_scale_and_rounding() {
    let points = MoneyUnit::custom(
        UnitCode::new("POINTS").expect("valid code"),
        6,
        RoundingMode::HalfEven,
    )
    .expect("custom unit is valid");
    let amount = Money::from_minor(18_000_000, points);
    assert_eq!("18.000000", amount.to_major_string());
    assert_eq!(6, points.scale());
    assert_eq!(RoundingMode::HalfEven, points.rounding());
}

#[test]
fn unit_codes_are_validated() {
    assert!(UnitCode::new("CNY").is_ok());
    // Boundary: 3 and 8 characters are the accepted extremes.
    assert!(UnitCode::new("ABC").is_ok());
    assert!(UnitCode::new("ABCDEFGH").is_ok());
    assert_eq!(Err(MoneyError::InvalidUnitCode), UnitCode::new("AB"));
    assert_eq!(Err(MoneyError::InvalidUnitCode), UnitCode::new("ABCDEFGHI"));
    assert_eq!(Err(MoneyError::InvalidUnitCode), UnitCode::new("cn"));
    assert_eq!(Err(MoneyError::InvalidUnitCode), UnitCode::new("CN"));
    assert_eq!(Err(MoneyError::InvalidUnitCode), UnitCode::new("cny"));
    assert_eq!(Err(MoneyError::InvalidUnitCode), UnitCode::new("CN-Y"));
    assert_eq!(
        Err(MoneyError::UnknownUnit),
        MoneyUnit::of(UnitCode::new("ZZZ").expect("well formed but unregistered"))
    );
}

#[test]
fn runtime_currency_codes_resolve_from_the_registry_row() {
    let unit = MoneyUnit::from_registry("KRW", 0, "floor").expect("registry row resolves");
    assert_eq!("KRW", unit.code().as_str());
    assert_eq!(0, unit.scale());
    assert_eq!(RoundingMode::Floor, unit.rounding());

    assert_eq!(640, Money::parse("640", unit).expect("valid").minor());
    let cny = MoneyUnit::from_registry("CNY", 2, "half_up").expect("registry row resolves");
    assert_eq!(64_000, Money::parse("640", cny).expect("valid").minor());

    assert_eq!(Err(MoneyError::ScaleExceeded), Money::parse("640.5", unit));
}

#[test]
fn registry_vocabulary_is_validated_in_both_directions() {
    for mode in [
        RoundingMode::HalfUp,
        RoundingMode::HalfDown,
        RoundingMode::HalfEven,
        RoundingMode::Floor,
        RoundingMode::Ceiling,
        RoundingMode::Truncate,
    ] {
        assert_eq!(Ok(mode), RoundingMode::from_storage_str(mode.as_storage_str()));
    }
    assert_eq!(
        Err(MoneyError::UnknownRoundingMode),
        RoundingMode::from_storage_str("bankers")
    );
    assert_eq!(
        Err(MoneyError::InvalidUnitCode),
        MoneyUnit::from_registry("krw", 0, "floor")
    );
}

#[test]
fn scale_ceiling_is_enforced() {
    assert_eq!(
        Err(MoneyError::ScaleTooLarge),
        MoneyUnit::custom(UnitCode::cny(), MAX_SCALE + 1, RoundingMode::HalfUp)
    );
}

#[test]
fn division_reports_overflow_instead_of_wrapping() {
    assert_eq!(
        Err(MoneyError::Overflow),
        div_round(i128::MIN, -1, RoundingMode::HalfUp)
    );
}

#[test]
fn a_rate_displays_with_its_own_scale() {
    assert_eq!(Rate::parse_literal("0.97").unwrap().to_display_string(), "0.97");
    assert_eq!(Rate::parse_literal("-1.50").unwrap().to_display_string(), "-1.50");
    assert_eq!(Rate::one().to_display_string(), "1");
}
