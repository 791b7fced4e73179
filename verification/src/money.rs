//! Exact amounts: an integer count of a unit's minor denomination plus the unit itself.
//!
//! Arithmetic between different units is an error, never a silent reinterpretation; rounding
//! happens only where a value crosses the unit boundary, and always with a declared mode.
use vstd::prelude::*;

use crate::decimal::{
    body_digits, chars_all_digits, digits_to_u128, fraction_part, integer_literal_value,
    literal_negative, literal_unsigned, parse_i128_literal, pow10_i128, scaled_text,
    scaled_to_decimal_chars, split_literal, well_formed_body,
};
use crate::rounding::{div_round, div_round_outcome, MoneyError, RoundingMode};
use crate::text::{
    digits_value, lemma_all_digits_concat, lemma_digits_value_nonneg,
    lemma_pow10_monotone, lemma_pow10_positive, pow10, push_char, string_of, trim,
    trimmed_chars,
};
use crate::unit::{same_unit, MoneyUnit, Rate};

verus! {

/// An exact amount in a declared unit, held as an integer count of the unit's minor denomination.
#[derive(Debug, Clone, Copy, Eq)]
pub struct Money {
    minor: i128,
    unit: MoneyUnit,
}

/// A money result, read as the minor amount and unit it carries.
pub open spec fn money_agrees(r: Result<Money, MoneyError>, s: Result<(int, MoneyUnit), MoneyError>) -> bool {
    match r {
        Ok(m) => s == Ok::<(int, MoneyUnit), MoneyError>((m.minor_of() as int, m.unit_of())),
        Err(e) => s == Err::<(int, MoneyUnit), MoneyError>(e),
    }
}

pub open spec fn in_i128(v: int) -> bool {
    i128::MIN <= v <= i128::MAX
}

/// What parsing a major-denomination literal at `scale` answers: the signed minor amount, or why
/// it is refused. Without a rounding mode, excess fractional digits are refused rather than
/// rounded.
pub open spec fn parse_outcome(amount: Seq<char>, scale: nat, mode: Option<RoundingMode>) -> Result<
    int,
    MoneyError,
> {
    let literal = trim(amount);
    let body = literal_unsigned(literal);
    let fraction = fraction_part(body);
    let value = digits_value(body_digits(body));
    if !well_formed_body(body) {
        Err(MoneyError::InvalidAmount)
    } else if fraction.len() <= scale {
        let magnitude = value * pow10((scale - fraction.len()) as nat);
        if magnitude > i128::MAX {
            Err(MoneyError::Overflow)
        } else {
            Ok(
                if literal_negative(literal) {
                    -magnitude
                } else {
                    magnitude
                },
            )
        }
    } else {
        match mode {
            None => Err(MoneyError::ScaleExceeded),
            Some(m) => {
                let excess = (fraction.len() - scale) as nat;
                if pow10(excess) > i128::MAX || value > i128::MAX {
                    Err(MoneyError::Overflow)
                } else {
                    div_round_outcome(
                        if literal_negative(literal) {
                            -value
                        } else {
                            value
                        },
                        pow10(excess),
                        m,
                    )
                }
            },
        }
    }
}

/// The outcome of adding `b` to a running amount `a` in `unit`.
pub open spec fn add_outcome(a: int, unit: MoneyUnit, b: Money) -> Result<(int, MoneyUnit), MoneyError> {
    if !same_unit(unit, b.unit_of()) {
        Err(MoneyError::UnitMismatch)
    } else if !in_i128(a + b.minor_of()) {
        Err(MoneyError::Overflow)
    } else {
        Ok((a + b.minor_of(), unit))
    }
}

/// The outcome of summing amounts left to right in the first amount's unit.
pub open spec fn sum_outcome(amounts: Seq<Money>) -> Result<(int, MoneyUnit), MoneyError>
    decreases amounts.len(),
{
    if amounts.len() == 0 {
        Err(MoneyError::EmptyWeights)
    } else if amounts.len() == 1 {
        Ok((amounts[0].minor_of() as int, amounts[0].unit_of()))
    } else {
        match sum_outcome(amounts.drop_last()) {
            Err(e) => Err(e),
            Ok((acc, unit)) => add_outcome(acc, unit, amounts.last()),
        }
    }
}

impl Money {
    pub closed spec fn minor_of(self) -> i128 {
        self.minor
    }

    pub closed spec fn unit_of(self) -> MoneyUnit {
        self.unit
    }

    /// Wraps an exact minor-unit count.
    pub fn from_minor(minor: i128, unit: MoneyUnit) -> (m: Money)
        ensures
            m.minor_of() == minor,
            m.unit_of() == unit,
    {
        Money { minor, unit }
    }

    /// Parses a major-denomination literal such as `"640.00"`; more fractional digits than the
    /// unit allows are refused, never rounded.
    pub fn parse(amount: &str, unit: MoneyUnit) -> (r: Result<Money, MoneyError>)
        ensures
            money_agrees(
                r,
                match parse_outcome(amount@, unit.scale_of() as nat, None) {
                    Ok(v) => Ok((v, unit)),
                    Err(e) => Err(e),
                },
            ),
    {
        Money::parse_with(amount, unit, None)
    }

    /// Parses a major-denomination literal, rounding excess fractional digits with `mode`.
    pub fn parse_rounded(amount: &str, unit: MoneyUnit, mode: RoundingMode) -> (r: Result<
        Money,
        MoneyError,
    >)
        ensures
            money_agrees(
                r,
                match parse_outcome(amount@, unit.scale_of() as nat, Some(mode)) {
                    Ok(v) => Ok((v, unit)),
                    Err(e) => Err(e),
                },
            ),
    {
        Money::parse_with(amount, unit, Some(mode))
    }

    fn parse_with(amount: &str, unit: MoneyUnit, mode: Option<RoundingMode>) -> (r: Result<
        Money,
        MoneyError,
    >)
        ensures
            money_agrees(
                r,
                match parse_outcome(amount@, unit.scale_of() as nat, mode) {
                    Ok(v) => Ok((v, unit)),
                    Err(e) => Err(e),
                },
            ),
    {
        let trimmed = trimmed_chars(amount);
        let (negative, whole, fraction) = split_literal(&trimmed);
        let ghost body = literal_unsigned(trimmed@);
        if (whole.len() == 0 && fraction.len() == 0) || !chars_all_digits(&whole)
            || !chars_all_digits(&fraction) {
            return Err(MoneyError::InvalidAmount);
        }
        let scale = unit.scale() as usize;
        let mut digits = whole.clone();
        let mut extra = fraction.clone();
        digits.append(&mut extra);
        proof {
            assert(digits@ =~= body_digits(body));
            lemma_all_digits_concat(whole@, fraction@);
            lemma_digits_value_nonneg(digits@);
        }
        let ghost value = digits_value(digits@);
        if fraction.len() <= scale {
            let padding = (scale - fraction.len()) as u32;
            let factor = match pow10_i128(padding) {
                Some(f) => f,
                None => {
                    proof {
                        lemma_pow10_monotone(padding as nat, 8);
                        assert(pow10(8) == 100000000) by {
                            reveal_with_fuel(pow10, 9);
                        }
                    }
                    return Err(MoneyError::Overflow);
                },
            };
            proof {
                lemma_pow10_positive(padding as nat);
            }
            let magnitude_value = match digits_to_u128(&digits) {
                Some(v) => v,
                None => {
                    proof {
                        assert(value * factor >= value) by (nonlinear_arith)
                            requires
                                value >= 0,
                                factor >= 1,
                        ;
                    }
                    return Err(MoneyError::Overflow);
                },
            };
            if magnitude_value > i128::MAX as u128 {
                proof {
                    assert(value * factor >= value) by (nonlinear_arith)
                        requires
                            value >= 0,
                            factor >= 1,
                    ;
                }
                return Err(MoneyError::Overflow);
            }
            let v = magnitude_value as i128;
            let magnitude = match v.checked_mul(factor) {
                Some(x) => x,
                None => return Err(MoneyError::Overflow),
            };
            let minor = if negative {
                -magnitude
            } else {
                magnitude
            };
            Ok(Money { minor, unit })
        } else {
            let mode = match mode {
                Some(m) => m,
                None => return Err(MoneyError::ScaleExceeded),
            };
            let excess = fraction.len() - scale;
            let magnitude_value = match digits_to_u128(&digits) {
                Some(v) => v,
                None => return Err(MoneyError::Overflow),
            };
            if magnitude_value > i128::MAX as u128 {
                return Err(MoneyError::Overflow);
            }
            if excess > 40 {
                proof {
                    lemma_pow10_monotone(40, excess as nat);
                    assert(pow10(40) > i128::MAX) by {
                        reveal_with_fuel(pow10, 41);
                    }
                }
                return Err(MoneyError::Overflow);
            }
            let denominator = match pow10_i128(excess as u32) {
                Some(d) => d,
                None => return Err(MoneyError::Overflow),
            };
            let v = magnitude_value as i128;
            let signed = if negative {
                -v
            } else {
                v
            };
            match div_round(signed, denominator, mode) {
                Ok(minor) => Ok(Money { minor, unit }),
                Err(e) => Err(e),
            }
        }
    }

    pub fn minor(self) -> (m: i128)
        ensures
            m == self.minor_of(),
    {
        self.minor
    }

    pub fn unit(self) -> (u: MoneyUnit)
        ensures
            u == self.unit_of(),
    {
        self.unit
    }

    pub fn is_zero(self) -> (b: bool)
        ensures
            b == (self.minor_of() == 0),
    {
        self.minor == 0
    }

    pub fn is_negative(self) -> (b: bool)
        ensures
            b == (self.minor_of() < 0),
    {
        self.minor < 0
    }

    pub fn is_positive(self) -> (b: bool)
        ensures
            b == (self.minor_of() > 0),
    {
        self.minor > 0
    }

    /// Rejects a negative amount. Zero is accepted.
    pub fn require_non_negative(self) -> (r: Result<Money, MoneyError>)
        ensures
            self.minor_of() < 0 ==> r == Err::<Money, MoneyError>(MoneyError::NegativeValue),
            self.minor_of() >= 0 ==> r == Ok::<Money, MoneyError>(self),
    {
        if self.is_negative() {
            return Err(MoneyError::NegativeValue);
        }
        Ok(self)
    }

    /// Wraps a plain minor-unit integer literal (surrounding white space allowed) in the unit.
    pub fn from_minor_str(minor: &str, unit: MoneyUnit) -> (r: Result<Money, MoneyError>)
        ensures
            match integer_literal_value(trim(minor@)) {
                Some(v) => if in_i128(v) {
                    r matches Ok(m) && m.minor_of() == v && m.unit_of() == unit
                } else {
                    r == Err::<Money, MoneyError>(MoneyError::InvalidAmount)
                },
                None => r == Err::<Money, MoneyError>(MoneyError::InvalidAmount),
            },
    {
        let trimmed = trimmed_chars(minor);
        match parse_i128_literal(&trimmed) {
            Some(value) => Ok(Money { minor: value, unit }),
            None => Err(MoneyError::InvalidAmount),
        }
    }

    /// Exact addition. Different units are rejected.
    pub fn checked_add(self, other: Money) -> (r: Result<Money, MoneyError>)
        ensures
            money_agrees(r, add_outcome(self.minor_of() as int, self.unit_of(), other)),
    {
        if !self.unit.same_as(other.unit) {
            return Err(MoneyError::UnitMismatch);
        }
        match self.minor.checked_add(other.minor) {
            Some(minor) => Ok(Money { minor, unit: self.unit }),
            None => Err(MoneyError::Overflow),
        }
    }

    /// Exact subtraction. Different units are rejected.
    pub fn checked_sub(self, other: Money) -> (r: Result<Money, MoneyError>)
        ensures
            !same_unit(self.unit_of(), other.unit_of()) ==> r == Err::<Money, MoneyError>(
                MoneyError::UnitMismatch,
            ),
            same_unit(self.unit_of(), other.unit_of()) && !in_i128(
                self.minor_of() - other.minor_of(),
            ) ==> r == Err::<Money, MoneyError>(MoneyError::Overflow),
            same_unit(self.unit_of(), other.unit_of()) && in_i128(self.minor_of() - other.minor_of())
                ==> (r matches Ok(m) && m.minor_of() == self.minor_of() - other.minor_of()
                && m.unit_of() == self.unit_of()),
    {
        if !self.unit.same_as(other.unit) {
            return Err(MoneyError::UnitMismatch);
        }
        match self.minor.checked_sub(other.minor) {
            Some(minor) => Ok(Money { minor, unit: self.unit }),
            None => Err(MoneyError::Overflow),
        }
    }

    /// Exact multiplication by a whole count (quantity, pack size, installments).
    pub fn mul_int(self, quantity: i64) -> (r: Result<Money, MoneyError>)
        ensures
            !in_i128(self.minor_of() * quantity) ==> r == Err::<Money, MoneyError>(
                MoneyError::Overflow,
            ),
            in_i128(self.minor_of() * quantity) ==> (r matches Ok(m) && m.minor_of()
                == self.minor_of() * quantity && m.unit_of() == self.unit_of()),
    {
        match self.minor.checked_mul(quantity as i128) {
            Some(minor) => Ok(Money { minor, unit: self.unit }),
            None => Err(MoneyError::Overflow),
        }
    }

    /// Exact division by a whole count, rounding with the unit's declared mode.
    pub fn div_int(self, divisor: i64) -> (r: Result<Money, MoneyError>)
        ensures
            money_agrees(
                r,
                match div_round_outcome(
                    self.minor_of() as int,
                    divisor as int,
                    self.unit_of().rounding_of(),
                ) {
                    Ok(v) => Ok((v, self.unit_of())),
                    Err(e) => Err(e),
                },
            ),
    {
        if divisor == 0 {
            return Err(MoneyError::DivisionByZero);
        }
        match div_round(self.minor, divisor as i128, self.unit.rounding()) {
            Ok(minor) => Ok(Money { minor, unit: self.unit }),
            Err(e) => Err(e),
        }
    }

    /// Applies a decimal multiplier (tax, discount, markup), rounding to this unit's scale with
    /// its declared mode.
    pub fn apply_rate(self, rate: Rate) -> (r: Result<Money, MoneyError>)
        ensures
            money_agrees(
                r,
                if !in_i128(self.minor_of() * rate.mantissa_of()) {
                    Err(MoneyError::Overflow)
                } else {
                    match div_round_outcome(
                        self.minor_of() * rate.mantissa_of(),
                        pow10(rate.scale_of() as nat),
                        self.unit_of().rounding_of(),
                    ) {
                        Ok(v) => Ok((v, self.unit_of())),
                        Err(e) => Err(e),
                    }
                },
            ),
    {
        let numerator = match self.minor.checked_mul(rate.mantissa()) {
            Some(n) => n,
            None => return Err(MoneyError::Overflow),
        };
        let rate_scale = rate.scale();
        let denominator = match pow10_i128(rate_scale as u32) {
            Some(d) => d,
            None => {
                proof {
                    lemma_pow10_monotone(rate_scale as nat, 8);
                    assert(pow10(8) == 100000000) by {
                        reveal_with_fuel(pow10, 9);
                    }
                }
                return Err(MoneyError::Overflow);
            },
        };
        match div_round(numerator, denominator, self.unit.rounding()) {
            Ok(minor) => Ok(Money { minor, unit: self.unit }),
            Err(e) => Err(e),
        }
    }

    /// Converts into another unit using an exact rate expressed as *target per source*, rounding
    /// once at the target unit's scale.
    pub fn convert_to(self, target: MoneyUnit, rate: Rate) -> (r: Result<Money, MoneyError>)
        ensures
            money_agrees(
                r,
                if !in_i128(
                    self.minor_of() * rate.mantissa_of() * pow10(target.scale_of() as nat),
                ) {
                    Err(MoneyError::Overflow)
                } else {
                    match div_round_outcome(
                        self.minor_of() * rate.mantissa_of() * pow10(target.scale_of() as nat),
                        pow10((rate.scale_of() + self.unit_of().scale_of()) as nat),
                        target.rounding_of(),
                    ) {
                        Ok(v) => Ok((v, target)),
                        Err(e) => Err(e),
                    }
                },
            ),
    {
        let source_scale = self.unit.scale();
        let target_scale = target.scale();
        let rate_scale = rate.scale();
        proof {
            lemma_pow10_monotone(target_scale as nat, 8);
            lemma_pow10_monotone((rate_scale + source_scale) as nat, 16);
            lemma_pow10_positive(target_scale as nat);
            assert(pow10(8) == 100000000) by {
                reveal_with_fuel(pow10, 9);
            }
            assert(pow10(16) == 10000000000000000) by {
                reveal_with_fuel(pow10, 17);
            }
        }
        let target_factor = match pow10_i128(target_scale as u32) {
            Some(f) => f,
            None => return Err(MoneyError::Overflow),
        };
        let first = match self.minor.checked_mul(rate.mantissa()) {
            Some(n) => n,
            None => {
                proof {
                    let ghost p = self.minor as int * rate.mantissa_of() as int;
                    let ghost f = target_factor as int;
                    assert(p > i128::MAX ==> p * f > i128::MAX) by (nonlinear_arith)
                        requires
                            f >= 1,
                    ;
                    assert(p < i128::MIN ==> p * f < i128::MIN) by (nonlinear_arith)
                        requires
                            f >= 1,
                    ;
                }
                return Err(MoneyError::Overflow);
            },
        };
        let numerator = match first.checked_mul(target_factor) {
            Some(n) => n,
            None => return Err(MoneyError::Overflow),
        };
        let denominator = match pow10_i128((rate_scale as u32) + (source_scale as u32)) {
            Some(d) => d,
            None => return Err(MoneyError::Overflow),
        };
        match div_round(numerator, denominator, target.rounding()) {
            Ok(minor) => Ok(Money { minor, unit: target }),
            Err(e) => Err(e),
        }
    }

    /// Sums amounts that must all share one unit.
    pub fn sum(amounts: &[Money]) -> (r: Result<Money, MoneyError>)
        ensures
            money_agrees(r, sum_outcome(amounts@)),
    {
        if amounts.len() == 0 {
            return Err(MoneyError::EmptyWeights);
        }
        let mut total = amounts[0];
        let mut i: usize = 1;
        assert(amounts@.subrange(0, 1).drop_last() =~= Seq::<Money>::empty());
        while i < amounts.len()
            invariant
                1 <= i <= amounts@.len(),
                sum_outcome(amounts@.subrange(0, i as int)) == Ok::<(int, MoneyUnit), MoneyError>(
                    (total.minor_of() as int, total.unit_of()),
                ),
            decreases amounts@.len() - i,
        {
            let ghost prefix = amounts@.subrange(0, (i + 1) as int);
            assert(prefix.drop_last() =~= amounts@.subrange(0, i as int));
            assert(prefix.last() == amounts@[i as int]);
            match total.checked_add(amounts[i]) {
                Ok(next) => {
                    total = next;
                },
                Err(e) => {
                    proof {
                        lemma_sum_outcome_error_persists(amounts@, (i + 1) as int, e);
                    }
                    return Err(e);
                },
            }
            i = i + 1;
        }
        assert(amounts@.subrange(0, i as int) =~= amounts@);
        Ok(total)
    }

    /// Major-denomination decimal string carrying exactly the unit's scale.
    pub fn to_major_string(&self) -> (s: String)
        ensures
            s@ == scaled_text(self.minor_of() as int, self.unit_of().scale_of() as nat),
    {
        let chars = scaled_to_decimal_chars(self.minor, self.unit.scale());
        string_of(&chars)
    }

    /// The display form: the major amount, a space, and the unit code (`"640.00 CNY"`).
    pub fn to_display_string(&self) -> (s: String)
        ensures
            s@ == scaled_text(self.minor_of() as int, self.unit_of().scale_of() as nat) + seq![' ']
                + self.unit_of().code_of()@,
    {
        let mut s = self.to_major_string();
        push_char(&mut s, ' ');
        let code = self.unit.code().as_str();
        s.append(code.as_str());
        s
    }

    /// Orders two amounts of one unit by value; amounts of different units are unordered.
    pub fn compare(&self, other: &Money) -> (r: Option<core::cmp::Ordering>)
        ensures
            !same_unit(self.unit_of(), other.unit_of()) ==> r is None,
            same_unit(self.unit_of(), other.unit_of()) ==> r == Some(
                if self.minor_of() < other.minor_of() {
                    core::cmp::Ordering::Less
                } else if self.minor_of() == other.minor_of() {
                    core::cmp::Ordering::Equal
                } else {
                    core::cmp::Ordering::Greater
                },
            ),
    {
        if !self.unit.same_as(other.unit) {
            return None;
        }
        if self.minor < other.minor {
            Some(core::cmp::Ordering::Less)
        } else if self.minor == other.minor {
            Some(core::cmp::Ordering::Equal)
        } else {
            Some(core::cmp::Ordering::Greater)
        }
    }
}

impl PartialEq for Money {
    fn eq(&self, other: &Money) -> (r: bool) {
        self.minor == other.minor && self.unit.same_as(other.unit) && self.unit.rounding()
            == other.unit.rounding()
    }
}

impl vstd::std_specs::cmp::PartialEqSpecImpl for Money {
    open spec fn obeys_eq_spec() -> bool {
        true
    }

    open spec fn eq_spec(&self, other: &Money) -> bool {
        self.minor_of() == other.minor_of() && same_unit(self.unit_of(), other.unit_of())
            && self.unit_of().rounding_of() == other.unit_of().rounding_of()
    }
}

/// Comparison is only meaningful inside one unit, so a cross-unit comparison reports "unordered"
/// rather than inventing an ordering.
impl PartialOrd for Money {
    fn partial_cmp(&self, other: &Money) -> (r: Option<core::cmp::Ordering>) {
        self.compare(other)
    }
}

impl vstd::std_specs::cmp::PartialOrdSpecImpl for Money {
    open spec fn obeys_partial_cmp_spec() -> bool {
        true
    }

    open spec fn partial_cmp_spec(&self, other: &Money) -> Option<core::cmp::Ordering> {
        if !same_unit(self.unit_of(), other.unit_of()) {
            None
        } else if self.minor_of() < other.minor_of() {
            Some(core::cmp::Ordering::Less)
        } else if self.minor_of() == other.minor_of() {
            Some(core::cmp::Ordering::Equal)
        } else {
            Some(core::cmp::Ordering::Greater)
        }
    }
}

/// Reading back the major-denomination string of an amount gives the same minor amount, with or
/// without a rounding mode (the one amount whose magnitude has no positive 128-bit form,
/// `i128::MIN`, is left out).
pub proof fn law_major_string_round_trip(minor: i128, scale: nat, mode: Option<RoundingMode>)
    requires
        minor > i128::MIN,
    ensures
        parse_outcome(scaled_text(minor as int, scale), scale, mode) == Ok::<int, MoneyError>(
            minor as int,
        ),
{
    crate::decimal::lemma_scaled_text_reads_back(minor as int, scale);
    assert(pow10(0) == 1);
}

/// Once a running sum has failed, summing more amounts keeps the first failure.
proof fn lemma_sum_outcome_error_persists(amounts: Seq<Money>, k: int, e: MoneyError)
    requires
        1 <= k <= amounts.len(),
        sum_outcome(amounts.subrange(0, k)) == Err::<(int, MoneyUnit), MoneyError>(e),
    ensures
        sum_outcome(amounts) == Err::<(int, MoneyUnit), MoneyError>(e),
    decreases amounts.len() - k,
{
    if k < amounts.len() {
        let next = amounts.subrange(0, k + 1);
        assert(next.drop_last() =~= amounts.subrange(0, k));
        lemma_sum_outcome_error_persists(amounts, k + 1, e);
    } else {
        assert(amounts.subrange(0, k) =~= amounts);
    }
}

} // verus!
