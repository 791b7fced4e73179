//! Rounding modes, money errors, and exact division with an explicit rounding mode.
use vstd::prelude::*;
use vstd::arithmetic::div_mod::{
    lemma_div_is_ordered_by_denominator, lemma_fundamental_div_mod,
    lemma_fundamental_div_mod_converse, lemma_mod_bound,
};

use crate::text::text_eq;

verus! {

/// How an exact value is reduced to a unit's scale.
#[derive(Debug, Clone, Copy, PartialEq, Eq, Hash, Structural)]
pub enum RoundingMode {
    /// Away from zero on an exact half. The common commercial default.
    HalfUp,
    /// Toward zero on an exact half.
    HalfDown,
    /// To the even neighbour on an exact half (banker's rounding).
    HalfEven,
    /// Toward negative infinity.
    Floor,
    /// Toward positive infinity.
    Ceiling,
    /// Toward zero.
    Truncate,
}

/// Rejection reasons for money construction and arithmetic.
#[derive(Debug, Clone, Copy, PartialEq, Eq, Hash, Structural)]
pub enum MoneyError {
    /// An operation mixed two units. Convert explicitly first.
    UnitMismatch,
    /// The unit code is not in the registry and was not declared as a custom unit.
    UnknownUnit,
    /// The persisted rounding-mode text is not one the baseline CHECK constraint permits.
    UnknownRoundingMode,
    /// The unit code is not 3–8 ASCII alphanumerics.
    InvalidUnitCode,
    /// The requested scale exceeds the supported maximum.
    ScaleTooLarge,
    /// A 128-bit intermediate overflowed.
    Overflow,
    /// A divisor or weight total was zero.
    DivisionByZero,
    /// The literal is not a decimal amount.
    InvalidAmount,
    /// The literal carries more fractional digits than the unit allows.
    ScaleExceeded,
    /// A negative value was supplied where only zero or positive is meaningful.
    NegativeValue,
    /// Allocation received no weights.
    EmptyWeights,
    /// Allocation received a negative weight.
    NegativeWeight,
    /// Allocation weights summed to zero.
    ZeroWeightTotal,
}

impl MoneyError {
    /// The human-readable description of this error.
    pub fn message(self) -> (m: &'static str)
        ensures
            m@ == self.message_text(),
    {
        match self {
            MoneyError::UnitMismatch => "money units do not match",
            MoneyError::UnknownUnit => "money unit is not registered",
            MoneyError::UnknownRoundingMode => "money rounding mode is not one the schema permits",
            MoneyError::InvalidUnitCode => "money unit code must be 3 to 8 ASCII alphanumerics",
            MoneyError::ScaleTooLarge => "money scale exceeds the supported maximum",
            MoneyError::Overflow => "money arithmetic overflowed",
            MoneyError::DivisionByZero => "money division by zero",
            MoneyError::InvalidAmount => "money amount is not a decimal literal",
            MoneyError::ScaleExceeded => "money amount has more fractional digits than the unit allows",
            MoneyError::NegativeValue => "money value must not be negative",
            MoneyError::EmptyWeights => "money allocation requires at least one weight",
            MoneyError::NegativeWeight => "money allocation weights must not be negative",
            MoneyError::ZeroWeightTotal => "money allocation weights must not sum to zero",
        }
    }

    pub open spec fn message_text(self) -> Seq<char> {
        match self {
            MoneyError::UnitMismatch => "money units do not match"@,
            MoneyError::UnknownUnit => "money unit is not registered"@,
            MoneyError::UnknownRoundingMode => "money rounding mode is not one the schema permits"@,
            MoneyError::InvalidUnitCode => "money unit code must be 3 to 8 ASCII alphanumerics"@,
            MoneyError::ScaleTooLarge => "money scale exceeds the supported maximum"@,
            MoneyError::Overflow => "money arithmetic overflowed"@,
            MoneyError::DivisionByZero => "money division by zero"@,
            MoneyError::InvalidAmount => "money amount is not a decimal literal"@,
            MoneyError::ScaleExceeded => "money amount has more fractional digits than the unit allows"@,
            MoneyError::NegativeValue => "money value must not be negative"@,
            MoneyError::EmptyWeights => "money allocation requires at least one weight"@,
            MoneyError::NegativeWeight => "money allocation weights must not be negative"@,
            MoneyError::ZeroWeightTotal => "money allocation weights must not sum to zero"@,
        }
    }
}

impl RoundingMode {
    /// The persisted form of a mode, as pinned by the baseline CHECK constraint.
    pub open spec fn storage_text(self) -> Seq<char> {
        match self {
            RoundingMode::HalfUp => "half_up"@,
            RoundingMode::HalfDown => "half_down"@,
            RoundingMode::HalfEven => "half_even"@,
            RoundingMode::Floor => "floor"@,
            RoundingMode::Ceiling => "ceiling"@,
            RoundingMode::Truncate => "truncate"@,
        }
    }

    /// The mode a persisted text names, if any.
    pub open spec fn from_storage_text(raw: Seq<char>) -> Option<RoundingMode> {
        if raw == "half_up"@ {
            Some(RoundingMode::HalfUp)
        } else if raw == "half_down"@ {
            Some(RoundingMode::HalfDown)
        } else if raw == "half_even"@ {
            Some(RoundingMode::HalfEven)
        } else if raw == "floor"@ {
            Some(RoundingMode::Floor)
        } else if raw == "ceiling"@ {
            Some(RoundingMode::Ceiling)
        } else if raw == "truncate"@ {
            Some(RoundingMode::Truncate)
        } else {
            None
        }
    }

    /// The persisted form of this mode.
    pub fn as_storage_str(self) -> (s: &'static str)
        ensures
            s@ == self.storage_text(),
    {
        match self {
            RoundingMode::HalfUp => "half_up",
            RoundingMode::HalfDown => "half_down",
            RoundingMode::HalfEven => "half_even",
            RoundingMode::Floor => "floor",
            RoundingMode::Ceiling => "ceiling",
            RoundingMode::Truncate => "truncate",
        }
    }

    /// Parses a persisted `rounding_mode` value; anything the baseline would reject is refused.
    pub fn from_storage_str(raw: &str) -> (r: Result<RoundingMode, MoneyError>)
        ensures
            match RoundingMode::from_storage_text(raw@) {
                Some(mode) => r == Ok::<RoundingMode, MoneyError>(mode),
                None => r == Err::<RoundingMode, MoneyError>(MoneyError::UnknownRoundingMode),
            },
    {
        if text_eq(raw, "half_up") {
            Ok(RoundingMode::HalfUp)
        } else if text_eq(raw, "half_down") {
            Ok(RoundingMode::HalfDown)
        } else if text_eq(raw, "half_even") {
            Ok(RoundingMode::HalfEven)
        } else if text_eq(raw, "floor") {
            Ok(RoundingMode::Floor)
        } else if text_eq(raw, "ceiling") {
            Ok(RoundingMode::Ceiling)
        } else if text_eq(raw, "truncate") {
            Ok(RoundingMode::Truncate)
        } else {
            Err(MoneyError::UnknownRoundingMode)
        }
    }
}

/// Reading a mode back from its persisted form gives the same mode, and every accepted text is the
/// persisted form of the mode it names.
pub proof fn law_rounding_storage_round_trip(mode: RoundingMode, raw: Seq<char>)
    ensures
        RoundingMode::from_storage_text(mode.storage_text()) == Some(mode),
        RoundingMode::from_storage_text(raw) matches Some(m) ==> m.storage_text() == raw,
{
    reveal_strlit("half_up");
    reveal_strlit("half_down");
    reveal_strlit("half_even");
    reveal_strlit("floor");
    reveal_strlit("ceiling");
    reveal_strlit("truncate");
    assert("half_even"@[5] != "half_down"@[5]);
    assert("half_even"@[5] != "half_up"@[5]);
    assert("half_down"@[5] != "half_up"@[5]);
    assert("floor"@[0] != "ceiling"@[0]);
    assert("truncate"@.len() != "half_up"@.len());
}

/// Whether the quotient is moved up from its floor, for a positive divisor.
pub open spec fn rounds_up(mode: RoundingMode, numerator: int, denominator: int) -> bool {
    let floor = numerator / denominator;
    let twice = 2 * (numerator % denominator);
    match mode {
        RoundingMode::Floor => false,
        RoundingMode::Ceiling => true,
        RoundingMode::Truncate => numerator < 0,
        RoundingMode::HalfUp => twice > denominator || (twice == denominator && numerator >= 0),
        RoundingMode::HalfDown => twice > denominator || (twice == denominator && numerator < 0),
        RoundingMode::HalfEven => twice > denominator || (twice == denominator && floor % 2 != 0),
    }
}

/// `numerator / denominator` reduced to an integer with `mode`, for a positive divisor.
pub open spec fn round_quotient(numerator: int, denominator: int, mode: RoundingMode) -> int {
    let floor = numerator / denominator;
    if numerator % denominator == 0 {
        floor
    } else if rounds_up(mode, numerator, denominator) {
        floor + 1
    } else {
        floor
    }
}

/// `numerator / denominator` reduced to an integer with `mode`; a negative divisor is folded into
/// the numerator's sign first.
pub open spec fn rounded_quotient(numerator: int, denominator: int, mode: RoundingMode) -> int {
    if denominator < 0 {
        round_quotient(-numerator, -denominator, mode)
    } else {
        round_quotient(numerator, denominator, mode)
    }
}

/// What `div_round` answers: the rounded quotient, or the reason it cannot be computed in 128 bits.
pub open spec fn div_round_outcome(numerator: int, denominator: int, mode: RoundingMode) -> Result<
    int,
    MoneyError,
> {
    if denominator == 0 {
        Err(MoneyError::DivisionByZero)
    } else if denominator < 0 && (numerator == i128::MIN || denominator == i128::MIN) {
        Err(MoneyError::Overflow)
    } else {
        let n = if denominator < 0 {
            -numerator
        } else {
            numerator
        };
        let d = if denominator < 0 {
            -denominator
        } else {
            denominator
        };
        if n % d != 0 && 2 * (n % d) > i128::MAX {
            Err(MoneyError::Overflow)
        } else {
            Ok(rounded_quotient(numerator, denominator, mode))
        }
    }
}

/// An executable 128-bit result that agrees with a mathematical one.
pub open spec fn agrees(r: Result<i128, MoneyError>, s: Result<int, MoneyError>) -> bool {
    match r {
        Ok(v) => s == Ok::<int, MoneyError>(v as int),
        Err(e) => s == Err::<int, MoneyError>(e),
    }
}

/// Euclidean quotient and remainder for a positive divisor.
pub(crate) fn euclid(n: i128, d: i128) -> (r: (i128, i128))
    requires
        d > 0,
    ensures
        r.0 == n / d,
        r.1 == n % d,
{
    if n >= 0 {
        (n / d, n % d)
    } else if d == 1 {
        proof {
            lemma_fundamental_div_mod_converse(n as int, d as int, n as int, 0);
        }
        (n, 0)
    } else {
        let a: u128 = if n == i128::MIN {
            170141183460469231731687303715884105728u128
        } else {
            (-n) as u128
        };
        let du = d as u128;
        let q = a / du;
        let r = a % du;
        proof {
            lemma_fundamental_div_mod(a as int, du as int);
            lemma_mod_bound(a as int, du as int);
            assert(a as int == du as int * q as int + r as int);
            assert(n as int == -(a as int));
            assert((-(q as int)) * (d as int) == -((d as int) * (q as int))) by (nonlinear_arith);
            assert((-(q as int) - 1) * (d as int) == -((d as int) * (q as int)) - d)
                by (nonlinear_arith);
            assert(q as int <= (a as int) / 2) by {
                lemma_div_is_ordered_by_denominator(a as int, 2, du as int);
            }
        }
        if r == 0 {
            proof {
                lemma_fundamental_div_mod_converse(n as int, d as int, -(q as int), 0);
            }
            (-(q as i128), 0)
        } else {
            proof {
                lemma_fundamental_div_mod_converse(
                    n as int,
                    d as int,
                    -(q as int) - 1,
                    (d - r) as int,
                );
            }
            (-(q as i128) - 1, d - (r as i128))
        }
    }
}

/// Exact division with an explicit rounding mode.
///
/// `numerator` may be negative; `denominator` must be non-zero. The quotient is computed with
/// Euclidean division so the remainder is always non-negative, which makes every mode expressible
/// without sign special cases.
pub fn div_round(numerator: i128, denominator: i128, mode: RoundingMode) -> (r: Result<
    i128,
    MoneyError,
>)
    ensures
        agrees(r, div_round_outcome(numerator as int, denominator as int, mode)),
{
    if denominator == 0 {
        return Err(MoneyError::DivisionByZero);
    }
    let (n, d) = if denominator < 0 {
        if numerator == i128::MIN || denominator == i128::MIN {
            return Err(MoneyError::Overflow);
        }
        (-numerator, -denominator)
    } else {
        (numerator, denominator)
    };
    let (floor, remainder) = euclid(n, d);
    proof {
        lemma_mod_bound(n as int, d as int);
        lemma_fundamental_div_mod(n as int, d as int);
    }
    if remainder == 0 {
        return Ok(floor);
    }
    if remainder > i128::MAX / 2 {
        return Err(MoneyError::Overflow);
    }
    let doubled = remainder * 2;
    let negative = n < 0;
    let round_up = match mode {
        RoundingMode::Floor => false,
        RoundingMode::Ceiling => true,
        RoundingMode::Truncate => negative,
        RoundingMode::HalfUp => doubled > d || (doubled == d && !negative),
        RoundingMode::HalfDown => doubled > d || (doubled == d && negative),
        RoundingMode::HalfEven => doubled > d || (doubled == d && floor % 2 != 0),
    };
    if round_up {
        proof {
            // The floor is strictly below the largest value when anything is left over.
            if d == 1 {
                assert(false);
            }
            if n >= 0 {
                lemma_div_is_ordered_by_denominator(n as int, 2, d as int);
            } else {
                let ghost f = floor as int;
                let ghost rr = remainder as int;
                assert(n as int == d as int * f + rr);
                assert(f < 0) by (nonlinear_arith)
                    requires
                        n < 0,
                        rr >= 0,
                        d > 0,
                        n as int == d as int * f + rr,
                ;
            }
        }
        Ok(floor + 1)
    } else {
        Ok(floor)
    }
}

/// The rounded quotient is within one divisor of the exact value, and exact when the division is.
pub proof fn law_div_round_is_nearest_step(numerator: int, denominator: int, mode: RoundingMode)
    requires
        denominator > 0,
    ensures
        ({
            let q = rounded_quotient(numerator, denominator, mode);
            &&& q * denominator - denominator < numerator
            &&& numerator < q * denominator + denominator
            &&& numerator % denominator == 0 ==> q * denominator == numerator
        }),
{
    lemma_fundamental_div_mod(numerator, denominator);
    lemma_mod_bound(numerator, denominator);
    let f = numerator / denominator;
    assert(f * denominator == denominator * f) by (nonlinear_arith);
    assert((f + 1) * denominator == denominator * f + denominator) by (nonlinear_arith);
}

/// Floor never exceeds the exact value and ceiling never falls below it.
pub proof fn law_div_round_direction(numerator: int, denominator: int)
    requires
        denominator > 0,
    ensures
        rounded_quotient(numerator, denominator, RoundingMode::Floor) * denominator <= numerator,
        rounded_quotient(numerator, denominator, RoundingMode::Ceiling) * denominator >= numerator,
{
    lemma_fundamental_div_mod(numerator, denominator);
    lemma_mod_bound(numerator, denominator);
    let f = numerator / denominator;
    assert(f * denominator == denominator * f) by (nonlinear_arith);
    assert((f + 1) * denominator == denominator * f + denominator) by (nonlinear_arith);
}

/// Whether `mode` rounds to a nearest integer, leaving only exact halves to the mode.
pub open spec fn is_half_mode(mode: RoundingMode) -> bool {
    mode == RoundingMode::HalfUp || mode == RoundingMode::HalfDown || mode == RoundingMode::HalfEven
}

/// The half modes round to a nearest integer: the rounded quotient `q` of `n / d` lies within
/// half a divisor of the exact value (`2 * |q * d - n| <= |d|`). On an exact half the mode
/// decides: `HalfUp` moves away from zero, `HalfDown` towards zero, and `HalfEven` to the even
/// neighbour.
pub proof fn law_half_modes_round_to_nearest(numerator: int, denominator: int, mode: RoundingMode)
    requires
        denominator != 0,
        is_half_mode(mode),
    ensures
        ({
            let q = rounded_quotient(numerator, denominator, mode);
            let d = if denominator < 0 {
                -denominator
            } else {
                denominator
            };
            let n = if denominator < 0 {
                -numerator
            } else {
                numerator
            };
            let gap = q * d - n;
            &&& 2 * gap <= d
            &&& -d <= 2 * gap
            &&& (2 * gap == d || 2 * gap == -d) ==> match mode {
                RoundingMode::HalfUp => (n >= 0 ==> gap > 0) && (n < 0 ==> gap < 0),
                RoundingMode::HalfDown => (n >= 0 ==> gap < 0) && (n < 0 ==> gap > 0),
                _ => q % 2 == 0,
            }
        }),
{
    let d = if denominator < 0 {
        -denominator
    } else {
        denominator
    };
    let n = if denominator < 0 {
        -numerator
    } else {
        numerator
    };
    assert(rounded_quotient(numerator, denominator, mode) == round_quotient(n, d, mode));
    lemma_fundamental_div_mod(n, d);
    lemma_mod_bound(n, d);
    let f = n / d;
    let r = n % d;
    assert(f * d == d * f) by (nonlinear_arith);
    assert((f + 1) * d == d * f + d) by (nonlinear_arith);
    assert(n == d * f + r);
    if n < 0 && r == 0 {
        assert(d * f < 0);
        assert(f < 0) by (nonlinear_arith)
            requires
                d > 0,
                d * f < 0,
        ;
    }
    if n >= 0 {
        assert(f >= 0) by (nonlinear_arith)
            requires
                d > 0,
                r < d,
                n >= 0,
                n == d * f + r,
        ;
    }
    if n < 0 {
        assert(f < 0) by (nonlinear_arith)
            requires
                d > 0,
                r >= 0,
                n < 0,
                n == d * f + r,
        ;
    }
}

/// Truncation rounds towards zero: the rounded quotient never moves past the exact value away from
/// zero, and stays within one divisor of it.
pub proof fn law_truncate_rounds_toward_zero(numerator: int, denominator: int)
    requires
        denominator > 0,
    ensures
        ({
            let q = rounded_quotient(numerator, denominator, RoundingMode::Truncate);
            &&& numerator >= 0 ==> q * denominator <= numerator && numerator < q * denominator
                + denominator
            &&& numerator < 0 ==> numerator <= q * denominator && q * denominator < numerator
                + denominator
        }),
{
    lemma_fundamental_div_mod(numerator, denominator);
    lemma_mod_bound(numerator, denominator);
    let f = numerator / denominator;
    assert(f * denominator == denominator * f) by (nonlinear_arith);
    assert((f + 1) * denominator == denominator * f + denominator) by (nonlinear_arith);
}

} // verus!
