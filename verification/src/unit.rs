//! Unit codes, units of value (scale plus declared rounding), and decimal rates.
use vstd::prelude::*;

use crate::decimal::{
    body_digits, chars_all_digits, digits_to_u128, fraction_part, literal_negative,
    literal_unsigned, split_literal, well_formed_body, whole_part,
};
use crate::rounding::{MoneyError, RoundingMode};
use crate::text::{
    chars_of, digits_value, lemma_all_digits_concat, lemma_digits_value_nonneg, pow10,
    push_char, text_eq,
};

verus! {

/// Largest supported decimal scale.
pub const MAX_SCALE: u8 = 8;

/// Longest accepted unit code, mirroring the `code ~ '^[A-Z0-9]{3,8}$'` CHECK constraint.
pub const MAX_UNIT_CODE_LEN: usize = 8;

/// A character a unit code may hold: an upper-case ASCII letter or a digit.
pub open spec fn is_code_char(c: char) -> bool {
    ('A' <= c && c <= 'Z') || ('0' <= c && c <= '9')
}

/// A well-formed unit code: 3 to 8 upper-case ASCII alphanumerics.
pub open spec fn valid_code(s: Seq<char>) -> bool {
    &&& 3 <= s.len() <= MAX_UNIT_CODE_LEN
    &&& forall|i: int| 0 <= i < s.len() ==> #[trigger] is_code_char(s[i])
}

/// A 3–8 character upper-case ASCII alphanumeric unit identifier, held inline so it stays `Copy`.
#[derive(Debug, Clone, Copy, PartialEq, Eq, Hash, PartialOrd, Ord)]
pub struct UnitCode {
    chars: [char; MAX_UNIT_CODE_LEN],
    len: u8,
}

impl View for UnitCode {
    type V = Seq<char>;

    closed spec fn view(&self) -> Seq<char> {
        self.chars@.subrange(0, self.len as int)
    }
}

impl UnitCode {
    #[verifier::type_invariant]
    spec fn well_formed(self) -> bool {
        &&& 3 <= self.len <= MAX_UNIT_CODE_LEN
        &&& forall|i: int| 0 <= i < self.len ==> #[trigger] is_code_char(self.chars@[i])
        &&& forall|i: int| self.len <= i < MAX_UNIT_CODE_LEN ==> #[trigger] self.chars@[i] == '\0'
    }

    /// Copies an already-validated code into the inline buffer.
    fn from_validated(raw: &Vec<char>) -> (code: UnitCode)
        requires
            valid_code(raw@),
        ensures
            code@ == raw@,
    {
        let mut chars: [char; MAX_UNIT_CODE_LEN] = ['\0'; MAX_UNIT_CODE_LEN];
        let mut i: usize = 0;
        while i < raw.len()
            invariant
                i <= raw@.len() <= MAX_UNIT_CODE_LEN,
                chars@.len() == MAX_UNIT_CODE_LEN,
                forall|k: int| 0 <= k < i ==> chars@[k] == raw@[k],
                forall|k: int| i <= k < MAX_UNIT_CODE_LEN ==> chars@[k] == '\0',
            decreases raw@.len() - i,
        {
            chars[i] = raw[i];
            i = i + 1;
        }
        let code = UnitCode { chars, len: raw.len() as u8 };
        assert(code@ =~= raw@);
        code
    }

    /// Validates a unit code: 3–8 upper-case ASCII alphanumerics. Lower case is rejected, never
    /// normalized.
    pub fn new(raw: &str) -> (r: Result<UnitCode, MoneyError>)
        ensures
            valid_code(raw@) ==> (r matches Ok(code) && code@ == raw@),
            !valid_code(raw@) ==> r == Err::<UnitCode, MoneyError>(MoneyError::InvalidUnitCode),
    {
        let value = chars_of(raw);
        let length = value.len();
        if length < 3 || length > MAX_UNIT_CODE_LEN {
            return Err(MoneyError::InvalidUnitCode);
        }
        let mut i: usize = 0;
        while i < length
            invariant
                i <= length == value@.len(),
                value@ == raw@,
                forall|k: int| 0 <= k < i ==> #[trigger] is_code_char(value@[k]),
            decreases length - i,
        {
            let c = value[i];
            if !(('A' <= c && c <= 'Z') || ('0' <= c && c <= '9')) {
                assert(!is_code_char(value@[i as int]));
                assert(!is_code_char(raw@[i as int]));
                return Err(MoneyError::InvalidUnitCode);
            }
            i = i + 1;
        }
        Ok(UnitCode::from_validated(&value))
    }

    /// The code as text.
    pub fn as_str(&self) -> (s: String)
        ensures
            s@ == self@,
            valid_code(s@),
    {
        proof {
            use_type_invariant(self);
        }
        let mut s = String::new();
        let mut i: usize = 0;
        let n = self.len as usize;
        while i < n
            invariant
                i <= n == self.len,
                n <= MAX_UNIT_CODE_LEN,
                self.chars@.len() == MAX_UNIT_CODE_LEN,
                s@ == self.chars@.subrange(0, i as int),
            decreases n - i,
        {
            push_char(&mut s, self.chars[i]);
            i = i + 1;
            assert(s@ =~= self.chars@.subrange(0, i as int));
        }
        s
    }

    /// Whether two codes are the same code.
    pub fn same_code(&self, other: &UnitCode) -> (r: bool)
        ensures
            r == (self@ == other@),
    {
        let a = self.as_str();
        let b = other.as_str();
        a == b
    }

    /// Whether this code spells `literal`.
    pub fn is(&self, literal: &str) -> (r: bool)
        ensures
            r == (self@ == literal@),
    {
        let a = self.as_str();
        text_eq(a.as_str(), literal)
    }

    fn builtin(literal: &str) -> (code: UnitCode)
        requires
            valid_code(literal@),
        ensures
            code@ == literal@,
    {
        let v = chars_of(literal);
        UnitCode::from_validated(&v)
    }

    /// `CNY`.
    pub fn cny() -> (code: UnitCode)
        ensures
            code@ == "CNY"@,
    {
        proof {
            reveal_strlit("CNY");
        }
        UnitCode::builtin("CNY")
    }

    /// `USD`.
    pub fn usd() -> (code: UnitCode)
        ensures
            code@ == "USD"@,
    {
        proof {
            reveal_strlit("USD");
        }
        UnitCode::builtin("USD")
    }

    /// `EUR`.
    pub fn eur() -> (code: UnitCode)
        ensures
            code@ == "EUR"@,
    {
        proof {
            reveal_strlit("EUR");
        }
        UnitCode::builtin("EUR")
    }

    /// `JPY`.
    pub fn jpy() -> (code: UnitCode)
        ensures
            code@ == "JPY"@,
    {
        proof {
            reveal_strlit("JPY");
        }
        UnitCode::builtin("JPY")
    }

    /// `KWD`.
    pub fn kwd() -> (code: UnitCode)
        ensures
            code@ == "KWD"@,
    {
        proof {
            reveal_strlit("KWD");
        }
        UnitCode::builtin("KWD")
    }

    /// `POINTS`, the internal credit unit.
    pub fn points() -> (code: UnitCode)
        ensures
            code@ == "POINTS"@,
    {
        proof {
            reveal_strlit("POINTS");
        }
        UnitCode::builtin("POINTS")
    }
}

/// The built-in unit registry: ISO 4217 currencies by exponent, `CLF` at four, and the internal
/// point units at six.
pub open spec fn builtin_unit(code: Seq<char>) -> Option<(u8, RoundingMode)> {
    if code == "CNY"@ {
        Some((2u8, RoundingMode::HalfUp))
    } else if code == "USD"@ {
        Some((2u8, RoundingMode::HalfUp))
    } else if code == "EUR"@ {
        Some((2u8, RoundingMode::HalfUp))
    } else if code == "GBP"@ {
        Some((2u8, RoundingMode::HalfUp))
    } else if code == "HKD"@ {
        Some((2u8, RoundingMode::HalfUp))
    } else if code == "MOP"@ {
        Some((2u8, RoundingMode::HalfUp))
    } else if code == "TWD"@ {
        Some((2u8, RoundingMode::HalfUp))
    } else if code == "JPY"@ {
        Some((0u8, RoundingMode::Floor))
    } else if code == "KRW"@ {
        Some((0u8, RoundingMode::Floor))
    } else if code == "VND"@ {
        Some((0u8, RoundingMode::Floor))
    } else if code == "KWD"@ {
        Some((3u8, RoundingMode::HalfUp))
    } else if code == "BHD"@ {
        Some((3u8, RoundingMode::HalfUp))
    } else if code == "OMR"@ {
        Some((3u8, RoundingMode::HalfUp))
    } else if code == "JOD"@ {
        Some((3u8, RoundingMode::HalfUp))
    } else if code == "TND"@ {
        Some((3u8, RoundingMode::HalfUp))
    } else if code == "CLF"@ {
        Some((4u8, RoundingMode::HalfEven))
    } else if code == "POINTS"@ {
        Some((6u8, RoundingMode::HalfEven))
    } else if code == "CREDIT"@ {
        Some((6u8, RoundingMode::HalfEven))
    } else {
        None
    }
}

/// The built-in registry follows ISO 4217's minor-unit exponents: the two-decimal currencies
/// (CNY, USD, EUR, GBP, HKD, MOP, TWD) resolve to scale 2 rounding half up, the zero-decimal ones
/// (JPY, KRW, VND) to scale 0 rounding down, the three-decimal ones (KWD, BHD, OMR, JOD, TND) to
/// scale 3 rounding half up, CLF to scale 4 and the internal point units (POINTS, CREDIT) to
/// scale 6, both rounding half to even; no other code is built in.
pub proof fn law_builtin_units_follow_iso_4217(code: Seq<char>)
    ensures
        builtin_unit(code) == Some((2u8, RoundingMode::HalfUp)) <==> (code == "CNY"@ || code == "USD"@ || code == "EUR"@ || code == "GBP"@ || code == "HKD"@ || code == "MOP"@ || code == "TWD"@),
        builtin_unit(code) == Some((0u8, RoundingMode::Floor)) <==> (code == "JPY"@ || code == "KRW"@ || code == "VND"@),
        builtin_unit(code) == Some((3u8, RoundingMode::HalfUp)) <==> (code == "KWD"@ || code == "BHD"@ || code == "OMR"@ || code == "JOD"@ || code == "TND"@),
        builtin_unit(code) == Some((4u8, RoundingMode::HalfEven)) <==> code == "CLF"@,
        builtin_unit(code) == Some((6u8, RoundingMode::HalfEven)) <==> (code == "POINTS"@
            || code == "CREDIT"@),
        builtin_unit(code) is None <==> !(code == "CNY"@ || code == "USD"@ || code == "EUR"@ || code == "GBP"@ || code == "HKD"@ || code == "MOP"@ || code == "TWD"@ || code == "JPY"@ || code == "KRW"@ || code == "VND"@ || code == "KWD"@ || code == "BHD"@ || code == "OMR"@ || code == "JOD"@ || code == "TND"@ || code == "CLF"@ || code == "POINTS"@ || code == "CREDIT"@),
{
    reveal_strlit("CNY");
    reveal_strlit("USD");
    reveal_strlit("EUR");
    reveal_strlit("GBP");
    reveal_strlit("HKD");
    reveal_strlit("MOP");
    reveal_strlit("TWD");
    reveal_strlit("JPY");
    reveal_strlit("KRW");
    reveal_strlit("VND");
    reveal_strlit("KWD");
    reveal_strlit("BHD");
    reveal_strlit("OMR");
    reveal_strlit("JOD");
    reveal_strlit("TND");
    reveal_strlit("CLF");
    reveal_strlit("POINTS");
    reveal_strlit("CREDIT");
    if code == "USD"@ {
        assert("USD"@[0] != "CNY"@[0]);
    }
    if code == "EUR"@ {
        assert("EUR"@[0] != "CNY"@[0]);
        assert("EUR"@[0] != "USD"@[0]);
    }
    if code == "GBP"@ {
        assert("GBP"@[0] != "CNY"@[0]);
        assert("GBP"@[0] != "USD"@[0]);
        assert("GBP"@[0] != "EUR"@[0]);
    }
    if code == "HKD"@ {
        assert("HKD"@[0] != "CNY"@[0]);
        assert("HKD"@[0] != "USD"@[0]);
        assert("HKD"@[0] != "EUR"@[0]);
        assert("HKD"@[0] != "GBP"@[0]);
    }
    if code == "MOP"@ {
        assert("MOP"@[0] != "CNY"@[0]);
        assert("MOP"@[0] != "USD"@[0]);
        assert("MOP"@[0] != "EUR"@[0]);
        assert("MOP"@[0] != "GBP"@[0]);
        assert("MOP"@[0] != "HKD"@[0]);
    }
    if code == "TWD"@ {
        assert("TWD"@[0] != "CNY"@[0]);
        assert("TWD"@[0] != "USD"@[0]);
        assert("TWD"@[0] != "EUR"@[0]);
        assert("TWD"@[0] != "GBP"@[0]);
        assert("TWD"@[0] != "HKD"@[0]);
        assert("TWD"@[0] != "MOP"@[0]);
    }
    if code == "JPY"@ {
        assert("JPY"@[0] != "CNY"@[0]);
        assert("JPY"@[0] != "USD"@[0]);
        assert("JPY"@[0] != "EUR"@[0]);
        assert("JPY"@[0] != "GBP"@[0]);
        assert("JPY"@[0] != "HKD"@[0]);
        assert("JPY"@[0] != "MOP"@[0]);
        assert("JPY"@[0] != "TWD"@[0]);
    }
    if code == "KRW"@ {
        assert("KRW"@[0] != "CNY"@[0]);
        assert("KRW"@[0] != "USD"@[0]);
        assert("KRW"@[0] != "EUR"@[0]);
        assert("KRW"@[0] != "GBP"@[0]);
        assert("KRW"@[0] != "HKD"@[0]);
        assert("KRW"@[0] != "MOP"@[0]);
        assert("KRW"@[0] != "TWD"@[0]);
        assert("KRW"@[0] != "JPY"@[0]);
    }
    if code == "VND"@ {
        assert("VND"@[0] != "CNY"@[0]);
        assert("VND"@[0] != "USD"@[0]);
        assert("VND"@[0] != "EUR"@[0]);
        assert("VND"@[0] != "GBP"@[0]);
        assert("VND"@[0] != "HKD"@[0]);
        assert("VND"@[0] != "MOP"@[0]);
        assert("VND"@[0] != "TWD"@[0]);
        assert("VND"@[0] != "JPY"@[0]);
        assert("VND"@[0] != "KRW"@[0]);
    }
    if code == "KWD"@ {
        assert("KWD"@[0] != "CNY"@[0]);
        assert("KWD"@[0] != "USD"@[0]);
        assert("KWD"@[0] != "EUR"@[0]);
        assert("KWD"@[0] != "GBP"@[0]);
        assert("KWD"@[0] != "HKD"@[0]);
        assert("KWD"@[0] != "MOP"@[0]);
        assert("KWD"@[0] != "TWD"@[0]);
        assert("KWD"@[0] != "JPY"@[0]);
        assert("KWD"@[1] != "KRW"@[1]);
        assert("KWD"@[0] != "VND"@[0]);
    }
    if code == "BHD"@ {
        assert("BHD"@[0] != "CNY"@[0]);
        assert("BHD"@[0] != "USD"@[0]);
        assert("BHD"@[0] != "EUR"@[0]);
        assert("BHD"@[0] != "GBP"@[0]);
        assert("BHD"@[0] != "HKD"@[0]);
        assert("BHD"@[0] != "MOP"@[0]);
        assert("BHD"@[0] != "TWD"@[0]);
        assert("BHD"@[0] != "JPY"@[0]);
        assert("BHD"@[0] != "KRW"@[0]);
        assert("BHD"@[0] != "VND"@[0]);
        assert("BHD"@[0] != "KWD"@[0]);
    }
    if code == "OMR"@ {
        assert("OMR"@[0] != "CNY"@[0]);
        assert("OMR"@[0] != "USD"@[0]);
        assert("OMR"@[0] != "EUR"@[0]);
        assert("OMR"@[0] != "GBP"@[0]);
        assert("OMR"@[0] != "HKD"@[0]);
        assert("OMR"@[0] != "MOP"@[0]);
        assert("OMR"@[0] != "TWD"@[0]);
        assert("OMR"@[0] != "JPY"@[0]);
        assert("OMR"@[0] != "KRW"@[0]);
        assert("OMR"@[0] != "VND"@[0]);
        assert("OMR"@[0] != "KWD"@[0]);
        assert("OMR"@[0] != "BHD"@[0]);
    }
    if code == "JOD"@ {
        assert("JOD"@[0] != "CNY"@[0]);
        assert("JOD"@[0] != "USD"@[0]);
        assert("JOD"@[0] != "EUR"@[0]);
        assert("JOD"@[0] != "GBP"@[0]);
        assert("JOD"@[0] != "HKD"@[0]);
        assert("JOD"@[0] != "MOP"@[0]);
        assert("JOD"@[0] != "TWD"@[0]);
        assert("JOD"@[1] != "JPY"@[1]);
        assert("JOD"@[0] != "KRW"@[0]);
        assert("JOD"@[0] != "VND"@[0]);
        assert("JOD"@[0] != "KWD"@[0]);
        assert("JOD"@[0] != "BHD"@[0]);
        assert("JOD"@[0] != "OMR"@[0]);
    }
    if code == "TND"@ {
        assert("TND"@[0] != "CNY"@[0]);
        assert("TND"@[0] != "USD"@[0]);
        assert("TND"@[0] != "EUR"@[0]);
        assert("TND"@[0] != "GBP"@[0]);
        assert("TND"@[0] != "HKD"@[0]);
        assert("TND"@[0] != "MOP"@[0]);
        assert("TND"@[1] != "TWD"@[1]);
        assert("TND"@[0] != "JPY"@[0]);
        assert("TND"@[0] != "KRW"@[0]);
        assert("TND"@[0] != "VND"@[0]);
        assert("TND"@[0] != "KWD"@[0]);
        assert("TND"@[0] != "BHD"@[0]);
        assert("TND"@[0] != "OMR"@[0]);
        assert("TND"@[0] != "JOD"@[0]);
    }
    if code == "CLF"@ {
        assert("CLF"@[1] != "CNY"@[1]);
        assert("CLF"@[0] != "USD"@[0]);
        assert("CLF"@[0] != "EUR"@[0]);
        assert("CLF"@[0] != "GBP"@[0]);
        assert("CLF"@[0] != "HKD"@[0]);
        assert("CLF"@[0] != "MOP"@[0]);
        assert("CLF"@[0] != "TWD"@[0]);
        assert("CLF"@[0] != "JPY"@[0]);
        assert("CLF"@[0] != "KRW"@[0]);
        assert("CLF"@[0] != "VND"@[0]);
        assert("CLF"@[0] != "KWD"@[0]);
        assert("CLF"@[0] != "BHD"@[0]);
        assert("CLF"@[0] != "OMR"@[0]);
        assert("CLF"@[0] != "JOD"@[0]);
        assert("CLF"@[0] != "TND"@[0]);
    }
    if code == "POINTS"@ {
        assert("POINTS"@.len() != "CNY"@.len());
        assert("POINTS"@.len() != "USD"@.len());
        assert("POINTS"@.len() != "EUR"@.len());
        assert("POINTS"@.len() != "GBP"@.len());
        assert("POINTS"@.len() != "HKD"@.len());
        assert("POINTS"@.len() != "MOP"@.len());
        assert("POINTS"@.len() != "TWD"@.len());
        assert("POINTS"@.len() != "JPY"@.len());
        assert("POINTS"@.len() != "KRW"@.len());
        assert("POINTS"@.len() != "VND"@.len());
        assert("POINTS"@.len() != "KWD"@.len());
        assert("POINTS"@.len() != "BHD"@.len());
        assert("POINTS"@.len() != "OMR"@.len());
        assert("POINTS"@.len() != "JOD"@.len());
        assert("POINTS"@.len() != "TND"@.len());
        assert("POINTS"@.len() != "CLF"@.len());
    }
    if code == "CREDIT"@ {
        assert("CREDIT"@.len() != "CNY"@.len());
        assert("CREDIT"@.len() != "USD"@.len());
        assert("CREDIT"@.len() != "EUR"@.len());
        assert("CREDIT"@.len() != "GBP"@.len());
        assert("CREDIT"@.len() != "HKD"@.len());
        assert("CREDIT"@.len() != "MOP"@.len());
        assert("CREDIT"@.len() != "TWD"@.len());
        assert("CREDIT"@.len() != "JPY"@.len());
        assert("CREDIT"@.len() != "KRW"@.len());
        assert("CREDIT"@.len() != "VND"@.len());
        assert("CREDIT"@.len() != "KWD"@.len());
        assert("CREDIT"@.len() != "BHD"@.len());
        assert("CREDIT"@.len() != "OMR"@.len());
        assert("CREDIT"@.len() != "JOD"@.len());
        assert("CREDIT"@.len() != "TND"@.len());
        assert("CREDIT"@.len() != "CLF"@.len());
        assert("CREDIT"@[0] != "POINTS"@[0]);
    }
}

fn builtin_lookup(code: &UnitCode) -> (r: Option<(u8, RoundingMode)>)
    ensures
        r == builtin_unit(code@),
{
    if code.is("CNY") {
        Some((2, RoundingMode::HalfUp))
    } else if code.is("USD") {
        Some((2, RoundingMode::HalfUp))
    } else if code.is("EUR") {
        Some((2, RoundingMode::HalfUp))
    } else if code.is("GBP") {
        Some((2, RoundingMode::HalfUp))
    } else if code.is("HKD") {
        Some((2, RoundingMode::HalfUp))
    } else if code.is("MOP") {
        Some((2, RoundingMode::HalfUp))
    } else if code.is("TWD") {
        Some((2, RoundingMode::HalfUp))
    } else if code.is("JPY") {
        Some((0, RoundingMode::Floor))
    } else if code.is("KRW") {
        Some((0, RoundingMode::Floor))
    } else if code.is("VND") {
        Some((0, RoundingMode::Floor))
    } else if code.is("KWD") {
        Some((3, RoundingMode::HalfUp))
    } else if code.is("BHD") {
        Some((3, RoundingMode::HalfUp))
    } else if code.is("OMR") {
        Some((3, RoundingMode::HalfUp))
    } else if code.is("JOD") {
        Some((3, RoundingMode::HalfUp))
    } else if code.is("TND") {
        Some((3, RoundingMode::HalfUp))
    } else if code.is("CLF") {
        Some((4, RoundingMode::HalfEven))
    } else if code.is("POINTS") {
        Some((6, RoundingMode::HalfEven))
    } else if code.is("CREDIT") {
        Some((6, RoundingMode::HalfEven))
    } else {
        None
    }
}

/// A unit of value: its code, its scale (fractional digits) and the rounding mode declared for it.
#[derive(Debug, Clone, Copy, PartialEq, Eq)]
pub struct MoneyUnit {
    code: UnitCode,
    scale: u8,
    rounding: RoundingMode,
}

impl MoneyUnit {
    #[verifier::type_invariant]
    spec fn well_formed(self) -> bool {
        self.scale <= MAX_SCALE
    }

    pub closed spec fn code_of(self) -> UnitCode {
        self.code
    }

    pub closed spec fn scale_of(self) -> u8 {
        self.scale
    }

    pub closed spec fn rounding_of(self) -> RoundingMode {
        self.rounding
    }

    /// Declares a custom unit, as held in the database registry rather than the built-in table.
    pub fn custom(code: UnitCode, scale: u8, rounding: RoundingMode) -> (r: Result<
        MoneyUnit,
        MoneyError,
    >)
        ensures
            scale > MAX_SCALE ==> r == Err::<MoneyUnit, MoneyError>(MoneyError::ScaleTooLarge),
            scale <= MAX_SCALE ==> (r matches Ok(unit) && unit.code_of() == code
                && unit.scale_of() == scale && unit.rounding_of() == rounding),
    {
        if scale > MAX_SCALE {
            return Err(MoneyError::ScaleTooLarge);
        }
        Ok(MoneyUnit { code, scale, rounding })
    }

    /// Resolves a built-in ISO 4217 unit, or one of the internal point units.
    pub fn of(code: UnitCode) -> (r: Result<MoneyUnit, MoneyError>)
        ensures
            match builtin_unit(code@) {
                Some(entry) => r matches Ok(unit) && unit.code_of() == code && unit.scale_of()
                    == entry.0 && unit.rounding_of() == entry.1,
                None => r == Err::<MoneyUnit, MoneyError>(MoneyError::UnknownUnit),
            },
    {
        match builtin_lookup(&code) {
            Some((scale, rounding)) => MoneyUnit::custom(code, scale, rounding),
            None => Err(MoneyError::UnknownUnit),
        }
    }

    /// Builds a unit from a `commerce_currency` registry row: code, minor-unit exponent, and the
    /// `rounding_mode` text.
    pub fn from_registry(code: &str, scale: u8, rounding: &str) -> (r: Result<
        MoneyUnit,
        MoneyError,
    >)
        ensures
            !valid_code(code@) ==> r == Err::<MoneyUnit, MoneyError>(MoneyError::InvalidUnitCode),
            valid_code(code@) && RoundingMode::from_storage_text(rounding@) is None ==> r == Err::<
                MoneyUnit,
                MoneyError,
            >(MoneyError::UnknownRoundingMode),
            valid_code(code@) && RoundingMode::from_storage_text(rounding@) is Some && scale
                > MAX_SCALE ==> r == Err::<MoneyUnit, MoneyError>(MoneyError::ScaleTooLarge),
            valid_code(code@) && RoundingMode::from_storage_text(rounding@) is Some && scale
                <= MAX_SCALE ==> (r matches Ok(unit) && unit.code_of()@ == code@
                && unit.scale_of() == scale && Some(unit.rounding_of())
                == RoundingMode::from_storage_text(rounding@)),
    {
        let code = UnitCode::new(code)?;
        let rounding = RoundingMode::from_storage_str(rounding)?;
        MoneyUnit::custom(code, scale, rounding)
    }

    pub fn code(self) -> (c: UnitCode)
        ensures
            c == self.code_of(),
    {
        self.code
    }

    pub fn scale(self) -> (s: u8)
        ensures
            s == self.scale_of(),
            s <= MAX_SCALE,
    {
        proof {
            use_type_invariant(&self);
        }
        self.scale
    }

    pub fn rounding(self) -> (m: RoundingMode)
        ensures
            m == self.rounding_of(),
    {
        self.rounding
    }

    /// The integer multiplier that converts a major amount at this scale into minor units.
    pub fn major_factor(self) -> (r: Result<i128, MoneyError>)
        ensures
            r matches Ok(f) && f == pow10(self.scale_of() as nat),
    {
        proof {
            use_type_invariant(&self);
            crate::text::lemma_pow10_monotone(self.scale as nat, 8);
            assert(pow10(8) == 100000000) by {
                reveal_with_fuel(pow10, 9);
            }
        }
        match crate::decimal::pow10_i128(self.scale as u32) {
            Some(f) => Ok(f),
            None => Err(MoneyError::Overflow),
        }
    }

    /// Whether two units are the same for arithmetic: same code and same scale.
    pub fn same_as(self, other: MoneyUnit) -> (r: bool)
        ensures
            r == same_unit(self, other),
    {
        self.code.same_code(&other.code) && self.scale == other.scale
    }
}

/// Arithmetic between two units is defined only when code and scale agree.
pub open spec fn same_unit(a: MoneyUnit, b: MoneyUnit) -> bool {
    a.code_of()@ == b.code_of()@ && a.scale_of() == b.scale_of()
}

/// A decimal multiplier such as a tax rate, discount ratio, or exchange rate, kept as an exact
/// scaled integer: `mantissa / 10^scale`.
#[derive(Debug, Clone, Copy, PartialEq, Eq)]
pub struct Rate {
    mantissa: i128,
    scale: u8,
}

/// What parsing a rate literal answers: the mantissa and scale, or why it is refused.
pub open spec fn rate_parse_outcome(s: Seq<char>) -> Result<(int, nat), MoneyError> {
    let body = literal_unsigned(s);
    let whole = whole_part(body);
    let fraction = fraction_part(body);
    if !well_formed_body(body) {
        Err(MoneyError::InvalidAmount)
    } else if fraction.len() > MAX_SCALE {
        Err(MoneyError::ScaleTooLarge)
    } else if digits_value(body_digits(body)) > i128::MAX {
        Err(MoneyError::Overflow)
    } else {
        let magnitude = digits_value(body_digits(body));
        Ok(
            (
                if literal_negative(s) {
                    -magnitude
                } else {
                    magnitude
                },
                fraction.len(),
            ),
        )
    }
}

impl Rate {
    #[verifier::type_invariant]
    spec fn well_formed(self) -> bool {
        self.scale <= MAX_SCALE
    }

    pub closed spec fn mantissa_of(self) -> i128 {
        self.mantissa
    }

    pub closed spec fn scale_of(self) -> u8 {
        self.scale
    }

    pub fn new(mantissa: i128, scale: u8) -> (r: Result<Rate, MoneyError>)
        ensures
            scale > MAX_SCALE ==> r == Err::<Rate, MoneyError>(MoneyError::ScaleTooLarge),
            scale <= MAX_SCALE ==> (r matches Ok(rate) && rate.mantissa_of() == mantissa
                && rate.scale_of() == scale),
    {
        if scale > MAX_SCALE {
            return Err(MoneyError::ScaleTooLarge);
        }
        Ok(Rate { mantissa, scale })
    }

    /// Identity multiplier (`1`).
    pub fn one() -> (rate: Rate)
        ensures
            rate.mantissa_of() == 1,
            rate.scale_of() == 0,
    {
        Rate { mantissa: 1, scale: 0 }
    }

    pub fn mantissa(self) -> (m: i128)
        ensures
            m == self.mantissa_of(),
    {
        self.mantissa
    }

    pub fn scale(self) -> (s: u8)
        ensures
            s == self.scale_of(),
            s <= MAX_SCALE,
    {
        proof {
            use_type_invariant(&self);
        }
        self.scale
    }

    /// The rate written as a decimal with exactly its scale's fractional digits (`"0.97"`).
    pub fn to_display_string(&self) -> (s: String)
        ensures
            s@ == crate::decimal::scaled_text(self.mantissa_of() as int, self.scale_of() as nat),
    {
        crate::text::string_of(&crate::decimal::scaled_to_decimal_chars(self.mantissa, self.scale))
    }

    /// Parses a decimal literal such as `"0.97"` or `"-1.5"` into an exact rate.
    pub fn parse_literal(value: &str) -> (r: Result<Rate, MoneyError>)
        ensures
            match rate_parse_outcome(value@) {
                Ok((m, s)) => r matches Ok(rate) && rate.mantissa_of() == m && rate.scale_of()
                    == s,
                Err(e) => r == Err::<Rate, MoneyError>(e),
            },
    {
        let chars = chars_of(value);
        let (negative, whole, fraction) = split_literal(&chars);
        let ghost body = literal_unsigned(value@);
        if whole.len() == 0 && fraction.len() == 0 {
            return Err(MoneyError::InvalidAmount);
        }
        if !chars_all_digits(&whole) || !chars_all_digits(&fraction) {
            return Err(MoneyError::InvalidAmount);
        }
        if fraction.len() > MAX_SCALE as usize {
            return Err(MoneyError::ScaleTooLarge);
        }
        let mut digits = whole.clone();
        let mut extra = fraction.clone();
        digits.append(&mut extra);
        proof {
            assert(digits@ =~= body_digits(body));
            lemma_all_digits_concat(whole@, fraction@);
            lemma_digits_value_nonneg(digits@);
        }
        let magnitude = match digits_to_u128(&digits) {
            Some(v) => v,
            None => return Err(MoneyError::Overflow),
        };
        if magnitude > i128::MAX as u128 {
            return Err(MoneyError::Overflow);
        }
        let m = magnitude as i128;
        let mantissa = if negative {
            -m
        } else {
            m
        };
        Ok(Rate { mantissa, scale: fraction.len() as u8 })
    }
}

impl core::str::FromStr for Rate {
    type Err = MoneyError;

    fn from_str(value: &str) -> (r: Result<Rate, MoneyError>)
        ensures
            match rate_parse_outcome(value@) {
                Ok((m, s)) => r matches Ok(rate) && rate.mantissa_of() == m && rate.scale_of()
                    == s,
                Err(e) => r == Err::<Rate, MoneyError>(e),
            },
    {
        Rate::parse_literal(value)
    }
}

} // verus!
