//! The decimal literal grammar money and rates are written in, and its inverse rendering.
//!
//! A literal is an optional sign (`-` or `+`), then digits with at most one `.`; at least one digit
//! must appear on either side of the point.
use vstd::prelude::*;

use crate::text::{
    all_digits, char_is_ascii_digit, decimal_chars, decimal_text, digits_value, is_ascii_digit,
    is_white_space, lemma_all_digits_concat, lemma_decimal_text, lemma_digits_value_concat,
    lemma_digits_value_leading_zeros, lemma_digits_value_nonneg, lemma_pow10_monotone,
    lemma_pow10_positive, lemma_zeros_all_digits, pow10, slice_chars, trim, trim_end, trim_start,
    zeros,
};

verus! {

/// Whether the literal starts with `-`.
pub open spec fn literal_negative(s: Seq<char>) -> bool {
    s.len() > 0 && s[0] == '-'
}

/// The literal without its sign.
pub open spec fn literal_unsigned(s: Seq<char>) -> Seq<char> {
    if s.len() > 0 && (s[0] == '-' || s[0] == '+') {
        s.drop_first()
    } else {
        s
    }
}

/// The index of the first `.` at or after `i`, or the length when there is none.
pub open spec fn find_dot(s: Seq<char>, i: int) -> int
    decreases s.len() - i,
{
    if i >= s.len() {
        s.len() as int
    } else if s[i] == '.' {
        i
    } else {
        find_dot(s, i + 1)
    }
}

/// The digits before the point.
pub open spec fn whole_part(d: Seq<char>) -> Seq<char> {
    d.subrange(0, find_dot(d, 0))
}

/// The digits after the point (empty when there is no point).
pub open spec fn fraction_part(d: Seq<char>) -> Seq<char> {
    let k = find_dot(d, 0);
    if k < d.len() {
        d.subrange(k + 1, d.len() as int)
    } else {
        Seq::empty()
    }
}

/// An unsigned body that is digits with at most one point and at least one digit.
pub open spec fn well_formed_body(d: Seq<char>) -> bool {
    &&& !(whole_part(d).len() == 0 && fraction_part(d).len() == 0)
    &&& all_digits(whole_part(d))
    &&& all_digits(fraction_part(d))
}

/// All the digits of the body, point removed: the literal's value in units of its last digit.
pub open spec fn body_digits(d: Seq<char>) -> Seq<char> {
    whole_part(d) + fraction_part(d)
}

pub proof fn lemma_find_dot_bounds(s: Seq<char>, i: int)
    requires
        0 <= i <= s.len(),
    ensures
        i <= find_dot(s, i) <= s.len(),
        find_dot(s, i) < s.len() ==> s[find_dot(s, i)] == '.',
        forall|j: int| i <= j < find_dot(s, i) ==> s[j] != '.',
    decreases s.len() - i,
{
    if i < s.len() && s[i] != '.' {
        lemma_find_dot_bounds(s, i + 1);
    }
}

/// Splits a literal into its sign, whole digits and fraction digits.
pub fn split_literal(s: &Vec<char>) -> (r: (bool, Vec<char>, Vec<char>))
    ensures
        r.0 == literal_negative(s@),
        r.1@ == whole_part(literal_unsigned(s@)),
        r.2@ == fraction_part(literal_unsigned(s@)),
{
    let n = s.len();
    let negative = n > 0 && s[0] == '-';
    let start: usize = if n > 0 && (s[0] == '-' || s[0] == '+') {
        1
    } else {
        0
    };
    let ghost body = literal_unsigned(s@);
    assert(body =~= s@.subrange(start as int, n as int));
    let mut k = start;
    proof {
        lemma_find_dot_bounds(body, 0);
    }
    while k < n && s[k] != '.'
        invariant
            start <= k <= n,
            n == s@.len(),
            body == s@.subrange(start as int, n as int),
            find_dot(body, 0) == find_dot(body, k - start),
        decreases n - k,
    {
        k = k + 1;
    }
    let whole = slice_chars(s, start, k);
    let fraction = if k < n {
        slice_chars(s, k + 1, n)
    } else {
        Vec::new()
    };
    assert(find_dot(body, k - start) == k - start);
    assert(whole@ =~= whole_part(body));
    assert(fraction@ =~= fraction_part(body));
    (negative, whole, fraction)
}

/// Whether every character is a decimal digit.
pub fn chars_all_digits(s: &Vec<char>) -> (r: bool)
    ensures
        r == all_digits(s@),
{
    let mut i: usize = 0;
    while i < s.len()
        invariant
            i <= s@.len(),
            forall|k: int| 0 <= k < i ==> #[trigger] is_ascii_digit(s@[k]),
        decreases s@.len() - i,
    {
        if !char_is_ascii_digit(s[i]) {
            return false;
        }
        i = i + 1;
    }
    true
}

/// A prefix of a run of digits is worth no more than the whole run.
pub proof fn lemma_digits_value_prefix(s: Seq<char>, k: int)
    requires
        all_digits(s),
        0 <= k <= s.len(),
    ensures
        0 <= digits_value(s.subrange(0, k)) <= digits_value(s),
{
    let pre = s.subrange(0, k);
    let suf = s.subrange(k, s.len() as int);
    assert(pre + suf =~= s);
    assert(all_digits(pre));
    assert(all_digits(suf));
    lemma_digits_value_concat(pre, suf);
    lemma_digits_value_nonneg(pre);
    lemma_digits_value_nonneg(suf);
    lemma_pow10_positive(suf.len());
    let p = digits_value(pre);
    let m = pow10(suf.len());
    assert(p * m >= p) by (nonlinear_arith)
        requires
            p >= 0,
            m >= 1,
    ;
}

/// The value a run of digits spells, or `None` when it exceeds 128 unsigned bits.
pub fn digits_to_u128(s: &Vec<char>) -> (r: Option<u128>)
    requires
        all_digits(s@),
    ensures
        r matches Some(v) ==> v == digits_value(s@),
        r is None ==> digits_value(s@) > u128::MAX,
{
    let mut acc: u128 = 0;
    let mut i: usize = 0;
    while i < s.len()
        invariant
            i <= s@.len(),
            all_digits(s@),
            acc == digits_value(s@.subrange(0, i as int)),
        decreases s@.len() - i,
    {
        assert(is_ascii_digit(s@[i as int]));
        let d = ((s[i] as u32) - 48) as u128;
        assert(s@.subrange(0, i + 1).drop_last() =~= s@.subrange(0, i as int));
        if acc > (u128::MAX - d) / 10 {
            proof {
                lemma_digits_value_prefix(s@, i + 1);
            }
            return None;
        }
        acc = acc * 10 + d;
        i = i + 1;
    }
    assert(s@.subrange(0, i as int) =~= s@);
    Some(acc)
}

/// `10^n`, for exponents whose power fits in 128 signed bits.
pub fn pow10_i128(n: u32) -> (r: Option<i128>)
    ensures
        r matches Some(v) ==> v == pow10(n as nat),
        r is None ==> pow10(n as nat) > i128::MAX,
{
    let mut value: i128 = 1;
    let mut i: u32 = 0;
    while i < n
        invariant
            i <= n,
            value == pow10(i as nat),
            value >= 1,
        decreases n - i,
    {
        if value > i128::MAX / 10 {
            proof {
                lemma_pow10_monotone((i + 1) as nat, n as nat);
            }
            return None;
        }
        value = value * 10;
        i = i + 1;
    }
    Some(value)
}

/// The decimal rendering of `minor` at `scale`: sign, zero-padded digits, and a point before the
/// last `scale` digits.
pub open spec fn scaled_text(minor: int, scale: nat) -> Seq<char> {
    let magnitude = decimal_text(
        if minor < 0 {
            (-minor) as nat
        } else {
            minor as nat
        },
    );
    let digits = if magnitude.len() > scale {
        magnitude
    } else {
        zeros((scale + 1 - magnitude.len()) as nat) + magnitude
    };
    let split = digits.len() - scale;
    let sign = if minor < 0 {
        seq!['-']
    } else {
        Seq::<char>::empty()
    };
    if scale == 0 {
        sign + digits
    } else {
        sign + digits.subrange(0, split) + seq!['.'] + digits.subrange(split, digits.len() as int)
    }
}

/// Renders `minor` at `scale` as a major-denomination decimal.
pub fn scaled_to_decimal_chars(minor: i128, scale: u8) -> (v: Vec<char>)
    ensures
        v@ == scaled_text(minor as int, scale as nat),
{
    let negative = minor < 0;
    let magnitude_value: u128 = if minor >= 0 {
        minor as u128
    } else if minor == i128::MIN {
        170141183460469231731687303715884105728u128
    } else {
        (-minor) as u128
    };
    let magnitude = decimal_chars(magnitude_value);
    let scale_len = scale as usize;
    let digits = if magnitude.len() > scale_len {
        magnitude
    } else {
        let mut padded: Vec<char> = Vec::new();
        let pad = scale_len + 1 - magnitude.len();
        let mut i: usize = 0;
        while i < pad
            invariant
                i <= pad,
                padded@ == zeros(i as nat),
            decreases pad - i,
        {
            padded.push('0');
            i = i + 1;
            assert(padded@ =~= zeros(i as nat));
        }
        let mut j: usize = 0;
        while j < magnitude.len()
            invariant
                j <= magnitude@.len(),
                padded@ == zeros(pad as nat) + magnitude@.subrange(0, j as int),
            decreases magnitude@.len() - j,
        {
            padded.push(magnitude[j]);
            j = j + 1;
            assert(padded@ =~= zeros(pad as nat) + magnitude@.subrange(0, j as int));
        }
        assert(magnitude@.subrange(0, j as int) =~= magnitude@);
        padded
    };
    let split = digits.len() - scale_len;
    let mut rendered: Vec<char> = Vec::new();
    if negative {
        rendered.push('-');
    }
    let ghost sign = rendered@;
    let mut k: usize = 0;
    while k < split
        invariant
            k <= split <= digits@.len(),
            rendered@ == sign + digits@.subrange(0, k as int),
        decreases split - k,
    {
        rendered.push(digits[k]);
        k = k + 1;
        assert(rendered@ =~= sign + digits@.subrange(0, k as int));
    }
    if scale_len > 0 {
        rendered.push('.');
        let ghost before = rendered@;
        let mut m = split;
        while m < digits.len()
            invariant
                split <= m <= digits@.len(),
                rendered@ == before + digits@.subrange(split as int, m as int),
            decreases digits@.len() - m,
        {
            rendered.push(digits[m]);
            m = m + 1;
            assert(rendered@ =~= before + digits@.subrange(split as int, m as int));
        }
    } else {
        assert(digits@.subrange(0, split as int) =~= digits@);
    }
    rendered
}

} // verus!

verus! {

/// The integer a signed literal (`[+-]?[0-9]+`) spells, if it is one.
pub open spec fn integer_literal_value(s: Seq<char>) -> Option<int> {
    let body = literal_unsigned(s);
    if body.len() > 0 && all_digits(body) {
        Some(
            if literal_negative(s) {
                -digits_value(body)
            } else {
                digits_value(body)
            },
        )
    } else {
        None
    }
}

/// Parses a signed integer literal into 128 bits: `None` when it is not one or does not fit.
pub fn parse_i128_literal(s: &Vec<char>) -> (r: Option<i128>)
    ensures
        match integer_literal_value(s@) {
            Some(v) => if i128::MIN <= v <= i128::MAX {
                r == Some(v as i128)
            } else {
                r is None
            },
            None => r is None,
        },
{
    let n = s.len();
    let negative = n > 0 && s[0] == '-';
    let start: usize = if n > 0 && (s[0] == '-' || s[0] == '+') {
        1
    } else {
        0
    };
    let body = slice_chars(s, start, n);
    assert(body@ =~= literal_unsigned(s@));
    if body.len() == 0 || !chars_all_digits(&body) {
        return None;
    }
    proof {
        lemma_digits_value_nonneg(body@);
    }
    let magnitude = match digits_to_u128(&body) {
        Some(v) => v,
        None => return None,
    };
    if negative {
        if magnitude > 170141183460469231731687303715884105728u128 {
            None
        } else if magnitude == 170141183460469231731687303715884105728u128 {
            Some(i128::MIN)
        } else {
            Some(-(magnitude as i128))
        }
    } else if magnitude > i128::MAX as u128 {
        None
    } else {
        Some(magnitude as i128)
    }
}

} // verus!

verus! {

/// The zero-padded digits `scaled_text` writes for `minor` at `scale`.
pub open spec fn padded_digits(minor: int, scale: nat) -> Seq<char> {
    let magnitude = decimal_text(
        if minor < 0 {
            (-minor) as nat
        } else {
            minor as nat
        },
    );
    if magnitude.len() > scale {
        magnitude
    } else {
        zeros((scale + 1 - magnitude.len()) as nat) + magnitude
    }
}

proof fn lemma_padded_digits(minor: int, scale: nat)
    ensures
        all_digits(padded_digits(minor, scale)),
        padded_digits(minor, scale).len() >= scale + 1,
        digits_value(padded_digits(minor, scale)) == if minor < 0 {
            -minor
        } else {
            minor
        },
{
    let a = if minor < 0 {
        (-minor) as nat
    } else {
        minor as nat
    };
    let magnitude = decimal_text(a);
    lemma_decimal_text(a);
    if magnitude.len() <= scale {
        let z = zeros((scale + 1 - magnitude.len()) as nat);
        lemma_digits_value_leading_zeros((scale + 1 - magnitude.len()) as nat, magnitude);
        lemma_zeros_all_digits((scale + 1 - magnitude.len()) as nat);
        lemma_all_digits_concat(z, magnitude);
    }
}

proof fn lemma_no_dot_in_digits(s: Seq<char>, i: int)
    requires
        all_digits(s),
        0 <= i <= s.len(),
    ensures
        find_dot(s, i) == s.len(),
    decreases s.len() - i,
{
    if i < s.len() {
        assert(is_ascii_digit(s[i]));
        lemma_no_dot_in_digits(s, i + 1);
    }
}

proof fn lemma_find_dot_skips_prefix(s: Seq<char>, split: int, i: int)
    requires
        0 <= i <= split < s.len(),
        s[split] == '.',
        forall|j: int| 0 <= j < split ==> is_ascii_digit(#[trigger] s[j]),
    ensures
        find_dot(s, i) == split,
    decreases split - i,
{
    if i < split {
        assert(is_ascii_digit(s[i]));
        lemma_find_dot_skips_prefix(s, split, i + 1);
    }
}

/// A rendered amount reads back as the literal it was written from: no surrounding white space,
/// the sign of the amount, exactly `scale` fractional digits, and digits spelling its magnitude.
pub proof fn lemma_scaled_text_reads_back(minor: int, scale: nat)
    ensures
        ({
            let s = scaled_text(minor, scale);
            let body = literal_unsigned(s);
            &&& trim(s) == s
            &&& literal_negative(s) == (minor < 0)
            &&& well_formed_body(body)
            &&& fraction_part(body).len() == scale
            &&& body_digits(body) == padded_digits(minor, scale)
        }),
        digits_value(padded_digits(minor, scale)) == if minor < 0 {
            -minor
        } else {
            minor
        },
{
    let d = padded_digits(minor, scale);
    lemma_padded_digits(minor, scale);
    let s = scaled_text(minor, scale);
    let split = d.len() - scale;
    let sign = if minor < 0 {
        seq!['-']
    } else {
        Seq::<char>::empty()
    };
    let rest = if scale == 0 {
        d
    } else {
        d.subrange(0, split) + seq!['.'] + d.subrange(split, d.len() as int)
    };
    assert(s =~= sign + rest);
    assert(rest.len() >= 1);
    assert(is_ascii_digit(d[0]));
    assert(is_ascii_digit(d[d.len() - 1]));
    assert(rest[0] == d[0]);
    assert(rest.last() == d.last());
    assert(s.last() == rest.last());
    assert(!is_white_space(s.last()));
    assert(!is_white_space(s[0]));
    assert(trim_start(s) == s);
    assert(trim_end(s) == s);
    let body = literal_unsigned(s);
    assert(body =~= rest);
    if scale == 0 {
        lemma_no_dot_in_digits(d, 0);
        assert(whole_part(body) =~= d);
        assert(fraction_part(body) =~= Seq::<char>::empty());
        assert(body_digits(body) =~= d);
    } else {
        assert forall|j: int| 0 <= j < split implies is_ascii_digit(#[trigger] body[j]) by {
            assert(body[j] == d[j]);
        }
        lemma_find_dot_skips_prefix(body, split, 0);
        assert(whole_part(body) =~= d.subrange(0, split));
        assert(fraction_part(body) =~= d.subrange(split, d.len() as int));
        assert(body_digits(body) =~= d);
    }
    assert(all_digits(whole_part(body)));
    assert(all_digits(fraction_part(body)));
}

} // verus!

verus! {

/// The `i64` a text spells once surrounding white space is removed, if it spells one that fits.
pub open spec fn int64_value(s: Seq<char>) -> Option<i64> {
    match integer_literal_value(trim(s)) {
        Some(v) => if i64::MIN <= v <= i64::MAX {
            Some(v as i64)
        } else {
            None
        },
        None => None,
    }
}

/// Parses a trimmed signed decimal integer that fits in 64 bits.
pub fn parse_i64_text(raw: &str) -> (r: Option<i64>)
    ensures
        r == int64_value(raw@),
{
    let t = crate::text::trimmed_chars(raw);
    match parse_i128_literal(&t) {
        Some(v) => if -9223372036854775808i128 <= v && v <= 9223372036854775807i128 {
            Some(v as i64)
        } else {
            None
        },
        None => None,
    }
}

} // verus!
