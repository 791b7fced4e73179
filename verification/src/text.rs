//! Character-level text helpers shared by the money kernel and the catalog boundary.
//!
//! Every helper is specified over `Seq<char>`, the view Verus gives `str` and `String`.
use vstd::prelude::*;

verus! {

/// The Unicode `White_Space` property, which is what `str::trim` strips.
pub open spec fn is_white_space(c: char) -> bool {
    let v = c as u32;
    ||| 0x09 <= v <= 0x0d
    ||| v == 0x20
    ||| v == 0x85
    ||| v == 0xa0
    ||| v == 0x1680
    ||| 0x2000 <= v <= 0x200a
    ||| v == 0x2028
    ||| v == 0x2029
    ||| v == 0x202f
    ||| v == 0x205f
    ||| v == 0x3000
}

/// Drops leading white space.
pub open spec fn trim_start(s: Seq<char>) -> Seq<char>
    decreases s.len(),
{
    if s.len() > 0 && is_white_space(s[0]) {
        trim_start(s.drop_first())
    } else {
        s
    }
}

/// Drops trailing white space.
pub open spec fn trim_end(s: Seq<char>) -> Seq<char>
    decreases s.len(),
{
    if s.len() > 0 && is_white_space(s.last()) {
        trim_end(s.drop_last())
    } else {
        s
    }
}

/// The text `str::trim` leaves: white space removed from both ends.
pub open spec fn trim(s: Seq<char>) -> Seq<char> {
    trim_end(trim_start(s))
}

/// A value with nothing but white space in it.
pub open spec fn is_blank(s: Seq<char>) -> bool {
    trim(s).len() == 0
}

pub open spec fn is_ascii_digit(c: char) -> bool {
    '0' <= c && c <= '9'
}

pub open spec fn digit_of(c: char) -> int {
    c as int - '0' as int
}

pub open spec fn all_digits(s: Seq<char>) -> bool {
    forall|i: int| 0 <= i < s.len() ==> #[trigger] is_ascii_digit(s[i])
}

/// The number a run of decimal digits spells, most significant first.
pub open spec fn digits_value(s: Seq<char>) -> int
    decreases s.len(),
{
    if s.len() == 0 {
        0
    } else {
        digits_value(s.drop_last()) * 10 + digit_of(s.last())
    }
}

/// `10` raised to `n`.
pub open spec fn pow10(n: nat) -> int
    decreases n,
{
    if n == 0 {
        1
    } else {
        10 * pow10((n - 1) as nat)
    }
}

pub open spec fn digit_char_of(d: int) -> char {
    (d + 48) as char
}

/// The shortest decimal spelling of `n` (`"0"` for zero).
pub open spec fn decimal_text(n: nat) -> Seq<char>
    decreases n,
{
    if n < 10 {
        seq![digit_char_of(n as int)]
    } else {
        decimal_text(n / 10).push(digit_char_of((n % 10) as int))
    }
}

/// `count` copies of `'0'`.
pub open spec fn zeros(count: nat) -> Seq<char> {
    Seq::new(count, |i: int| '0')
}

pub proof fn lemma_pow10_positive(n: nat)
    ensures
        pow10(n) >= 1,
    decreases n,
{
    if n > 0 {
        lemma_pow10_positive((n - 1) as nat);
    }
}

pub proof fn lemma_pow10_monotone(a: nat, b: nat)
    requires
        a <= b,
    ensures
        pow10(a) <= pow10(b),
    decreases b,
{
    if a < b {
        lemma_pow10_monotone(a, (b - 1) as nat);
        lemma_pow10_positive((b - 1) as nat);
    }
}

pub proof fn lemma_pow10_add(a: nat, b: nat)
    ensures
        pow10(a + b) == pow10(a) * pow10(b),
    decreases b,
{
    if b > 0 {
        lemma_pow10_add(a, (b - 1) as nat);
        assert(pow10(a + b) == 10 * pow10((a + b - 1) as nat));
        assert(pow10(a) * pow10(b) == pow10(a) * (10 * pow10((b - 1) as nat)));
        assert(pow10(a) * (10 * pow10((b - 1) as nat)) == 10 * (pow10(a) * pow10(
            (b - 1) as nat,
        ))) by (nonlinear_arith);
    }
}

pub proof fn lemma_digits_value_nonneg(s: Seq<char>)
    requires
        all_digits(s),
    ensures
        digits_value(s) >= 0,
    decreases s.len(),
{
    if s.len() > 0 {
        assert(all_digits(s.drop_last()));
        assert(is_ascii_digit(s[s.len() - 1]));
        lemma_digits_value_nonneg(s.drop_last());
    }
}

/// Digits read as a number compose: the value of `a + b` is `a` shifted by `b`'s length plus `b`.
pub proof fn lemma_digits_value_concat(a: Seq<char>, b: Seq<char>)
    ensures
        digits_value(a + b) == digits_value(a) * pow10(b.len()) + digits_value(b),
    decreases b.len(),
{
    if b.len() == 0 {
        assert(a + b =~= a);
    } else {
        let c = a + b;
        assert(c.drop_last() =~= a + b.drop_last());
        assert(c.last() == b.last());
        lemma_digits_value_concat(a, b.drop_last());
        let p = pow10((b.len() - 1) as nat);
        assert(pow10(b.len()) == 10 * p);
        assert((digits_value(a) * p + digits_value(b.drop_last())) * 10 + digit_of(b.last())
            == digits_value(a) * (10 * p) + (digits_value(b.drop_last()) * 10 + digit_of(
            b.last(),
        ))) by (nonlinear_arith);
    }
}

/// Leading zeros do not change the value.
pub proof fn lemma_digits_value_leading_zeros(count: nat, s: Seq<char>)
    ensures
        digits_value(zeros(count) + s) == digits_value(s),
    decreases count,
{
    lemma_digits_value_concat(zeros(count), s);
    lemma_zeros_value(count);
}

pub proof fn lemma_zeros_value(count: nat)
    ensures
        digits_value(zeros(count)) == 0,
    decreases count,
{
    if count > 0 {
        assert(zeros(count).drop_last() =~= zeros((count - 1) as nat));
        lemma_zeros_value((count - 1) as nat);
    }
}

/// A decimal spelling reads back as the number it spells.
pub proof fn lemma_decimal_text(n: nat)
    ensures
        digits_value(decimal_text(n)) == n,
        all_digits(decimal_text(n)),
        decimal_text(n).len() >= 1,
    decreases n,
{
    if n < 10 {
        assert(decimal_text(n).drop_last() =~= Seq::<char>::empty());
        assert(digit_of(digit_char_of(n as int)) == n);
        assert(digits_value(Seq::<char>::empty()) == 0);
        assert(digits_value(decimal_text(n)) == digits_value(decimal_text(n).drop_last()) * 10
            + digit_of(decimal_text(n).last()));
    } else {
        lemma_decimal_text(n / 10);
        let t = decimal_text(n);
        assert(t.drop_last() =~= decimal_text(n / 10));
        assert(digit_of(digit_char_of((n % 10) as int)) == n % 10);
        assert(t.last() == digit_char_of((n % 10) as int));
        assert(digits_value(t) == digits_value(t.drop_last()) * 10 + digit_of(t.last()));
        assert forall|i: int| 0 <= i < t.len() implies #[trigger] is_ascii_digit(t[i]) by {
            if i < t.len() - 1 {
                assert(t[i] == decimal_text(n / 10)[i]);
            }
        }
    }
}

pub proof fn lemma_all_digits_concat(a: Seq<char>, b: Seq<char>)
    requires
        all_digits(a),
        all_digits(b),
    ensures
        all_digits(a + b),
{
    assert forall|i: int| 0 <= i < (a + b).len() implies #[trigger] is_ascii_digit((a + b)[i]) by {
        if i < a.len() {
            assert((a + b)[i] == a[i]);
        } else {
            assert((a + b)[i] == b[i - a.len()]);
        }
    }
}

pub proof fn lemma_zeros_all_digits(count: nat)
    ensures
        all_digits(zeros(count)),
{
}

pub fn char_is_white_space(c: char) -> (r: bool)
    ensures
        r == is_white_space(c),
{
    let v = c as u32;
    (0x09 <= v && v <= 0x0d) || v == 0x20 || v == 0x85 || v == 0xa0 || v == 0x1680 || (0x2000
        <= v && v <= 0x200a) || v == 0x2028 || v == 0x2029 || v == 0x202f || v == 0x205f || v
        == 0x3000
}

pub fn char_is_ascii_digit(c: char) -> (r: bool)
    ensures
        r == is_ascii_digit(c),
{
    '0' <= c && c <= '9'
}

/// The characters of `s`, in order.
pub fn chars_of(s: &str) -> (v: Vec<char>)
    ensures
        v@ == s@,
{
    let n = s.unicode_len();
    let mut v: Vec<char> = Vec::new();
    let mut i: usize = 0;
    while i < n
        invariant
            n == s@.len(),
            i <= n,
            v@ == s@.subrange(0, i as int),
        decreases n - i,
    {
        let c = s.get_char(i);
        v.push(c);
        i = i + 1;
        assert(v@ =~= s@.subrange(0, i as int));
    }
    assert(v@ =~= s@);
    v
}

proof fn lemma_trim_start_step(s: Seq<char>, i: int)
    requires
        0 <= i < s.len(),
        is_white_space(s[i]),
    ensures
        trim_start(s.subrange(i, s.len() as int)) == trim_start(s.subrange(i + 1, s.len() as int)),
{
    let t = s.subrange(i, s.len() as int);
    assert(t.drop_first() =~= s.subrange(i + 1, s.len() as int));
}

proof fn lemma_trim_end_step(s: Seq<char>, i: int, j: int)
    requires
        0 <= i < j <= s.len(),
        is_white_space(s[j - 1]),
    ensures
        trim_end(s.subrange(i, j)) == trim_end(s.subrange(i, j - 1)),
{
    let t = s.subrange(i, j);
    assert(t.drop_last() =~= s.subrange(i, j - 1));
}

/// The bounds of the trimmed text inside `s`: `trim(s) == s[start..end]`.
pub fn trim_bounds(s: &Vec<char>) -> (r: (usize, usize))
    ensures
        r.0 <= r.1 <= s@.len(),
        s@.subrange(r.0 as int, r.1 as int) == trim(s@),
{
    let n = s.len();
    let mut i: usize = 0;
    assert(s@.subrange(0, n as int) =~= s@);
    while i < n && char_is_white_space(s[i])
        invariant
            i <= n,
            n == s@.len(),
            trim_start(s@) == trim_start(s@.subrange(i as int, n as int)),
        decreases n - i,
    {
        proof {
            lemma_trim_start_step(s@, i as int);
        }
        i = i + 1;
    }
    let ghost rest = s@.subrange(i as int, n as int);
    assert(trim_start(rest) == rest);
    let mut j: usize = n;
    while j > i && char_is_white_space(s[j - 1])
        invariant
            i <= j <= n,
            n == s@.len(),
            rest == s@.subrange(i as int, n as int),
            trim_end(rest) == trim_end(s@.subrange(i as int, j as int)),
        decreases j,
    {
        proof {
            lemma_trim_end_step(s@, i as int, j as int);
        }
        j = j - 1;
    }
    assert(trim_end(s@.subrange(i as int, j as int)) == s@.subrange(i as int, j as int));
    (i, j)
}

/// The trimmed characters of `s`.
pub fn trimmed_chars(s: &str) -> (v: Vec<char>)
    ensures
        v@ == trim(s@),
{
    let all = chars_of(s);
    let (start, end) = trim_bounds(&all);
    slice_chars(&all, start, end)
}

/// `s[start..end]` as a new vector.
pub fn slice_chars(s: &Vec<char>, start: usize, end: usize) -> (v: Vec<char>)
    requires
        start <= end <= s@.len(),
    ensures
        v@ == s@.subrange(start as int, end as int),
{
    let mut v: Vec<char> = Vec::new();
    let mut i = start;
    while i < end
        invariant
            start <= i <= end,
            end <= s@.len(),
            v@ == s@.subrange(start as int, i as int),
        decreases end - i,
    {
        v.push(s[i]);
        i = i + 1;
        assert(v@ =~= s@.subrange(start as int, i as int));
    }
    v
}

/// Whether `s` is nothing but white space.
pub fn text_is_blank(s: &str) -> (r: bool)
    ensures
        r == is_blank(s@),
{
    let t = trimmed_chars(s);
    t.len() == 0
}

/// Appends one character to a `String`.
///
/// Trusted: calls `String::push`, whose documentation says it appends the given `char` to the end
/// of the string; the contract claims exactly that over the character view.
#[verifier::external_body]
pub(crate) fn push_char(s: &mut String, c: char)
    ensures
        final(s)@ == old(s)@.push(c),
{
    s.push(c);
}

/// A `String` holding exactly the given characters.
pub fn string_of(chars: &Vec<char>) -> (s: String)
    ensures
        s@ == chars@,
{
    let mut s = String::new();
    let mut i: usize = 0;
    while i < chars.len()
        invariant
            i <= chars@.len(),
            s@ == chars@.subrange(0, i as int),
        decreases chars@.len() - i,
    {
        push_char(&mut s, chars[i]);
        i = i + 1;
        assert(s@ =~= chars@.subrange(0, i as int));
    }
    assert(chars@.subrange(0, chars@.len() as int) =~= chars@);
    s
}

/// Whether two texts are the same characters.
pub fn text_eq(a: &str, b: &str) -> (r: bool)
    ensures
        r == (a@ == b@),
{
    let x = String::from_str(a);
    let y = String::from_str(b);
    x == y
}

/// Whether two character vectors hold the same characters.
pub fn chars_eq(a: &Vec<char>, b: &Vec<char>) -> (r: bool)
    ensures
        r == (a@ == b@),
{
    if a.len() != b.len() {
        return false;
    }
    let mut i: usize = 0;
    while i < a.len()
        invariant
            i <= a@.len(),
            a@.len() == b@.len(),
            forall|k: int| 0 <= k < i ==> a@[k] == b@[k],
        decreases a@.len() - i,
    {
        if a[i] != b[i] {
            return false;
        }
        i = i + 1;
    }
    assert(a@ =~= b@);
    true
}

/// The decimal spelling of `n`.
pub fn decimal_chars(n: u128) -> (v: Vec<char>)
    ensures
        v@ == decimal_text(n as nat),
    decreases n,
{
    if n < 10 {
        let mut v: Vec<char> = Vec::new();
        v.push(((n as u8) + 48u8) as char);
        assert(v@ =~= decimal_text(n as nat));
        v
    } else {
        let mut v = decimal_chars(n / 10);
        let d = (n % 10) as u8;
        v.push((d + 48u8) as char);
        v
    }
}

/// The decimal spelling of a signed integer: a `-` before the magnitude when negative.
pub open spec fn signed_decimal_text(n: int) -> Seq<char> {
    if n < 0 {
        seq!['-'] + decimal_text((-n) as nat)
    } else {
        decimal_text(n as nat)
    }
}

/// The decimal spelling of `n`, signed.
pub fn signed_decimal_string(n: i64) -> (s: String)
    ensures
        s@ == signed_decimal_text(n as int),
{
    if n < 0 {
        let magnitude: u128 = if n == i64::MIN {
            9223372036854775808u128
        } else {
            (-n) as u128
        };
        let mut v: Vec<char> = Vec::new();
        v.push('-');
        let mut digits = decimal_chars(magnitude);
        v.append(&mut digits);
        assert(v@ =~= seq!['-'] + decimal_text((-n) as nat));
        string_of(&v)
    } else {
        string_of(&decimal_chars(n as u128))
    }
}

/// Concatenation of texts, for building messages.
pub fn concat(parts: &Vec<&str>) -> (s: String)
    ensures
        s@ == concat_spec(parts@.map_values(|p: &str| p@)),
{
    let mut s = String::new();
    let mut i: usize = 0;
    let ghost views = parts@.map_values(|p: &str| p@);
    while i < parts.len()
        invariant
            i <= parts@.len(),
            views == parts@.map_values(|p: &str| p@),
            s@ == concat_spec(views.subrange(0, i as int)),
        decreases parts@.len() - i,
    {
        s.append(parts[i]);
        i = i + 1;
        assert(views.subrange(0, i as int).drop_last() =~= views.subrange(0, i - 1));
    }
    assert(views.subrange(0, i as int) =~= views);
    s
}

/// The concatenation of a sequence of texts.
pub open spec fn concat_spec(parts: Seq<Seq<char>>) -> Seq<char>
    decreases parts.len(),
{
    if parts.len() == 0 {
        Seq::empty()
    } else {
        concat_spec(parts.drop_last()) + parts.last()
    }
}

} // verus!
