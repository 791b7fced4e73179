//! Boundary checks every catalog write passes before it reaches storage. Each bound mirrors a
//! baseline CHECK constraint, so a violation is a named validation failure instead of a database
//! error raised mid-transaction.
use vstd::prelude::*;

use crate::contract::{ServiceError, ServiceErrorKind};
use crate::text::{
    chars_eq, decimal_chars, decimal_text, is_blank, string_of, text_is_blank, trim, trimmed_chars,
};

verus! {

/// `char_length(display_value) BETWEEN 1 AND 200` on attribute values.
pub const ATTRIBUTE_VALUE_MAX_CHARS: usize = 200;

/// `ck_commerce_product_category_name_length`.
pub const CATEGORY_NAME_MAX_CHARS: usize = 200;

/// `ck_commerce_product_attribute_name_length`.
pub const ATTRIBUTE_NAME_MAX_CHARS: usize = 100;

/// `ck_commerce_product_spu_name_length`; the SPU name is derived from its title.
pub const SPU_TITLE_MAX_CHARS: usize = 300;

/// `ck_commerce_price_list_name_length`; the price-list name is derived from its number.
pub const PRICE_LIST_NO_MAX_CHARS: usize = 200;

/// `ck_commerce_product_sku_variant_signature`.
pub const SKU_VARIANT_SIGNATURE_MAX_CHARS: usize = 500;

/// The message for a missing required text field.
pub open spec fn required_message(field: Seq<char>) -> Seq<char> {
    field + " is required"@
}

/// A validation failure carrying exactly `message`.
pub open spec fn is_validation(r: Result<(), ServiceError>, message: Seq<char>) -> bool {
    r matches Err(e) && e.kind == ServiceErrorKind::Validation && e.message@ == message
}

/// Rejects a value that is empty once surrounding white space is removed.
pub fn require_non_empty(field: &str, value: &str) -> (r: Result<(), ServiceError>)
    ensures
        is_blank(value@) ==> is_validation(r, required_message(field@)),
        !is_blank(value@) ==> r is Ok,
{
    if text_is_blank(value) {
        let mut message = String::from_str(field);
        message.append(" is required");
        return Err(ServiceError::validation(message));
    }
    Ok(())
}

/// Rejects a negative minor-unit amount: the wire pattern admits no minus sign.
pub fn require_non_negative_minor(field: &str, value: i64) -> (r: Result<(), ServiceError>)
    ensures
        value < 0 ==> is_validation(
            r,
            field@
                + " must not be negative: the wire carries an amount in the currency's minor unit"@,
        ),
        value >= 0 ==> r is Ok,
{
    if value < 0 {
        let mut message = String::from_str(field);
        message.append(
            " must not be negative: the wire carries an amount in the currency's minor unit",
        );
        return Err(ServiceError::validation(message));
    }
    Ok(())
}

/// Rejects a text longer than `max` characters (characters, not bytes, as `char_length` counts).
pub fn require_within_chars(field: &str, value: &str, max: usize) -> (r: Result<(), ServiceError>)
    ensures
        value@.len() > max ==> is_validation(
            r,
            field@ + " must be at most "@ + decimal_text(max as nat) + " characters"@,
        ),
        value@.len() <= max ==> r is Ok,
{
    if value.unicode_len() > max {
        let mut message = String::from_str(field);
        message.append(" must be at most ");
        let digits = string_of(&decimal_chars(max as u128));
        message.append(digits.as_str());
        message.append(" characters");
        return Err(ServiceError::validation(message));
    }
    Ok(())
}

/// Rejects a negative value for a column the baseline pins with `>= 0`.
pub fn require_non_negative(field: &str, value: i64) -> (r: Result<(), ServiceError>)
    ensures
        value < 0 ==> is_validation(r, field@ + " must not be negative"@),
        value >= 0 ==> r is Ok,
{
    if value < 0 {
        let mut message = String::from_str(field);
        message.append(" must not be negative");
        return Err(ServiceError::validation(message));
    }
    Ok(())
}

/// The texts of a list of strings.
pub open spec fn texts(values: Seq<String>) -> Seq<Seq<char>> {
    values.map_values(|v: String| v@)
}

/// Entry `i` is non-blank and its trimmed form differs from every earlier trimmed entry.
pub open spec fn entry_is_fresh(values: Seq<Seq<char>>, i: int) -> bool {
    &&& !is_blank(values[i])
    &&& forall|j: int| 0 <= j < i ==> trim(#[trigger] values[j]) != trim(values[i])
}

/// The message for the first offending entry `i`.
pub open spec fn distinct_message(field: Seq<char>, values: Seq<Seq<char>>, i: int) -> Seq<char> {
    if is_blank(values[i]) {
        field + " must not contain an empty entry"@
    } else {
        field + " contains `"@ + trim(values[i]) + "` more than once: one value per sales axis"@
    }
}

/// Rejects a collection with a blank entry or with the same (trimmed) entry twice, naming the
/// first offending entry.
pub fn require_distinct(field: &str, values: &[String]) -> (r: Result<(), ServiceError>)
    ensures
        r is Ok <==> forall|i: int| 0 <= i < values@.len() ==> entry_is_fresh(texts(values@), i),
        r is Err ==> exists|i: int|
            0 <= i < values@.len() && (forall|k: int| 0 <= k < i ==> entry_is_fresh(
                texts(values@),
                k,
            )) && !entry_is_fresh(texts(values@), i) && is_validation(
                r,
                distinct_message(field@, texts(values@), i),
            ),
{
    let ghost vs = texts(values@);
    let mut seen: Vec<Vec<char>> = Vec::new();
    let mut i: usize = 0;
    while i < values.len()
        invariant
            i <= values@.len(),
            vs == texts(values@),
            seen@.len() == i,
            forall|k: int| 0 <= k < i ==> (#[trigger] seen@[k])@ == trim(vs[k]),
            forall|k: int| 0 <= k < i ==> entry_is_fresh(vs, k),
        decreases values@.len() - i,
    {
        let trimmed = trimmed_chars(values[i].as_str());
        assert(vs[i as int] == values@[i as int]@);
        if trimmed.len() == 0 {
            let mut message = String::from_str(field);
            message.append(" must not contain an empty entry");
            assert(!entry_is_fresh(vs, i as int));
            return Err(ServiceError::validation(message));
        }
        let mut j: usize = 0;
        while j < i
            invariant
                j <= i < values@.len(),
                vs == texts(values@),
                seen@.len() == i,
                forall|k: int| 0 <= k < i ==> (#[trigger] seen@[k])@ == trim(vs[k]),
                trimmed@ == trim(vs[i as int]),
                trimmed@.len() > 0,
                forall|k: int| 0 <= k < i ==> entry_is_fresh(vs, k),
                forall|k: int| 0 <= k < j ==> trim(#[trigger] vs[k]) != trim(vs[i as int]),
            decreases i - j,
        {
            if chars_eq(&seen[j], &trimmed) {
                let mut message = String::from_str(field);
                message.append(" contains `");
                let shown = string_of(&trimmed);
                message.append(shown.as_str());
                message.append("` more than once: one value per sales axis");
                assert(trim(vs[j as int]) == trim(vs[i as int]));
                assert(!entry_is_fresh(vs, i as int));
                assert(!is_blank(vs[i as int]));
                assert(message@ =~= distinct_message(field@, vs, i as int));
                let e = ServiceError::validation(message);
                assert(is_validation(Err(e), distinct_message(field@, vs, i as int)));
                return Err(e);
            }
            j = j + 1;
        }
        assert(entry_is_fresh(vs, i as int));
        seen.push(trimmed);
        i = i + 1;
    }
    Ok(())
}

} // verus!
