//! Turning a SKU's submitted attribute values into its sales axes. Each rule is one the schema
//! cannot state: every submitted id names a live value, every value sits on a sales axis of the
//! product's category, and the submission covers those axes exactly.
use vstd::prelude::*;

use crate::contract::{ServiceError, ServiceErrorKind};
use crate::decimal::int64_value;
use crate::ports::SkuAxisRecord;
use crate::repository::{bad_id_message, fails_with, parse_id};
use crate::text::{decimal_chars, decimal_text, signed_decimal_string, signed_decimal_text, string_of};
use crate::variant::{
    axis_keys, keys_of, lemma_stable_order, is_stable_order, stable_axis_order, stable_key_order,
    stable_order, AxisKey,
};

verus! {

/// Whether `v` holds `x`.
pub fn contains_id(v: &Vec<i64>, x: i64) -> (r: bool)
    ensures
        r == v@.contains(x),
{
    let mut i: usize = 0;
    while i < v.len()
        invariant
            i <= v@.len(),
            forall|j: int| 0 <= j < i ==> v@[j] != x,
        decreases v@.len() - i,
    {
        if v[i] == x {
            assert(v@[i as int] == x);
            return true;
        }
        i = i + 1;
    }
    false
}

/// The ids of `ids` that `present` lacks, in their order in `ids`.
pub open spec fn missing_ids(ids: Seq<i64>, present: Seq<i64>) -> Seq<i64>
    decreases ids.len(),
{
    if ids.len() == 0 {
        Seq::empty()
    } else {
        missing_ids(ids.drop_last(), present) + (if present.contains(ids.last()) {
            Seq::empty()
        } else {
            seq![ids.last()]
        })
    }
}

/// Ids in decimal, separated by `, `.
pub open spec fn joined_ids(ids: Seq<i64>) -> Seq<char>
    decreases ids.len(),
{
    if ids.len() == 0 {
        Seq::empty()
    } else if ids.len() == 1 {
        signed_decimal_text(ids[0] as int)
    } else {
        joined_ids(ids.drop_last()) + ", "@ + signed_decimal_text(ids.last() as int)
    }
}

/// The ids of `ids` that `present` lacks.
pub fn missing_from(ids: &Vec<i64>, present: &Vec<i64>) -> (r: Vec<i64>)
    ensures
        r@ == missing_ids(ids@, present@),
{
    let mut r: Vec<i64> = Vec::new();
    let mut i: usize = 0;
    while i < ids.len()
        invariant
            i <= ids@.len(),
            r@ == missing_ids(ids@.subrange(0, i as int), present@),
        decreases ids@.len() - i,
    {
        let ghost before = ids@.subrange(0, i as int);
        assert(ids@.subrange(0, i + 1).drop_last() =~= before);
        if !contains_id(present, ids[i]) {
            r.push(ids[i]);
            assert(r@ =~= missing_ids(ids@.subrange(0, i + 1), present@));
        } else {
            assert(r@ =~= missing_ids(ids@.subrange(0, i + 1), present@));
        }
        i = i + 1;
    }
    assert(ids@.subrange(0, i as int) =~= ids@);
    r
}

/// Writes ids in decimal, separated by `, `.
pub fn join_ids(ids: &Vec<i64>) -> (s: String)
    ensures
        s@ == joined_ids(ids@),
{
    let mut s = String::new();
    let mut i: usize = 0;
    while i < ids.len()
        invariant
            i <= ids@.len(),
            s@ == joined_ids(ids@.subrange(0, i as int)),
        decreases ids@.len() - i,
    {
        let ghost next = ids@.subrange(0, i + 1);
        assert(next.drop_last() =~= ids@.subrange(0, i as int));
        if i > 0 {
            s.append(", ");
        }
        let digits = signed_decimal_string(ids[i]);
        s.append(digits.as_str());
        if i == 0 {
            assert(s@ =~= joined_ids(next));
        } else {
            assert(s@ =~= joined_ids(next));
        }
        i = i + 1;
    }
    assert(ids@.subrange(0, i as int) =~= ids@);
    s
}

/// The refusal of an empty submission when the category declares `count` sales axes.
pub open spec fn axes_required_message(count: nat) -> Seq<char> {
    "this product's category declares "@ + decimal_text(count)
        + " sales axis(es), so attributeValueIds must be submitted"@
}

/// Reads a SKU's submitted value ids. An empty submission means "no axes" and is legal only when
/// the category declares none (`Ok(None)`); otherwise each id must parse.
pub fn axis_submission(declared_count: usize, value_ids: &Vec<String>) -> (r: Result<
    Option<Vec<i64>>,
    ServiceError,
>)
    ensures
        value_ids@.len() == 0 && declared_count == 0 ==> r matches Ok(None),
        value_ids@.len() == 0 && declared_count > 0 ==> fails_with(
            r,
            ServiceErrorKind::Validation,
            axes_required_message(declared_count as nat),
        ),
        value_ids@.len() > 0 && (forall|i: int|
            0 <= i < value_ids@.len() ==> #[trigger] int64_value(value_ids@[i]@) is Some) ==> (r matches Ok(
            Some(ids),
        ) && ids@.len() == value_ids@.len() && forall|i: int|
            0 <= i < ids@.len() ==> int64_value(value_ids@[i]@) == Some(#[trigger] ids@[i])),
        forall|k: int|
            0 <= k < value_ids@.len() && int64_value(value_ids@[k]@) is None && (forall|j: int|
                0 <= j < k ==> #[trigger] int64_value(value_ids@[j]@) is Some) ==> #[trigger] fails_with(
                r,
                ServiceErrorKind::Validation,
                bad_id_message("attribute_value_ids"@, value_ids@[k]@),
            ),
{
    if value_ids.len() == 0 {
        if declared_count > 0 {
            let mut message = String::from_str("this product's category declares ");
            let digits = string_of(&decimal_chars(declared_count as u128));
            message.append(digits.as_str());
            message.append(" sales axis(es), so attributeValueIds must be submitted");
            return Err(ServiceError::validation(message));
        }
        return Ok(None);
    }
    let mut ids: Vec<i64> = Vec::new();
    let mut i: usize = 0;
    while i < value_ids.len()
        invariant
            i <= value_ids@.len(),
            ids@.len() == i,
            forall|j: int| 0 <= j < i ==> int64_value(value_ids@[j]@) == Some(#[trigger] ids@[j]),
        decreases value_ids@.len() - i,
    {
        match parse_id("attribute_value_ids", value_ids[i].as_str()) {
            Ok(id) => ids.push(id),
            Err(e) => {
                assert forall|j: int| 0 <= j < i implies #[trigger] int64_value(value_ids@[j]@) is Some by {
                    assert(int64_value(value_ids@[j]@) == Some(ids@[j]));
                }
                assert(int64_value(value_ids@[i as int]@) is None);
                assert forall|k: int|
                    0 <= k < value_ids@.len() && int64_value(value_ids@[k]@) is None && (forall|j: int|
                        0 <= j < k ==> #[trigger] int64_value(value_ids@[j]@) is Some) implies #[trigger] fails_with(
                        Err::<Option<Vec<i64>>, ServiceError>(e),
                        ServiceErrorKind::Validation,
                        bad_id_message("attribute_value_ids"@, value_ids@[k]@),
                    ) by {
                    if k < i {
                        assert(int64_value(value_ids@[k]@) == Some(ids@[k]));
                    } else if k > i {
                        assert(int64_value(value_ids@[i as int]@) is Some);
                    }
                }
                return Err(e);
            },
        }
        i = i + 1;
    }
    assert forall|k: int| 0 <= k < value_ids@.len() implies int64_value(value_ids@[k]@) is Some by {
        assert(int64_value(value_ids@[k]@) == Some(ids@[k]));
    }
    Ok(Some(ids))
}

/// The value ids of resolved rows.
pub open spec fn value_ids_of(rows: Seq<SkuAxisRecord>) -> Seq<i64> {
    rows.map_values(|a: SkuAxisRecord| a.attribute_value_id)
}

/// The attribute ids of resolved rows.
pub open spec fn attribute_ids_of(rows: Seq<SkuAxisRecord>) -> Seq<i64> {
    rows.map_values(|a: SkuAxisRecord| a.attribute_id)
}

/// Ids as ordering keys with an empty name, so that they order by value alone.
pub open spec fn id_keys(ids: Seq<i64>) -> Seq<AxisKey> {
    ids.map_values(|d: i64| (Seq::<char>::empty(), d))
}

/// The ids in ascending order.
pub open spec fn ascending(ids: Seq<i64>) -> Seq<i64> {
    stable_order(id_keys(ids)).map_values(|i: usize| ids[i as int])
}

/// The rows in their stable order by attribute business key, then attribute id.
pub open spec fn sorted_axes(rows: Seq<SkuAxisRecord>) -> Seq<SkuAxisRecord> {
    stable_order(axis_keys(rows)).map_values(|i: usize| rows[i as int])
}

/// No id occurs twice.
pub open spec fn no_duplicate_ids(ids: Seq<i64>) -> bool {
    forall|i: int, j: int| 0 <= i < j < ids.len() ==> #[trigger] ids[i] != #[trigger] ids[j]
}

/// Every row's attribute is declared.
pub open spec fn all_declared(rows: Seq<SkuAxisRecord>, declared: Seq<i64>) -> bool {
    forall|i: int| 0 <= i < rows.len() ==> declared.contains(#[trigger] rows[i].attribute_id)
}

/// The submission covers the declared axes exactly: no declared axis is listed twice, each
/// receives a value, and none receives two. (Given that every submitted attribute is declared,
/// this is equality of the ascending declared ids with the ascending submitted ones.)
pub open spec fn covers_exactly(rows: Seq<SkuAxisRecord>, declared: Seq<i64>) -> bool {
    &&& no_duplicate_ids(declared)
    &&& no_duplicate_ids(attribute_ids_of(rows))
    &&& forall|i: int| 0 <= i < declared.len() ==> attribute_ids_of(rows).contains(#[trigger] declared[i])
}

/// The refusal of submitted ids that resolved to no live value.
pub open spec fn unresolved_message(requested: Seq<i64>, rows: Seq<SkuAxisRecord>) -> Seq<char> {
    "attributeValueIds names value(s) that are not live dictionary values of this tenant or whose attribute is inactive: "@
        + joined_ids(missing_ids(requested, value_ids_of(rows)))
}

/// The refusal of a value whose attribute is not a sales axis of the category.
pub open spec fn undeclared_message(attribute_no: Seq<char>) -> Seq<char> {
    "attribute `"@ + attribute_no + "` is not an active sales axis of this product's category"@
}

/// The refusal of a submission that does not cover the declared axes exactly.
pub open spec fn uncovered_message(rows: Seq<SkuAxisRecord>, declared: Seq<i64>) -> Seq<char> {
    "attributeValueIds must name exactly one value per sales axis of the product's category; no value was submitted for attribute id(s) "@
        + joined_ids(missing_ids(ascending(declared), attribute_ids_of(rows)))
}

/// The declared ids in ascending order.
fn ascending_ids(ids: &Vec<i64>) -> (r: Vec<i64>)
    ensures
        r@ == ascending(ids@),
{
    let mut names: Vec<Vec<char>> = Vec::new();
    let mut i: usize = 0;
    while i < ids.len()
        invariant
            i <= ids@.len(),
            names@.len() == i,
            forall|j: int| 0 <= j < i ==> (#[trigger] names@[j])@ == Seq::<char>::empty(),
        decreases ids@.len() - i,
    {
        names.push(Vec::new());
        i = i + 1;
    }
    assert(keys_of(names@, ids@) =~= id_keys(ids@));
    let order = stable_key_order(&names, ids);
    proof {
        lemma_stable_order(id_keys(ids@));
    }
    let mut r: Vec<i64> = Vec::new();
    let mut k: usize = 0;
    while k < order.len()
        invariant
            order@ == stable_order(id_keys(ids@)),
            is_stable_order(order@, id_keys(ids@)),
            k <= order@.len(),
            r@ == order@.subrange(0, k as int).map_values(|i: usize| ids@[i as int]),
        decreases order@.len() - k,
    {
        let index = order[k];
        assert(index < ids@.len());
        r.push(ids[index]);
        assert(r@ =~= order@.subrange(0, k + 1).map_values(|i: usize| ids@[i as int]));
        k = k + 1;
    }
    assert(order@.subrange(0, k as int) =~= order@);
    r
}

/// Whether some id occurs twice in `v`.
fn has_duplicate(v: &Vec<i64>) -> (r: bool)
    ensures
        r == !no_duplicate_ids(v@),
{
    let mut j: usize = 0;
    while j < v.len()
        invariant
            j <= v@.len(),
            forall|a: int, b: int| 0 <= a < b < j ==> #[trigger] v@[a] != #[trigger] v@[b],
        decreases v@.len() - j,
    {
        let mut e: usize = 0;
        while e < j
            invariant
                e <= j < v@.len(),
                forall|a: int, b: int| 0 <= a < b < j ==> #[trigger] v@[a] != #[trigger] v@[b],
                forall|a: int| 0 <= a < e ==> #[trigger] v@[a] != v@[j as int],
            decreases j - e,
        {
            if v[e] == v[j] {
                assert(v@[e as int] == v@[j as int]);
                return true;
            }
            e = e + 1;
        }
        j = j + 1;
    }
    false
}

/// Builds a SKU's axes from the rows its submitted value ids resolved to, in the stable order the
/// signature is written in. Refuses, in this order: ids that resolved to no live value, a value
/// whose attribute is not a declared sales axis, and a submission that does not cover the declared
/// axes exactly.
pub fn assemble_sku_axes(declared: &Vec<i64>, requested: &Vec<i64>, rows: Vec<SkuAxisRecord>) -> (r:
    Result<Vec<SkuAxisRecord>, ServiceError>)
    ensures
        rows@.len() != requested@.len() ==> fails_with(
            r,
            ServiceErrorKind::Validation,
            unresolved_message(requested@, rows@),
        ),
        forall|k: int|
            rows@.len() == requested@.len() && 0 <= k < rows@.len() && !declared@.contains(
                rows@[k].attribute_id,
            ) && (forall|j: int| 0 <= j < k ==> declared@.contains(#[trigger] rows@[j].attribute_id))
                ==> #[trigger] fails_with(
                r,
                ServiceErrorKind::Validation,
                undeclared_message(rows@[k].attribute_no@),
            ),
        rows@.len() == requested@.len() && all_declared(rows@, declared@) && !covers_exactly(
            rows@,
            declared@,
        ) ==> fails_with(r, ServiceErrorKind::Validation, uncovered_message(rows@, declared@)),
        rows@.len() == requested@.len() && all_declared(rows@, declared@) && covers_exactly(
            rows@,
            declared@,
        ) ==> (r matches Ok(axes) && axes@ == sorted_axes(rows@)),
{
    let n = rows.len();
    let mut resolved: Vec<i64> = Vec::new();
    let mut attributes: Vec<i64> = Vec::new();
    let mut i: usize = 0;
    while i < n
        invariant
            n == rows@.len(),
            i <= n,
            resolved@ == value_ids_of(rows@).subrange(0, i as int),
            attributes@ == attribute_ids_of(rows@).subrange(0, i as int),
        decreases n - i,
    {
        resolved.push(rows[i].attribute_value_id);
        attributes.push(rows[i].attribute_id);
        assert(resolved@ =~= value_ids_of(rows@).subrange(0, i + 1));
        assert(attributes@ =~= attribute_ids_of(rows@).subrange(0, i + 1));
        i = i + 1;
    }
    assert(resolved@ =~= value_ids_of(rows@));
    assert(attributes@ =~= attribute_ids_of(rows@));
    if n != requested.len() {
        let missing = missing_from(requested, &resolved);
        let mut message = String::from_str(
            "attributeValueIds names value(s) that are not live dictionary values of this tenant or whose attribute is inactive: ",
        );
        let listed = join_ids(&missing);
        message.append(listed.as_str());
        assert(listed@ == joined_ids(missing_ids(requested@, value_ids_of(rows@))));
        assert(message@ == unresolved_message(requested@, rows@));
        return Err(ServiceError::validation(message));
    }
    i = 0;
    while i < n
        invariant
            n == rows@.len(),
            i <= n,
            n == requested@.len(),
            attributes@ == attribute_ids_of(rows@),
            forall|j: int| 0 <= j < i ==> declared@.contains(#[trigger] rows@[j].attribute_id),
        decreases n - i,
    {
        assert(attributes@[i as int] == rows@[i as int].attribute_id);
        if !contains_id(declared, attributes[i]) {
            let mut message = String::from_str("attribute `");
            message.append(rows[i].attribute_no.as_str());
            message.append("` is not an active sales axis of this product's category");
            return Err(ServiceError::validation(message));
        }
        i = i + 1;
    }
    let repeated_axis = has_duplicate(&attributes);
    let repeated_declared = has_duplicate(declared);
    let mut covered = !repeated_axis && !repeated_declared;
    let mut d: usize = 0;
    while d < declared.len() && covered
        invariant
            d <= declared@.len(),
            n == requested@.len(),
            n == rows@.len(),
            attributes@ == attribute_ids_of(rows@),
            forall|j: int| 0 <= j < n ==> declared@.contains(#[trigger] rows@[j].attribute_id),
            covered ==> no_duplicate_ids(declared@) && no_duplicate_ids(attributes@),
            covered ==> (forall|a: int| 0 <= a < d ==> attributes@.contains(#[trigger] declared@[a])),
            !covered ==> !covers_exactly(rows@, declared@),
        decreases declared@.len() - d + (if covered {
            1int
        } else {
            0int
        }),
    {
        if !contains_id(&attributes, declared[d]) {
            covered = false;
        } else {
            d = d + 1;
        }
    }
    if !covered {
        let expected = ascending_ids(declared);
        let missing = missing_from(&expected, &attributes);
        let mut message = String::from_str(
            "attributeValueIds must name exactly one value per sales axis of the product's category; no value was submitted for attribute id(s) ",
        );
        let listed = join_ids(&missing);
        message.append(listed.as_str());
        return Err(ServiceError::validation(message));
    }
    let order = stable_axis_order(rows.as_slice());
    proof {
        lemma_stable_order(axis_keys(rows@));
    }
    let ghost resolved_rows = rows@;
    let mut rest = rows;
    let mut slots: Vec<Option<SkuAxisRecord>> = Vec::new();
    while rest.len() > 0
        invariant
            resolved_rows.len() == n,
            slots@.len() + rest@.len() == n,
            rest@ == resolved_rows.subrange(slots@.len() as int, n as int),
            forall|j: int| 0 <= j < slots@.len() ==> #[trigger] slots@[j] == Some(resolved_rows[j]),
        decreases rest@.len(),
    {
        let first = rest.remove(0);
        slots.push(Some(first));
        assert(rest@ =~= resolved_rows.subrange(slots@.len() as int, n as int));
    }
    let mut axes: Vec<SkuAxisRecord> = Vec::new();
    let mut k: usize = 0;
    while k < order.len()
        invariant
            resolved_rows.len() == n,
            order@ == stable_order(axis_keys(resolved_rows)),
            is_stable_order(order@, axis_keys(resolved_rows)),
            slots@.len() == n,
            k <= order@.len(),
            forall|m: int| k <= m < order@.len() ==> slots@[#[trigger] order@[m] as int] == Some(
                resolved_rows[order@[m] as int],
            ),
            axes@ == order@.subrange(0, k as int).map_values(|i: usize| resolved_rows[i as int]),
        decreases order@.len() - k,
    {
        let index = order[k];
        assert(index < n);
        let taken = slots[index].take();
        proof {
            assert forall|m: int| k + 1 <= m < order@.len() implies slots@[#[trigger] order@[m] as int]
                == Some(resolved_rows[order@[m] as int]) by {
                assert(order@[m] != order@[k as int]);
            }
        }
        axes.push(taken.unwrap());
        assert(axes@ =~= order@.subrange(0, k + 1).map_values(|i: usize| resolved_rows[i as int]));
        k = k + 1;
    }
    assert(order@.subrange(0, k as int) =~= order@);
    Ok(axes)
}

} // verus!
