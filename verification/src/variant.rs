//! The variant signature of a SKU: its sales axes written as `attribute_no=value_code` terms,
//! ordered by attribute, joined with `;`. The unique index compares this text, so it has to be a
//! function of the axis set and not of the order the axes were resolved in.
use vstd::prelude::*;

use crate::ports::SkuAxisRecord;
use crate::text::{chars_of, decimal_chars, decimal_text, string_of};
use crate::validation::SKU_VARIANT_SIGNATURE_MAX_CHARS;

verus! {

/// `a` sorts strictly before `b`, comparing character by character by code point (the order in
/// which `str` values compare), a proper prefix first.
pub open spec fn text_less(a: Seq<char>, b: Seq<char>) -> bool
    decreases a.len(),
{
    if a.len() == 0 {
        b.len() > 0
    } else if b.len() == 0 {
        false
    } else if a[0] != b[0] {
        a[0] < b[0]
    } else {
        text_less(a.drop_first(), b.drop_first())
    }
}

pub proof fn lemma_text_less_irreflexive(a: Seq<char>)
    ensures
        !text_less(a, a),
    decreases a.len(),
{
    if a.len() > 0 {
        lemma_text_less_irreflexive(a.drop_first());
    }
}

pub proof fn lemma_text_less_asymmetric(a: Seq<char>, b: Seq<char>)
    ensures
        text_less(a, b) ==> !text_less(b, a),
    decreases a.len(),
{
    if a.len() > 0 && b.len() > 0 && a[0] == b[0] {
        lemma_text_less_asymmetric(a.drop_first(), b.drop_first());
    }
}

pub proof fn lemma_text_less_transitive(a: Seq<char>, b: Seq<char>, c: Seq<char>)
    ensures
        text_less(a, b) && text_less(b, c) ==> text_less(a, c),
    decreases a.len(),
{
    if a.len() > 0 && b.len() > 0 && c.len() > 0 {
        lemma_text_less_transitive(a.drop_first(), b.drop_first(), c.drop_first());
    }
}

pub proof fn lemma_text_less_total(a: Seq<char>, b: Seq<char>)
    ensures
        a != b ==> text_less(a, b) || text_less(b, a),
    decreases a.len(),
{
    if a.len() > 0 && b.len() > 0 && a[0] == b[0] {
        lemma_text_less_total(a.drop_first(), b.drop_first());
        if a.drop_first() == b.drop_first() {
            assert(a =~= seq![a[0]] + a.drop_first());
            assert(b =~= seq![b[0]] + b.drop_first());
        }
    } else if a.len() == 0 && b.len() == 0 {
        assert(a =~= b);
    }
}

/// Whether `a` sorts strictly before `b`.
pub fn text_less_chars(a: &Vec<char>, b: &Vec<char>) -> (r: bool)
    ensures
        r == text_less(a@, b@),
{
    let mut i: usize = 0;
    assert(a@.skip(0) =~= a@);
    assert(b@.skip(0) =~= b@);
    while i < a.len() && i < b.len()
        invariant
            i <= a@.len(),
            i <= b@.len(),
            text_less(a@, b@) == text_less(a@.skip(i as int), b@.skip(i as int)),
        decreases a@.len() - i,
    {
        assert(a@.skip(i as int)[0] == a@[i as int]);
        assert(b@.skip(i as int)[0] == b@[i as int]);
        if a[i] != b[i] {
            return a[i] < b[i];
        }
        assert(a@.skip(i as int).drop_first() =~= a@.skip(i + 1));
        assert(b@.skip(i as int).drop_first() =~= b@.skip(i + 1));
        i = i + 1;
    }
    assert(a@.skip(i as int).len() == a@.len() - i);
    assert(b@.skip(i as int).len() == b@.len() - i);
    i == a.len() && i < b.len()
}

/// The key an axis is ordered by: its attribute's business key, then the attribute id.
pub type AxisKey = (Seq<char>, i64);

/// `a` sorts strictly before `b`.
pub open spec fn key_less(a: AxisKey, b: AxisKey) -> bool {
    text_less(a.0, b.0) || (a.0 == b.0 && a.1 < b.1)
}

pub proof fn lemma_key_order(a: AxisKey, b: AxisKey, c: AxisKey)
    ensures
        !key_less(a, a),
        key_less(a, b) ==> !key_less(b, a),
        key_less(a, b) && key_less(b, c) ==> key_less(a, c),
        a != b ==> key_less(a, b) || key_less(b, a),
        !key_less(b, a) && !key_less(c, b) ==> !key_less(c, a),
{
    lemma_text_less_irreflexive(a.0);
    lemma_text_less_asymmetric(a.0, b.0);
    lemma_text_less_asymmetric(b.0, c.0);
    lemma_text_less_asymmetric(a.0, c.0);
    lemma_text_less_transitive(a.0, b.0, c.0);
    lemma_text_less_transitive(c.0, a.0, b.0);
    lemma_text_less_transitive(b.0, c.0, a.0);
    lemma_text_less_total(a.0, b.0);
    lemma_text_less_total(b.0, c.0);
    lemma_text_less_total(a.0, c.0);
}

/// The ordering keys of a list of axes.
pub open spec fn axis_keys(axes: Seq<SkuAxisRecord>) -> Seq<AxisKey> {
    axes.map_values(|a: SkuAxisRecord| (a.attribute_no@, a.attribute_id))
}

/// `j` appears in `order`.
pub open spec fn lists(order: Seq<usize>, j: int) -> bool {
    exists|k: int| 0 <= k < order.len() && order[k] == j
}

/// `order` lists each index below `n` exactly once, by ascending key, and indices with equal keys
/// keep their original relative order.
pub open spec fn stable_prefix_order(order: Seq<usize>, keys: Seq<AxisKey>, n: int) -> bool {
    &&& order.len() == n
    &&& n <= keys.len()
    &&& forall|k: int| 0 <= k < n ==> #[trigger] order[k] < n
    &&& forall|k1: int, k2: int| 0 <= k1 < k2 < n ==> #[trigger] order[k1] != #[trigger] order[k2]
    &&& forall|j: int| 0 <= j < n ==> #[trigger] lists(order, j)
    &&& forall|k1: int, k2: int|
        0 <= k1 < k2 < n ==> !key_less(
            keys[#[trigger] order[k2] as int],
            keys[#[trigger] order[k1] as int],
        )
    &&& forall|k1: int, k2: int|
        0 <= k1 < k2 < n && keys[#[trigger] order[k1] as int] == keys[#[trigger] order[k2] as int]
            ==> order[k1] < order[k2]
}

/// A stable ascending order of all the keys.
pub open spec fn is_stable_order(order: Seq<usize>, keys: Seq<AxisKey>) -> bool {
    stable_prefix_order(order, keys, keys.len() as int)
}

/// Inserting index `i` at `pos` keeps a stable order of the first `i` indices stable, when every
/// element before `pos` sorts no later than key `i` and every element from `pos` on strictly after.
pub proof fn lemma_insert_keeps_stable(order: Seq<usize>, keys: Seq<AxisKey>, i: int, pos: int)
    requires
        stable_prefix_order(order, keys, i),
        i < keys.len(),
        i <= usize::MAX,
        0 <= pos <= i,
        pos > 0 ==> !key_less(keys[i], keys[order[pos - 1] as int]),
        forall|j: int| pos <= j < i ==> key_less(keys[i], keys[#[trigger] order[j] as int]),
    ensures
        stable_prefix_order(order.insert(pos, i as usize), keys, i + 1),
{
    let new = order.insert(pos, i as usize);
    assert forall|k: int| 0 <= k < i + 1 implies #[trigger] new[k] < i + 1 by {
        if k > pos {
            assert(new[k] == order[k - 1]);
        }
    }
    assert forall|k1: int, k2: int| 0 <= k1 < k2 < i + 1 implies #[trigger] new[k1]
        != #[trigger] new[k2] by {
        if k1 < pos && k2 > pos {
            assert(new[k2] == order[k2 - 1]);
        } else if k1 > pos {
            assert(new[k1] == order[k1 - 1]);
            assert(new[k2] == order[k2 - 1]);
        } else if k1 == pos {
            assert(new[k2] == order[k2 - 1]);
        }
    }
    assert forall|j: int| 0 <= j < i + 1 implies #[trigger] lists(new, j) by {
        if j == i {
            assert(new[pos] == j);
        } else {
            assert(lists(order, j));
            let k = choose|k: int| 0 <= k < order.len() && order[k] == j;
            if k < pos {
                assert(new[k] == j);
            } else {
                assert(new[k + 1] == j);
            }
        }
    }
    assert forall|k1: int, k2: int| 0 <= k1 < k2 < i + 1 implies !key_less(
        keys[#[trigger] new[k2] as int],
        keys[#[trigger] new[k1] as int],
    ) by {
        if k2 < pos {
        } else if k2 == pos {
            lemma_key_order(
                keys[order[k1] as int],
                keys[order[pos - 1] as int],
                keys[i],
            );
            if k1 < pos - 1 {
                assert(!key_less(keys[order[pos - 1] as int], keys[order[k1] as int]));
            }
        } else if k1 < pos {
            assert(new[k2] == order[k2 - 1]);
        } else if k1 == pos {
            assert(new[k2] == order[k2 - 1]);
            lemma_key_order(keys[i], keys[order[k2 - 1] as int], keys[i]);
        } else {
            assert(new[k1] == order[k1 - 1]);
            assert(new[k2] == order[k2 - 1]);
        }
    }
    assert forall|k1: int, k2: int|
        0 <= k1 < k2 < i + 1 && keys[#[trigger] new[k1] as int] == keys[#[trigger] new[k2] as int]
            implies new[k1] < new[k2] by {
        if k2 < pos {
        } else if k2 == pos {
        } else if k1 < pos {
            assert(new[k2] == order[k2 - 1]);
        } else if k1 == pos {
            assert(new[k2] == order[k2 - 1]);
            lemma_key_order(keys[i], keys[i], keys[i]);
        } else {
            assert(new[k1] == order[k1 - 1]);
            assert(new[k2] == order[k2 - 1]);
        }
    }
}


/// Two stable orders of the same keys agree on their first `k` positions.
proof fn lemma_stable_orders_agree(o1: Seq<usize>, o2: Seq<usize>, keys: Seq<AxisKey>, k: int)
    requires
        is_stable_order(o1, keys),
        is_stable_order(o2, keys),
        0 <= k <= keys.len(),
    ensures
        forall|i: int| 0 <= i < k ==> o1[i] == o2[i],
    decreases k,
{
    if k > 0 {
        lemma_stable_orders_agree(o1, o2, keys, k - 1);
        let c = k - 1;
        if o1[c] != o2[c] {
            let x = o1[c];
            let y = o2[c];
            assert(o1[c] < keys.len());
            assert(o2[c] < keys.len());
            assert(lists(o1, y as int));
            let m = choose|m: int| 0 <= m < o1.len() && o1[m] == y;
            assert(lists(o2, x as int));
            let m2 = choose|m: int| 0 <= m < o2.len() && o2[m] == x;
            if m < c {
                assert(o2[m] == o1[m]);
                assert(o2[m] != o2[c]);
            }
            if m2 < c {
                assert(o1[m2] == o2[m2]);
                assert(o1[m2] != o1[c]);
            }
            assert(c < m && c < m2);
            assert(!key_less(keys[o1[m] as int], keys[o1[c] as int]));
            assert(!key_less(keys[o2[m2] as int], keys[o2[c] as int]));
            lemma_key_order(keys[x as int], keys[y as int], keys[x as int]);
            assert(keys[o1[c] as int] == keys[o1[m] as int]);
            assert(o1[c] < o1[m]);
            assert(keys[o2[c] as int] == keys[o2[m2] as int]);
            assert(o2[c] < o2[m2]);
        }
    }
}

/// The position at which key `i` enters `order` after scanning back from `p`: just after the last
/// element that does not sort strictly after it.
pub open spec fn insertion_point(order: Seq<usize>, keys: Seq<AxisKey>, i: int, p: int) -> int
    decreases p,
{
    if p <= 0 {
        0
    } else if key_less(keys[i], keys[order[p - 1] as int]) {
        insertion_point(order, keys, i, p - 1)
    } else {
        p
    }
}

proof fn lemma_insertion_point(order: Seq<usize>, keys: Seq<AxisKey>, i: int, p: int)
    requires
        0 <= p <= order.len(),
    ensures
        0 <= insertion_point(order, keys, i, p) <= p,
        insertion_point(order, keys, i, p) > 0 ==> !key_less(
            keys[i],
            keys[order[insertion_point(order, keys, i, p) - 1] as int],
        ),
        forall|j: int|
            insertion_point(order, keys, i, p) <= j < p ==> key_less(
                keys[i],
                keys[#[trigger] order[j] as int],
            ),
    decreases p,
{
    if p > 0 && key_less(keys[i], keys[order[p - 1] as int]) {
        lemma_insertion_point(order, keys, i, p - 1);
    }
}

/// Every key sequence short enough to index has a stable order of its first `n` positions.
proof fn lemma_stable_prefix_exists(keys: Seq<AxisKey>, n: int) -> (o: Seq<usize>)
    requires
        0 <= n <= keys.len(),
        keys.len() <= usize::MAX,
    ensures
        stable_prefix_order(o, keys, n),
    decreases n,
{
    if n == 0 {
        Seq::empty()
    } else {
        let o = lemma_stable_prefix_exists(keys, n - 1);
        let q = insertion_point(o, keys, n - 1, n - 1);
        lemma_insertion_point(o, keys, n - 1, n - 1);
        lemma_insert_keeps_stable(o, keys, n - 1, q);
        o.insert(q, (n - 1) as usize)
    }
}

/// The stable ascending order of the keys.
pub open spec fn stable_order(keys: Seq<AxisKey>) -> Seq<usize> {
    choose|o: Seq<usize>| is_stable_order(o, keys)
}

/// The stable order exists, and it is the only stable order of its keys.
pub proof fn lemma_stable_order(keys: Seq<AxisKey>)
    requires
        keys.len() <= usize::MAX,
    ensures
        is_stable_order(stable_order(keys), keys),
        forall|o: Seq<usize>| is_stable_order(o, keys) ==> o == stable_order(keys),
{
    let w = lemma_stable_prefix_exists(keys, keys.len() as int);
    assert(is_stable_order(w, keys));
    let s = stable_order(keys);
    assert forall|o: Seq<usize>| is_stable_order(o, keys) implies o == stable_order(keys) by {
        lemma_stable_orders_agree(o, s, keys, keys.len() as int);
        assert(o =~= s);
    }
}

/// Whether axis key `a` sorts strictly before axis key `b`.
fn key_less_at(names: &Vec<Vec<char>>, ids: &Vec<i64>, a: usize, b: usize) -> (r: bool)
    requires
        a < names@.len(),
        b < names@.len(),
        names@.len() == ids@.len(),
    ensures
        r == key_less((names@[a as int]@, ids@[a as int]), (names@[b as int]@, ids@[b as int])),
{
    if text_less_chars(&names[a], &names[b]) {
        true
    } else {
        crate::text::chars_eq(&names[a], &names[b]) && ids[a] < ids[b]
    }
}

/// The keys paired from names and ids.
pub open spec fn keys_of(names: Seq<Vec<char>>, ids: Seq<i64>) -> Seq<AxisKey> {
    Seq::new(names.len(), |j: int| (names[j]@, ids[j]))
}

/// The stable order of the keys paired from `names` and `ids`.
pub fn stable_key_order(names: &Vec<Vec<char>>, ids: &Vec<i64>) -> (order: Vec<usize>)
    requires
        names@.len() == ids@.len(),
    ensures
        order@ == stable_order(keys_of(names@, ids@)),
{
    let n = names.len();
    let ghost keys = keys_of(names@, ids@);
    let mut order: Vec<usize> = Vec::new();
    let mut i: usize = 0;
    while i < n
        invariant
            n == names@.len(),
            i <= n,
            ids@.len() == n,
            keys == keys_of(names@, ids@),
            stable_prefix_order(order@, keys, i as int),
        decreases n - i,
    {
        let mut pos: usize = order.len();
        while pos > 0 && key_less_at(names, ids, i, order[pos - 1])
            invariant
                n == names@.len(),
                i < n,
                ids@.len() == n,
                keys == keys_of(names@, ids@),
                stable_prefix_order(order@, keys, i as int),
                pos <= i,
                forall|j: int| pos <= j < i ==> key_less(keys[i as int], keys[#[trigger] order@[j] as int]),
            decreases pos,
        {
            pos = pos - 1;
        }
        proof {
            if pos > 0 {
                assert(order@[pos - 1] < i);
            }
            lemma_insert_keeps_stable(order@, keys, i as int, pos as int);
        }
        order.insert(pos, i);
        i = i + 1;
    }
    proof {
        lemma_stable_order(keys);
        assert(is_stable_order(order@, keys));
    }
    order
}

/// The stable order of the axes by attribute business key, then attribute id.
pub fn stable_axis_order(axes: &[SkuAxisRecord]) -> (order: Vec<usize>)
    ensures
        order@ == stable_order(axis_keys(axes@)),
{
    let n = axes.len();
    let mut names: Vec<Vec<char>> = Vec::new();
    let mut ids: Vec<i64> = Vec::new();
    let mut i: usize = 0;
    while i < n
        invariant
            n == axes@.len(),
            i <= n,
            names@.len() == i,
            ids@.len() == i,
            forall|j: int| 0 <= j < i ==> (#[trigger] names@[j])@ == axes@[j].attribute_no@ && ids@[j]
                == axes@[j].attribute_id,
        decreases n - i,
    {
        names.push(chars_of(axes[i].attribute_no.as_str()));
        ids.push(axes[i].attribute_id);
        i = i + 1;
    }
    assert(keys_of(names@, ids@) =~= axis_keys(axes@));
    stable_key_order(&names, &ids)
}

/// One term of a signature: `attribute_no=value_code`.
pub open spec fn axis_term(a: SkuAxisRecord) -> Seq<char> {
    a.attribute_no@ + "="@ + a.value_code@
}

/// Terms joined with `;`.
pub open spec fn joined_terms(terms: Seq<Seq<char>>) -> Seq<char>
    decreases terms.len(),
{
    if terms.len() == 0 {
        Seq::empty()
    } else if terms.len() == 1 {
        terms[0]
    } else {
        joined_terms(terms.drop_last()) + ";"@ + terms.last()
    }
}

/// The terms of the axes in their stable order.
pub open spec fn ordered_terms(axes: Seq<SkuAxisRecord>) -> Seq<Seq<char>> {
    stable_order(axis_keys(axes)).map_values(|i: usize| axis_term(axes[i as int]))
}

/// The variant signature of a SKU: its axes' terms in order, or its own `sku_no` when it has no
/// axis (the empty combination has no storage form, and `sku_no` is unique per tenant).
pub open spec fn variant_signature_text(sku_no: Seq<char>, axes: Seq<SkuAxisRecord>) -> Seq<char> {
    if axes.len() == 0 {
        sku_no
    } else {
        joined_terms(ordered_terms(axes))
    }
}

/// The refusal of a signature longer than the baseline admits.
pub open spec fn signature_too_long_message(length: nat) -> Seq<char> {
    "the axis combination is 500 characters or shorter (ck_commerce_product_sku_variant_signature); this one is "@
        + decimal_text(length) + " characters"@
}

/// Builds a SKU's variant signature from its axes; a combination over 500 characters is refused.
pub fn build_variant_signature(sku_no: &str, axes: &[SkuAxisRecord]) -> (r: Result<
    String,
    crate::contract::ServiceError,
>)
    ensures
        ({
            let sig = variant_signature_text(sku_no@, axes@);
            if axes@.len() > 0 && sig.len() > SKU_VARIANT_SIGNATURE_MAX_CHARS {
                crate::repository::fails_with(
                    r,
                    crate::contract::ServiceErrorKind::Validation,
                    signature_too_long_message(sig.len()),
                )
            } else {
                r matches Ok(s) && s@ == sig
            }
        }),
{
    if axes.len() == 0 {
        return Ok(String::from_str(sku_no));
    }
    let order = stable_axis_order(axes);
    let ghost terms = ordered_terms(axes@);
    proof {
        lemma_stable_order(axis_keys(axes@));
    }
    let mut signature = String::new();
    let mut k: usize = 0;
    while k < order.len()
        invariant
            order@ == stable_order(axis_keys(axes@)),
            is_stable_order(order@, axis_keys(axes@)),
            order@.len() == axes@.len(),
            terms == ordered_terms(axes@),
            k <= order@.len(),
            signature@ == joined_terms(terms.subrange(0, k as int)),
        decreases order@.len() - k,
    {
        let index = order[k];
        assert(index < axes@.len());
        let axis = &axes[index];
        let ghost before = signature@;
        if k > 0 {
            signature.append(";");
        }
        signature.append(axis.attribute_no.as_str());
        signature.append("=");
        signature.append(axis.value_code.as_str());
        proof {
            assert(terms[k as int] == axis_term(axes@[index as int]));
            let next = terms.subrange(0, k + 1);
            assert(next.drop_last() =~= terms.subrange(0, k as int));
            if k == 0 {
                assert(signature@ =~= next[0]);
            } else {
                assert(signature@ =~= joined_terms(next.drop_last()) + ";"@ + next.last());
            }
        }
        k = k + 1;
    }
    assert(terms.subrange(0, k as int) =~= terms);
    let length = signature.unicode_len();
    if length > SKU_VARIANT_SIGNATURE_MAX_CHARS {
        let mut message = String::from_str(
            "the axis combination is 500 characters or shorter (ck_commerce_product_sku_variant_signature); this one is ",
        );
        let digits = string_of(&decimal_chars(length as u128));
        message.append(digits.as_str());
        message.append(" characters");
        return Err(crate::contract::ServiceError::validation(message));
    }
    Ok(signature)
}

/// `j` is an image of `p`.
pub open spec fn hits(p: Seq<int>, j: int) -> bool {
    exists|i: int| 0 <= i < p.len() && p[i] == j
}

/// The signature is a function of the axis set: rearranging a SKU's axes (by the bijection `p`,
/// with `rearranged[i] == axes[p[i]]`) leaves it unchanged, as long as no two axes share an
/// attribute key.
pub proof fn law_variant_signature_ignores_axis_order(
    sku_no: Seq<char>,
    axes: Seq<SkuAxisRecord>,
    rearranged: Seq<SkuAxisRecord>,
    p: Seq<int>,
)
    requires
        axes.len() <= usize::MAX,
        rearranged.len() == axes.len(),
        p.len() == axes.len(),
        forall|i: int| 0 <= i < p.len() ==> 0 <= #[trigger] p[i] < axes.len(),
        forall|i: int| 0 <= i < p.len() ==> #[trigger] rearranged[i] == axes[p[i]],
        forall|i: int, j: int| 0 <= i < j < p.len() ==> #[trigger] p[i] != #[trigger] p[j],
        forall|j: int| 0 <= j < axes.len() ==> #[trigger] hits(p, j),
        forall|i: int, j: int|
            0 <= i < j < axes.len() ==> #[trigger] axis_keys(axes)[i] != #[trigger] axis_keys(axes)[j],
    ensures
        variant_signature_text(sku_no, rearranged) == variant_signature_text(sku_no, axes),
{
    if axes.len() > 0 {
        let n = axes.len() as int;
        let k1 = axis_keys(axes);
        let k2 = axis_keys(rearranged);
        lemma_stable_order(k1);
        lemma_stable_order(k2);
        let o1 = stable_order(k1);
        assert forall|i: int| 0 <= i < n implies #[trigger] k2[i] == k1[p[i]] by {
            assert(rearranged[i] == axes[p[i]]);
        }
        let o2 = Seq::new(
            n as nat,
            |k: int| (choose|i: int| 0 <= i < n && p[i] == o1[k] as int) as usize,
        );
        assert forall|k: int| 0 <= k < n implies 0 <= #[trigger] o2[k] < n && p[o2[k] as int]
            == o1[k] by {
            assert(o1[k] < n);
            let j = o1[k] as int;
            assert(hits(p, j));
        }
        assert forall|k1i: int, k2i: int| 0 <= k1i < k2i < n implies #[trigger] o2[k1i]
            != #[trigger] o2[k2i] by {
            assert(p[o2[k1i] as int] == o1[k1i]);
            assert(p[o2[k2i] as int] == o1[k2i]);
            assert(o1[k1i] != o1[k2i]);
        }
        assert forall|i: int| 0 <= i < n implies #[trigger] lists(o2, i) by {
            let j = p[i];
            assert(lists(o1, j));
            let m = choose|m: int| 0 <= m < o1.len() && o1[m] == j;
            assert(p[o2[m] as int] == o1[m]);
            if o2[m] as int != i {
                if (o2[m] as int) < i {
                    assert(p[o2[m] as int] != p[i]);
                } else {
                    assert(p[i] != p[o2[m] as int]);
                }
            }
            assert(o2[m] == i);
        }
        assert forall|a: int, b: int| 0 <= a < b < n implies !key_less(
            k2[#[trigger] o2[b] as int],
            k2[#[trigger] o2[a] as int],
        ) by {
            assert(k2[o2[a] as int] == k1[o1[a] as int]);
            assert(k2[o2[b] as int] == k1[o1[b] as int]);
        }
        assert forall|a: int, b: int|
            0 <= a < b < n && k2[#[trigger] o2[a] as int] == k2[#[trigger] o2[b] as int] implies o2[a]
                < o2[b] by {
            assert(k2[o2[a] as int] == k1[o1[a] as int]);
            assert(k2[o2[b] as int] == k1[o1[b] as int]);
            assert(o1[a] != o1[b]);
            if (o1[a] as int) < (o1[b] as int) {
                assert(k1[o1[a] as int] != k1[o1[b] as int]);
            } else {
                assert(k1[o1[b] as int] != k1[o1[a] as int]);
            }
        }
        assert(is_stable_order(o2, k2));
        assert(stable_order(k2) == o2);
        assert(ordered_terms(rearranged) =~= ordered_terms(axes)) by {
            assert forall|k: int| 0 <= k < n implies ordered_terms(rearranged)[k]
                == ordered_terms(axes)[k] by {
                assert(rearranged[o2[k] as int] == axes[p[o2[k] as int]]);
            }
        }
    }
}

/// A signature lists its axes' terms by ascending `attribute_no` in text order, and `attribute_id`
/// only breaks ties: there is an arrangement `order` of the axes (each listed once) whose terms,
/// in that order, are the signature's terms, and in which an axis whose `attribute_no` sorts
/// before another's comes first, whatever their ids; axes with equal `attribute_no` come by
/// ascending id.
pub proof fn law_signature_terms_ascend_by_attribute_no(sku_no: Seq<char>, axes: Seq<SkuAxisRecord>)
    requires
        0 < axes.len() <= usize::MAX,
    ensures
        exists|order: Seq<usize>|
            {
                &&& order.len() == axes.len()
                &&& forall|k: int| 0 <= k < order.len() ==> #[trigger] order[k] < axes.len()
                &&& forall|k1: int, k2: int|
                    0 <= k1 < k2 < order.len() ==> #[trigger] order[k1] != #[trigger] order[k2]
                &&& variant_signature_text(sku_no, axes) == joined_terms(
                    order.map_values(|i: usize| axis_term(axes[i as int])),
                )
                &&& forall|k1: int, k2: int|
                    0 <= k1 < order.len() && 0 <= k2 < order.len() && text_less(
                        axes[#[trigger] order[k1] as int].attribute_no@,
                        axes[#[trigger] order[k2] as int].attribute_no@,
                    ) ==> k1 < k2
                &&& forall|k1: int, k2: int|
                    0 <= k1 < k2 < order.len() && axes[#[trigger] order[k1] as int].attribute_no@
                        == axes[#[trigger] order[k2] as int].attribute_no@ ==> axes[order[k1] as int].attribute_id
                        <= axes[order[k2] as int].attribute_id
            },
{
    let keys = axis_keys(axes);
    lemma_stable_order(keys);
    let order = stable_order(keys);
    assert forall|k1: int, k2: int|
        0 <= k1 < order.len() && 0 <= k2 < order.len() && text_less(
            axes[#[trigger] order[k1] as int].attribute_no@,
            axes[#[trigger] order[k2] as int].attribute_no@,
        ) implies k1 < k2 by {
        lemma_text_less_irreflexive(axes[order[k1] as int].attribute_no@);
        lemma_text_less_asymmetric(
            axes[order[k1] as int].attribute_no@,
            axes[order[k2] as int].attribute_no@,
        );
        assert(keys[order[k1] as int] == (axes[order[k1] as int].attribute_no@, axes[order[k1] as int].attribute_id));
        assert(keys[order[k2] as int] == (axes[order[k2] as int].attribute_no@, axes[order[k2] as int].attribute_id));
        if k2 < k1 {
            assert(!key_less(keys[order[k1] as int], keys[order[k2] as int]));
        }
    }
    assert forall|k1: int, k2: int|
        0 <= k1 < k2 < order.len() && axes[#[trigger] order[k1] as int].attribute_no@
            == axes[#[trigger] order[k2] as int].attribute_no@ implies axes[order[k1] as int].attribute_id
            <= axes[order[k2] as int].attribute_id by {
        assert(keys[order[k1] as int] == (axes[order[k1] as int].attribute_no@, axes[order[k1] as int].attribute_id));
        assert(keys[order[k2] as int] == (axes[order[k2] as int].attribute_no@, axes[order[k2] as int].attribute_id));
        assert(!key_less(keys[order[k2] as int], keys[order[k1] as int]));
    }
    assert(ordered_terms(axes) == order.map_values(|i: usize| axis_term(axes[i as int])));
}

} // verus!
