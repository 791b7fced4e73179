//! Sum-preserving allocation by integer weights (largest-remainder method) and even splits.
use vstd::prelude::*;
use vstd::arithmetic::div_mod::{lemma_div_pos_is_pos, lemma_fundamental_div_mod, lemma_mod_bound};

use crate::money::{in_i128, sum_outcome, Money};
use crate::rounding::{euclid, MoneyError};
use crate::unit::{same_unit, MoneyUnit};

verus! {

/// The sum of all weights.
pub open spec fn weight_total(w: Seq<i64>) -> int
    decreases w.len(),
{
    if w.len() == 0 {
        0
    } else {
        weight_total(w.drop_last()) + w.last()
    }
}

/// The whole minor units share `i` receives before any remainder is handed out.
pub open spec fn share_floor(total: int, w: Seq<i64>, i: int) -> int {
    (total * w[i]) / weight_total(w)
}

/// What share `i` leaves over, in units of `1 / weight_total`.
pub open spec fn share_remainder(total: int, w: Seq<i64>, i: int) -> int {
    (total * w[i]) % weight_total(w)
}

/// The whole units assigned to the first `k` shares.
pub open spec fn floors_before(total: int, w: Seq<i64>, k: nat) -> int
    decreases k,
{
    if k == 0 {
        0
    } else {
        floors_before(total, w, (k - 1) as nat) + share_floor(total, w, k - 1)
    }
}

/// The remainders of the first `k` shares.
pub open spec fn remainders_before(total: int, w: Seq<i64>, k: nat) -> int
    decreases k,
{
    if k == 0 {
        0
    } else {
        remainders_before(total, w, (k - 1) as nat) + share_remainder(total, w, k - 1)
    }
}

/// The minor units left once every share has its whole units: one each goes to the largest
/// remainders.
pub open spec fn leftover(total: int, w: Seq<i64>) -> int {
    total - floors_before(total, w, w.len())
}

/// Share `i` receives a leftover unit before share `j`: larger remainder first, then larger
/// weight, then lower index.
pub open spec fn goes_before(total: int, w: Seq<i64>, i: int, j: int) -> bool {
    let ri = share_remainder(total, w, i);
    let rj = share_remainder(total, w, j);
    ||| ri > rj
    ||| (ri == rj && w[i] > w[j])
    ||| (ri == rj && w[i] == w[j] && i < j)
}

/// Why an allocation of `total` by `w` is refused, if it is.
pub open spec fn allocation_error(total: int, w: Seq<i64>) -> Option<MoneyError> {
    if w.len() == 0 {
        Some(MoneyError::EmptyWeights)
    } else if exists|i: int| 0 <= i < w.len() && #[trigger] w[i] < 0 {
        Some(MoneyError::NegativeWeight)
    } else if weight_total(w) == 0 {
        Some(MoneyError::ZeroWeightTotal)
    } else if exists|i: int| 0 <= i < w.len() && !in_i128(total * #[trigger] w[i]) {
        Some(MoneyError::Overflow)
    } else if exists|k: nat| k <= w.len() && !in_i128(#[trigger] floors_before(total, w, k)) {
        Some(MoneyError::Overflow)
    } else {
        None
    }
}

/// Part `i` was raised by one leftover unit above its whole units.
pub open spec fn raised(total: int, w: Seq<i64>, parts: Seq<Money>, i: int) -> bool {
    parts[i].minor_of() == share_floor(total, w, i) + 1
}

/// How many of the first `k` parts were raised.
pub open spec fn raised_count(total: int, w: Seq<i64>, parts: Seq<Money>, k: nat) -> int
    decreases k,
{
    if k == 0 {
        0
    } else {
        raised_count(total, w, parts, (k - 1) as nat) + if raised(total, w, parts, k - 1) {
            1int
        } else {
            0int
        }
    }
}

/// `parts` is the largest-remainder allocation of `total` in `unit` by `w`: every part holds its
/// whole units, exactly the leftover many parts hold one more, and every raised part goes before
/// every part that was not raised.
pub open spec fn is_allocation(total: int, unit: MoneyUnit, w: Seq<i64>, parts: Seq<Money>) -> bool {
    &&& parts.len() == w.len()
    &&& forall|i: int| 0 <= i < w.len() ==> (#[trigger] parts[i]).unit_of() == unit
    &&& forall|i: int|
        0 <= i < w.len() ==> (#[trigger] parts[i]).minor_of() == share_floor(total, w, i) || raised(
            total,
            w,
            parts,
            i,
        )
    &&& raised_count(total, w, parts, w.len()) == leftover(total, w)
    &&& forall|i: int, j: int|
        0 <= i < w.len() && 0 <= j < w.len() && #[trigger] raised(total, w, parts, i) && !(
        #[trigger] raised(total, w, parts, j)) ==> goes_before(total, w, i, j)
}

/// The sum of the first `k` values.
pub open spec fn sum_before(s: Seq<int>, k: nat) -> int
    decreases k,
{
    if k == 0 {
        0
    } else {
        sum_before(s, (k - 1) as nat) + s[k - 1]
    }
}

/// The minor amounts of a sequence of parts.
pub open spec fn minors(parts: Seq<Money>) -> Seq<int> {
    parts.map_values(|m: Money| m.minor_of() as int)
}

proof fn lemma_weight_total_step(w: Seq<i64>, i: int)
    requires
        0 <= i < w.len(),
    ensures
        weight_total(w.subrange(0, i + 1)) == weight_total(w.subrange(0, i)) + w[i],
{
    assert(w.subrange(0, i + 1).drop_last() =~= w.subrange(0, i));
}

/// `goes_before` is a strict total order on the shares.
proof fn lemma_goes_before_order(total: int, w: Seq<i64>, a: int, b: int, c: int)
    ensures
        a != b ==> (goes_before(total, w, a, b) || goes_before(total, w, b, a)),
        !(goes_before(total, w, a, b) && goes_before(total, w, b, a)),
        goes_before(total, w, a, b) && goes_before(total, w, b, c) ==> goes_before(total, w, a, c),
{
}

/// The sum of the first `k` parts is their whole units plus the raised count.
proof fn lemma_parts_sum(total: int, unit: MoneyUnit, w: Seq<i64>, parts: Seq<Money>, k: nat)
    requires
        is_allocation(total, unit, w, parts),
        k <= w.len(),
    ensures
        sum_before(minors(parts), k) == floors_before(total, w, k) + raised_count(total, w, parts, k),
    decreases k,
{
    if k > 0 {
        lemma_parts_sum(total, unit, w, parts, (k - 1) as nat);
        assert(minors(parts)[k - 1] == parts[k - 1].minor_of());
        assert(parts[k - 1].minor_of() == share_floor(total, w, k - 1) || raised(
            total,
            w,
            parts,
            k - 1,
        ));
    }
}

proof fn lemma_raised_count_bounds(total: int, w: Seq<i64>, parts: Seq<Money>, k: nat)
    ensures
        0 <= raised_count(total, w, parts, k) <= k,
    decreases k,
{
    if k > 0 {
        lemma_raised_count_bounds(total, w, parts, (k - 1) as nat);
    }
}

/// For a non-negative total every share's whole units are non-negative; for a negative total they
/// are at most zero.
proof fn lemma_floor_sign(total: int, w: Seq<i64>, i: int)
    requires
        0 <= i < w.len(),
        w[i] >= 0,
        weight_total(w) > 0,
    ensures
        total >= 0 ==> share_floor(total, w, i) >= 0,
        total < 0 ==> share_floor(total, w, i) <= 0,
{
    let p = total * w[i];
    let d = weight_total(w);
    if total >= 0 {
        assert(p >= 0) by (nonlinear_arith)
            requires
                total >= 0,
                w[i] >= 0,
                p == total * w[i],
        ;
        lemma_div_pos_is_pos(p, d);
    } else {
        assert(p <= 0) by (nonlinear_arith)
            requires
                total < 0,
                w[i] >= 0,
                p == total * w[i],
        ;
        lemma_fundamental_div_mod(p, d);
        lemma_mod_bound(p, d);
        let q = p / d;
        assert(q <= 0) by (nonlinear_arith)
            requires
                p <= 0,
                d > 0,
                p == d * q + p % d,
                p % d >= 0,
        ;
    }
}

proof fn lemma_weight_total_nonneg(w: Seq<i64>)
    requires
        forall|i: int| 0 <= i < w.len() ==> #[trigger] w[i] >= 0,
    ensures
        weight_total(w) >= 0,
    decreases w.len(),
{
    if w.len() > 0 {
        let p = w.drop_last();
        assert forall|i: int| 0 <= i < p.len() implies #[trigger] p[i] >= 0 by {
            assert(p[i] == w[i]);
        }
        lemma_weight_total_nonneg(p);
    }
}

proof fn lemma_floors_sign(total: int, w: Seq<i64>, k: nat)
    requires
        k <= w.len(),
        forall|i: int| 0 <= i < w.len() ==> #[trigger] w[i] >= 0,
        weight_total(w) > 0,
    ensures
        total >= 0 ==> floors_before(total, w, k) >= 0,
        total < 0 ==> floors_before(total, w, k) <= 0,
    decreases k,
{
    if k > 0 {
        lemma_floors_sign(total, w, (k - 1) as nat);
        lemma_floor_sign(total, w, k - 1);
    }
}

proof fn lemma_sum_before_nonneg_monotone(s: Seq<int>, j: nat, k: nat)
    requires
        j <= k <= s.len(),
        forall|i: int| 0 <= i < s.len() ==> #[trigger] s[i] >= 0,
    ensures
        0 <= sum_before(s, j) <= sum_before(s, k),
    decreases k,
{
    if j < k {
        lemma_sum_before_nonneg_monotone(s, j, (k - 1) as nat);
    } else if k > 0 {
        lemma_sum_before_nonneg_monotone(s, (k - 1) as nat, (k - 1) as nat);
    }
}

/// Summing the parts of an allocation gives back the amount that was allocated, in its unit.
pub proof fn law_allocation_is_sum_preserving(
    total: int,
    unit: MoneyUnit,
    w: Seq<i64>,
    parts: Seq<Money>,
)
    requires
        in_i128(total),
        w.len() <= usize::MAX,
        allocation_error(total, w) is None,
        is_allocation(total, unit, w, parts),
    ensures
        sum_outcome(parts) == Ok::<(int, MoneyUnit), MoneyError>((total, unit)),
{
    let n = w.len();
    assert(forall|i: int| 0 <= i < n ==> #[trigger] w[i] >= 0);
    lemma_parts_sum(total, unit, w, parts, n);
    let s = minors(parts);
    assert(sum_before(s, n) == total);
    lemma_sum_outcome_prefix(total, unit, w, parts, n);
    assert(parts.subrange(0, n as int) =~= parts);
}

/// Every prefix of an allocation sums without error to its prefix sum.
proof fn lemma_sum_outcome_prefix(
    total: int,
    unit: MoneyUnit,
    w: Seq<i64>,
    parts: Seq<Money>,
    k: nat,
)
    requires
        in_i128(total),
        w.len() <= usize::MAX,
        allocation_error(total, w) is None,
        is_allocation(total, unit, w, parts),
        1 <= k <= w.len(),
    ensures
        sum_outcome(parts.subrange(0, k as int)) == Ok::<(int, MoneyUnit), MoneyError>(
            (sum_before(minors(parts), k), unit),
        ),
    decreases k,
{
    let n = w.len();
    let s = minors(parts);
    assert(forall|i: int| 0 <= i < n ==> #[trigger] w[i] >= 0);
    lemma_weight_total_nonneg(w);
    assert(forall|k2: nat| k2 <= n ==> in_i128(#[trigger] floors_before(total, w, k2)));
    assert(s[k as int - 1] == parts[k as int - 1].minor_of());
    if k == 1 {
        assert(sum_before(s, 0) == 0);
    } else {
        lemma_sum_outcome_prefix(total, unit, w, parts, (k - 1) as nat);
        let pre = parts.subrange(0, k as int);
        assert(pre.drop_last() =~= parts.subrange(0, k - 1));
        assert(pre.last() == parts[k - 1]);
        // The new running sum stays in range.
        lemma_parts_sum(total, unit, w, parts, k);
        lemma_raised_count_bounds(total, w, parts, k);
        lemma_floors_sign(total, w, k);
        assert(in_i128(floors_before(total, w, k)));
        if total >= 0 {
            assert forall|i: int| 0 <= i < s.len() implies #[trigger] s[i] >= 0 by {
                lemma_floor_sign(total, w, i);
                assert(s[i] == parts[i].minor_of());
                assert(parts[i].minor_of() == share_floor(total, w, i) || raised(total, w, parts, i));
            }
            lemma_parts_sum(total, unit, w, parts, n);
            lemma_sum_before_nonneg_monotone(s, k, n);
        }
        assert(same_unit(unit, parts[k - 1].unit_of()));
    }
}

/// The number of `true` values among the first `k`.
pub open spec fn true_count(s: Seq<bool>, k: nat) -> int
    decreases k,
{
    if k == 0 {
        0
    } else {
        true_count(s, (k - 1) as nat) + if s[k - 1] {
            1int
        } else {
            0int
        }
    }
}

proof fn lemma_true_count_update(s: Seq<bool>, j: int, k: nat)
    requires
        0 <= j < s.len(),
        k <= s.len(),
        !s[j],
    ensures
        true_count(s.update(j, true), k) == true_count(s, k) + if j < k {
            1int
        } else {
            0int
        },
    decreases k,
{
    if k > 0 {
        lemma_true_count_update(s, j, (k - 1) as nat);
    }
}

proof fn lemma_true_count_full(s: Seq<bool>, k: nat)
    requires
        k <= s.len(),
        forall|i: int| 0 <= i < k ==> #[trigger] s[i],
    ensures
        true_count(s, k) == k,
    decreases k,
{
    if k > 0 {
        lemma_true_count_full(s, (k - 1) as nat);
    }
}

proof fn lemma_true_count_zero(s: Seq<bool>, k: nat)
    requires
        k <= s.len(),
        forall|i: int| 0 <= i < k ==> !(#[trigger] s[i]),
    ensures
        true_count(s, k) == 0,
    decreases k,
{
    if k > 0 {
        lemma_true_count_zero(s, (k - 1) as nat);
    }
}

/// Share `a` goes before share `b`, read from the computed remainders.
fn goes_before_exec(rems: &Vec<i128>, weights: &[i64], a: usize, b: usize) -> (r: bool)
    requires
        a < rems@.len(),
        b < rems@.len(),
        rems@.len() == weights@.len(),
    ensures
        r == ({
            let ra = rems@[a as int];
            let rb = rems@[b as int];
            ||| ra > rb
            ||| (ra == rb && weights@[a as int] > weights@[b as int])
            ||| (ra == rb && weights@[a as int] == weights@[b as int] && a < b)
        }),
{
    rems[a] > rems[b] || (rems[a] == rems[b] && weights[a] > weights[b]) || (rems[a] == rems[b]
        && weights[a] == weights[b] && a < b)
}

impl Money {
    /// Splits into proportional parts by integer weights using the largest-remainder method, so
    /// the parts always sum back to exactly this amount. Ties go to the larger weight, then the
    /// lower index, so the split is deterministic.
    pub fn allocate(self, weights: &[i64]) -> (r: Result<Vec<Money>, MoneyError>)
        ensures
            match allocation_error(self.minor_of() as int, weights@) {
                Some(e) => r == Err::<Vec<Money>, MoneyError>(e),
                None => r matches Ok(parts) && is_allocation(
                    self.minor_of() as int,
                    self.unit_of(),
                    weights@,
                    parts@,
                ) && sum_outcome(parts@) == Ok::<(int, MoneyUnit), MoneyError>(
                    (self.minor_of() as int, self.unit_of()),
                ),
            },
    {
        let n = weights.len();
        let ghost ws = weights@;
        if n == 0 {
            return Err(MoneyError::EmptyWeights);
        }
        let mut total_weight: i128 = 0;
        let mut i: usize = 0;
        assert(ws.subrange(0, 0) =~= Seq::<i64>::empty());
        while i < n
            invariant
                i <= n == ws.len(),
                ws == weights@,
                n <= 0xffff_ffff_ffff_ffff,
                total_weight == weight_total(ws.subrange(0, i as int)),
                0 <= total_weight <= i * 0x7fff_ffff_ffff_ffff,
                forall|k: int| 0 <= k < i ==> #[trigger] ws[k] >= 0,
            decreases n - i,
        {
            if weights[i] < 0 {
                assert(ws[i as int] < 0);
                return Err(MoneyError::NegativeWeight);
            }
            proof {
                lemma_weight_total_step(ws, i as int);
                assert((i + 1) * 0x7fff_ffff_ffff_ffff == i * 0x7fff_ffff_ffff_ffff
                    + 0x7fff_ffff_ffff_ffff) by (nonlinear_arith);
                assert(i * 0x7fff_ffff_ffff_ffff <= 0xffff_ffff_ffff_ffff * 0x7fff_ffff_ffff_ffff)
                    by (nonlinear_arith)
                    requires
                        i <= 0xffff_ffff_ffff_ffff,
                ;
            }
            total_weight = total_weight + weights[i] as i128;
            i = i + 1;
        }
        assert(ws.subrange(0, n as int) =~= ws);
        assert(!(exists|k: int| 0 <= k < ws.len() && #[trigger] ws[k] < 0));
        if total_weight == 0 {
            return Err(MoneyError::ZeroWeightTotal);
        }
        let total = self.minor();
        let ghost t = total as int;
        let ghost wt = total_weight as int;
        let mut floors: Vec<i128> = Vec::new();
        let mut rems: Vec<i128> = Vec::new();
        let mut assigned: i128 = 0;
        let mut i: usize = 0;
        assert(ws.subrange(0, 0) =~= Seq::<i64>::empty());
        while i < n
            invariant
                i <= n == ws.len(),
                ws == weights@,
                n <= 0xffff_ffff_ffff_ffff,
                t == total,
                total == self.minor_of(),
                wt == total_weight == weight_total(ws),
                wt > 0,
                forall|k: int| 0 <= k < n ==> #[trigger] ws[k] >= 0,
                floors@.len() == i,
                rems@.len() == i,
                forall|k: int| 0 <= k < i ==> #[trigger] floors@[k] == share_floor(t, ws, k),
                forall|k: int| 0 <= k < i ==> #[trigger] rems@[k] == share_remainder(t, ws, k),
                assigned == floors_before(t, ws, i as nat),
                forall|k: int| 0 <= k < i ==> in_i128(t * #[trigger] ws[k]),
                forall|k: nat| k <= i ==> in_i128(#[trigger] floors_before(t, ws, k)),
                t * weight_total(ws.subrange(0, i as int)) == wt * assigned + remainders_before(
                    t,
                    ws,
                    i as nat,
                ),
                0 <= remainders_before(t, ws, i as nat) <= i * (wt - 1),
            decreases n - i,
        {
            let numerator = match total.checked_mul(weights[i] as i128) {
                Some(v) => v,
                None => {
                    assert(!in_i128(t * ws[i as int]));
                    assert(!(exists|k: int| 0 <= k < ws.len() && #[trigger] ws[k] < 0));
                    assert(weight_total(ws) != 0);
                    assert(exists|k: int| 0 <= k < ws.len() && !in_i128(t * #[trigger] ws[k]));
                    assert(allocation_error(t, ws) == Some(MoneyError::Overflow));
                    return Err(MoneyError::Overflow);
                },
            };
            let (q, r) = euclid(numerator, total_weight);
            proof {
                lemma_fundamental_div_mod(numerator as int, wt);
                lemma_mod_bound(numerator as int, wt);
            }
            let next = match assigned.checked_add(q) {
                Some(v) => v,
                None => {
                    assert(floors_before(t, ws, (i + 1) as nat) == assigned + share_floor(t, ws, i as int));
                    assert(!in_i128(floors_before(t, ws, (i + 1) as nat)));
                    assert(!(exists|k: int| 0 <= k < ws.len() && #[trigger] ws[k] < 0));
                    assert(weight_total(ws) != 0);
                    assert(exists|k: nat| k <= ws.len() && !in_i128(#[trigger] floors_before(t, ws, k)));
                    assert(allocation_error(t, ws) == Some(MoneyError::Overflow));
                    return Err(MoneyError::Overflow);
                },
            };
            proof {
                lemma_weight_total_step(ws, i as int);
                let prev_w = weight_total(ws.subrange(0, i as int));
                assert(t * (prev_w + ws[i as int]) == t * prev_w + t * ws[i as int])
                    by (nonlinear_arith);
                assert(wt * (assigned + q) == wt * assigned + wt * q) by (nonlinear_arith);
                assert((i + 1) * (wt - 1) == i * (wt - 1) + (wt - 1)) by (nonlinear_arith);
            }
            assigned = next;
            floors.push(q);
            rems.push(r);
            i = i + 1;
        }
        assert(ws.subrange(0, n as int) =~= ws);
        let ghost rsum = remainders_before(t, ws, n as nat);
        assert(allocation_error(t, ws) is None);
        // What is left after the whole units is less than one unit per share.
        proof {
            assert(t * wt == wt * assigned + rsum);
            assert(wt * (t - assigned) == rsum) by (nonlinear_arith)
                requires
                    t * wt == wt * assigned + rsum,
            ;
            assert(n * (wt - 1) < n * wt) by (nonlinear_arith)
                requires
                    n >= 1,
            ;
            assert(0 <= t - assigned < n) by (nonlinear_arith)
                requires
                    wt * (t - assigned) == rsum,
                    0 <= rsum < n * wt,
                    wt > 0,
            ;
        }
        let left = (total - assigned) as usize;
        let mut selected: Vec<bool> = Vec::new();
        let mut k: usize = 0;
        while k < n
            invariant
                k <= n,
                selected@.len() == k,
                forall|m: int| 0 <= m < k ==> !(#[trigger] selected@[m]),
            decreases n - k,
        {
            selected.push(false);
            k = k + 1;
        }
        proof {
            lemma_true_count_zero(selected@, n as nat);
        }
        let mut round: usize = 0;
        while round < left
            invariant
                round <= left < n,
                n == ws.len(),
                ws == weights@,
                wt == weight_total(ws),
                wt > 0,
                rems@.len() == n,
                forall|m: int| 0 <= m < n ==> #[trigger] rems@[m] == share_remainder(t, ws, m),
                selected@.len() == n,
                true_count(selected@, n as nat) == round,
                forall|a: int, b: int|
                    0 <= a < n && 0 <= b < n && #[trigger] selected@[a] && !(#[trigger] selected@[b])
                        ==> goes_before(t, ws, a, b),
            decreases left - round,
        {
            let mut best: usize = n;
            let mut j: usize = 0;
            while j < n
                invariant
                    j <= n == ws.len(),
                    ws == weights@,
                    rems@.len() == n,
                    forall|m: int| 0 <= m < n ==> #[trigger] rems@[m] == share_remainder(t, ws, m),
                    selected@.len() == n,
                    best == n || (best < j && !selected@[best as int]),
                    best == n ==> forall|m: int| 0 <= m < j ==> #[trigger] selected@[m],
                    best < n ==> forall|m: int|
                        0 <= m < j && !(#[trigger] selected@[m]) && m != best ==> goes_before(
                            t,
                            ws,
                            best as int,
                            m,
                        ),
                decreases n - j,
            {
                if !selected[j] {
                    if best == n || goes_before_exec(&rems, weights, j, best) {
                        proof {
                            if best < n {
                                assert forall|m: int|
                                    0 <= m < j && !(#[trigger] selected@[m]) && m != j implies goes_before(
                                    t,
                                    ws,
                                    j as int,
                                    m,
                                ) by {
                                    if m != best {
                                        lemma_goes_before_order(t, ws, j as int, best as int, m);
                                    }
                                }
                            }
                        }
                        best = j;
                    } else {
                        proof {
                            lemma_goes_before_order(t, ws, j as int, best as int, j as int);
                        }
                    }
                }
                j = j + 1;
            }
            if best == n {
                proof {
                    lemma_true_count_full(selected@, n as nat);
                }
                assert(false);
            }
            proof {
                lemma_true_count_update(selected@, best as int, n as nat);
                assert forall|a: int, b: int|
                    0 <= a < n && 0 <= b < n && #[trigger] selected@.update(best as int, true)[a]
                        && !(#[trigger] selected@.update(best as int, true)[b]) implies goes_before(
                    t,
                    ws,
                    a,
                    b,
                ) by {
                    if a != best {
                        assert(selected@[a]);
                    }
                    assert(!selected@[b]);
                }
            }
            selected.set(best, true);
            round = round + 1;
        }
        let mut parts: Vec<Money> = Vec::new();
        let mut i: usize = 0;
        while i < n
            invariant
                i <= n == ws.len(),
                ws == weights@,
                wt == weight_total(ws),
                wt > 0,
                floors@.len() == n,
                selected@.len() == n,
                forall|m: int| 0 <= m < n ==> #[trigger] floors@[m] == share_floor(t, ws, m),
                forall|m: int| 0 <= m < n ==> #[trigger] ws[m] >= 0,
                t == total,
                t - floors_before(t, ws, n as nat) == true_count(selected@, n as nat),
                parts@.len() == i,
                forall|m: int|
                    0 <= m < i ==> (#[trigger] parts@[m]).unit_of() == self.unit_of()
                        && parts@[m].minor_of() == floors@[m] + if selected@[m] {
                        1int
                    } else {
                        0int
                    },
            decreases n - i,
        {
            let minor = if selected[i] {
                proof {
                    self.lemma_raised_part_fits(t, ws, floors@, selected@, i as int);
                }
                floors[i] + 1
            } else {
                floors[i]
            };
            parts.push(Money::from_minor(minor, self.unit()));
            i = i + 1;
        }
        proof {
            assert forall|m: int| 0 <= m < n implies #[trigger] raised(t, ws, parts@, m)
                == selected@[m] by {}
            self.lemma_raised_count_matches(t, ws, parts@, selected@, n as nat);
            assert(is_allocation(t, self.unit_of(), ws, parts@));
            law_allocation_is_sum_preserving(t, self.unit_of(), ws, parts@);
        }
        Ok(parts)
    }

    proof fn lemma_raised_count_matches(
        self,
        t: int,
        ws: Seq<i64>,
        parts: Seq<Money>,
        selected: Seq<bool>,
        k: nat,
    )
        requires
            k <= parts.len() == selected.len(),
            forall|m: int| 0 <= m < parts.len() ==> #[trigger] raised(t, ws, parts, m) == selected[m],
        ensures
            raised_count(t, ws, parts, k) == true_count(selected, k),
        decreases k,
    {
        if k > 0 {
            self.lemma_raised_count_matches(t, ws, parts, selected, (k - 1) as nat);
        }
    }

    /// A share raised by one leftover unit still fits in 128 bits.
    proof fn lemma_raised_part_fits(
        self,
        t: int,
        ws: Seq<i64>,
        floors: Seq<i128>,
        selected: Seq<bool>,
        i: int,
    )
        requires
            0 <= i < ws.len(),
            floors.len() == ws.len() == selected.len(),
            weight_total(ws) > 0,
            forall|m: int| 0 <= m < ws.len() ==> #[trigger] floors[m] == share_floor(t, ws, m),
            forall|m: int| 0 <= m < ws.len() ==> #[trigger] ws[m] >= 0,
            t - floors_before(t, ws, ws.len()) == true_count(selected, ws.len()),
            t <= i128::MAX,
            selected[i],
        ensures
            floors[i] + 1 <= i128::MAX,
    {
        lemma_floor_sign(t, ws, i);
        if t >= 0 {
            let vals = Seq::new(
                ws.len(),
                |m: int| share_floor(t, ws, m) + if selected[m] {
                    1int
                } else {
                    0int
                },
            );
            lemma_vals_sum(t, ws, selected, vals, ws.len());
            assert forall|m: int| 0 <= m < vals.len() implies #[trigger] vals[m] >= 0 by {
                lemma_floor_sign(t, ws, m);
            }
            lemma_element_le_sum(vals, i, ws.len());
        }
    }
}

/// The weights of an even split: `count` ones.
pub open spec fn even_weights(count: nat) -> Seq<i64> {
    Seq::new(count, |i: int| 1i64)
}

impl Money {
    /// Splits into `count` parts as evenly as possible, still sum preserving.
    pub fn split_evenly(self, count: usize) -> (r: Result<Vec<Money>, MoneyError>)
        ensures
            count == 0 ==> r == Err::<Vec<Money>, MoneyError>(MoneyError::DivisionByZero),
            count > 0 ==> match allocation_error(self.minor_of() as int, even_weights(count as nat)) {
                Some(e) => r == Err::<Vec<Money>, MoneyError>(e),
                None => r matches Ok(parts) && is_allocation(
                    self.minor_of() as int,
                    self.unit_of(),
                    even_weights(count as nat),
                    parts@,
                ) && sum_outcome(parts@) == Ok::<(int, MoneyUnit), MoneyError>(
                    (self.minor_of() as int, self.unit_of()),
                ),
            },
    {
        if count == 0 {
            return Err(MoneyError::DivisionByZero);
        }
        let mut weights: Vec<i64> = Vec::new();
        let mut i: usize = 0;
        while i < count
            invariant
                i <= count,
                weights@ == even_weights(i as nat),
            decreases count - i,
        {
            weights.push(1);
            i = i + 1;
            assert(weights@ =~= even_weights(i as nat));
        }
        self.allocate(weights.as_slice())
    }
}

proof fn lemma_true_count_of_raised(
    total: int,
    w: Seq<i64>,
    parts: Seq<Money>,
    flags: Seq<bool>,
    k: nat,
)
    requires
        k <= parts.len() == flags.len(),
        forall|m: int| 0 <= m < flags.len() ==> #[trigger] flags[m] == raised(total, w, parts, m),
    ensures
        true_count(flags, k) == raised_count(total, w, parts, k),
    decreases k,
{
    if k > 0 {
        lemma_true_count_of_raised(total, w, parts, flags, (k - 1) as nat);
    }
}

/// How many of the first `k` positions are set in `a` but not in `b`.
pub open spec fn only_in(a: Seq<bool>, b: Seq<bool>, k: nat) -> int
    decreases k,
{
    if k == 0 {
        0
    } else {
        only_in(a, b, (k - 1) as nat) + if a[k - 1] && !b[k - 1] {
            1int
        } else {
            0int
        }
    }
}

proof fn lemma_only_in_difference(a: Seq<bool>, b: Seq<bool>, k: nat)
    requires
        k <= a.len() == b.len(),
    ensures
        true_count(a, k) - true_count(b, k) == only_in(a, b, k) - only_in(b, a, k),
        only_in(a, b, k) >= 0,
    decreases k,
{
    if k > 0 {
        lemma_only_in_difference(a, b, (k - 1) as nat);
    }
}

proof fn lemma_only_in_witness(a: Seq<bool>, b: Seq<bool>, k: nat) -> (j: int)
    requires
        k <= a.len() == b.len(),
        only_in(a, b, k) > 0,
    ensures
        0 <= j < k,
        a[j] && !b[j],
    decreases k,
{
    if a[k - 1] && !b[k - 1] {
        k - 1
    } else {
        lemma_only_in_witness(a, b, (k - 1) as nat)
    }
}

proof fn lemma_only_in_positive(a: Seq<bool>, b: Seq<bool>, i: int, k: nat)
    requires
        0 <= i < k <= a.len() == b.len(),
        a[i] && !b[i],
    ensures
        only_in(a, b, k) > 0,
    decreases k,
{
    lemma_only_in_difference(a, b, (k - 1) as nat);
    if i < k - 1 {
        lemma_only_in_positive(a, b, i, (k - 1) as nat);
    }
}

/// An allocation is fully determined by the amount and the weights: any two allocations of the same
/// amount by the same weights agree part by part.
pub proof fn law_allocation_is_deterministic(
    total: int,
    unit: MoneyUnit,
    w: Seq<i64>,
    first: Seq<Money>,
    second: Seq<Money>,
)
    requires
        is_allocation(total, unit, w, first),
        is_allocation(total, unit, w, second),
    ensures
        first.len() == second.len(),
        forall|i: int|
            0 <= i < first.len() ==> (#[trigger] first[i]).minor_of() == second[i].minor_of()
                && first[i].unit_of() == second[i].unit_of(),
{
    let n = w.len();
    let a = Seq::new(n, |i: int| raised(total, w, first, i));
    let b = Seq::new(n, |i: int| raised(total, w, second, i));
    lemma_true_count_of_raised(total, w, first, a, n);
    lemma_true_count_of_raised(total, w, second, b, n);
    lemma_only_in_difference(a, b, n);
    assert forall|i: int| 0 <= i < n implies a[i] == b[i] by {
        if a[i] && !b[i] {
            lemma_only_in_positive(a, b, i, n);
            let j = lemma_only_in_witness(b, a, n);
            assert(raised(total, w, first, i) && !raised(total, w, first, j));
            assert(goes_before(total, w, i, j));
            assert(raised(total, w, second, j) && !raised(total, w, second, i));
            assert(goes_before(total, w, j, i));
            lemma_goes_before_order(total, w, i, j, i);
        } else if b[i] && !a[i] {
            lemma_only_in_positive(b, a, i, n);
            let j = lemma_only_in_witness(a, b, n);
            assert(raised(total, w, second, i) && !raised(total, w, second, j));
            assert(goes_before(total, w, i, j));
            assert(raised(total, w, first, j) && !raised(total, w, first, i));
            assert(goes_before(total, w, j, i));
            lemma_goes_before_order(total, w, i, j, i);
        }
    }
    assert forall|i: int| 0 <= i < first.len() implies (#[trigger] first[i]).minor_of()
        == second[i].minor_of() && first[i].unit_of() == second[i].unit_of() by {
        assert(a[i] == b[i]);
    }
}

proof fn lemma_vals_sum(t: int, ws: Seq<i64>, selected: Seq<bool>, vals: Seq<int>, k: nat)
    requires
        k <= ws.len() == vals.len() == selected.len(),
        forall|m: int|
            0 <= m < vals.len() ==> #[trigger] vals[m] == share_floor(t, ws, m) + if selected[m] {
                1int
            } else {
                0int
            },
    ensures
        sum_before(vals, k) == floors_before(t, ws, k) + true_count(selected, k),
    decreases k,
{
    if k > 0 {
        lemma_vals_sum(t, ws, selected, vals, (k - 1) as nat);
    }
}

proof fn lemma_element_le_sum(vals: Seq<int>, i: int, k: nat)
    requires
        0 <= i < k <= vals.len(),
        forall|m: int| 0 <= m < vals.len() ==> #[trigger] vals[m] >= 0,
    ensures
        vals[i] <= sum_before(vals, k),
    decreases k,
{
    if i < k - 1 {
        lemma_element_le_sum(vals, i, (k - 1) as nat);
    } else {
        lemma_sum_before_nonneg_monotone(vals, (k - 1) as nat, (k - 1) as nat);
    }
}

} // verus!
