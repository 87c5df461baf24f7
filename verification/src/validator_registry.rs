//! The validator registry: the set of validators the hub delegates to, and how a new
//! amount is spread over them.
use vstd::prelude::*;

use crate::addr_map::{AddrMap, distinct_keys, has_key, insert_pair, key_index, lemma_insert_pair, lemma_key_index_unique, remove_key};
use crate::host::{Coin, Delegation, FullDelegation, MessageInfo, Msg, Response, StdError, WasmCall};

verus! {

/// A validator in the registry.
#[derive(Clone, Debug)]
pub struct Validator {
    pub address: String,
}

/// A validator with the amount the hub has delegated to it.
#[derive(Clone, Debug)]
pub struct ValidatorResponse {
    pub total_delegated: u128,
    pub address: String,
}

impl ValidatorResponse {
    /// An identical record.
    pub fn copy(&self) -> (r: ValidatorResponse)
        ensures
            r == *self,
    {
        ValidatorResponse { total_delegated: self.total_delegated, address: self.address.clone() }
    }
}

/// The amounts delegated to the first `k` validators.
pub open spec fn delegated_prefix(vs: Seq<ValidatorResponse>, k: int) -> int
    decreases k,
{
    if k <= 0 {
        0
    } else {
        delegated_prefix(vs, k - 1) + vs[k - 1].total_delegated
    }
}

/// The amount delegated to all validators.
pub open spec fn total_delegated(vs: Seq<ValidatorResponse>) -> int {
    delegated_prefix(vs, vs.len() as int)
}

/// The `i`-th validator's share when `total` is spread as evenly as possible over
/// `n` validators, the first `total % n` of them taking one unit more.
pub open spec fn share(total: int, n: int, i: int) -> int {
    total / n + if i < total % n {
        1int
    } else {
        0int
    }
}

/// How far the `i`-th validator is below its share of `total`.
pub open spec fn shortfall(vs: Seq<ValidatorResponse>, total: int, i: int) -> int {
    let t = share(total, vs.len() as int, i);
    if t < vs[i].total_delegated {
        0
    } else {
        t - vs[i].total_delegated
    }
}

/// The sum of the first `k` numbers of `s`.
pub open spec fn sum_prefix(s: Seq<int>, k: int) -> int
    decreases k,
{
    if k <= 0 {
        0
    } else {
        sum_prefix(s, k - 1) + s[k - 1]
    }
}

/// The amounts `calculate_delegations` assigns to the first `k` validators: each in
/// turn gets its shortfall, as far as what is left of `amount` covers it, where the
/// shares spread the delegated total plus `amount`.
pub open spec fn delegation_plan(vs: Seq<ValidatorResponse>, amount: int, k: nat) -> Seq<int>
    decreases k,
{
    if k == 0 {
        Seq::empty()
    } else {
        let p = delegation_plan(vs, amount, (k - 1) as nat);
        let left = amount - sum_prefix(p, p.len() as int);
        let want = shortfall(vs, total_delegated(vs) + amount, k - 1);
        p.push(if want < left { want } else { left })
    }
}

proof fn lemma_plan_len(vs: Seq<ValidatorResponse>, amount: int, k: nat)
    ensures
        delegation_plan(vs, amount, k).len() == k,
    decreases k,
{
    if k > 0 {
        lemma_plan_len(vs, amount, (k - 1) as nat);
    }
}

proof fn lemma_sum_prefix_push(s: Seq<int>, x: int)
    ensures
        sum_prefix(s.push(x), s.len() + 1int) == sum_prefix(s, s.len() as int) + x,
        forall|k: int| k <= s.len() ==> sum_prefix(s.push(x), k) == sum_prefix(s, k),
{
    assert forall|k: int| k <= s.len() implies sum_prefix(s.push(x), k) == sum_prefix(s, k) by {
        lemma_sum_prefix_same(s.push(x), s, k);
    }
    lemma_sum_prefix_same(s.push(x), s, s.len() as int);
}

proof fn lemma_sum_prefix_same(a: Seq<int>, b: Seq<int>, k: int)
    requires
        k <= a.len(),
        k <= b.len(),
        forall|i: int| 0 <= i < k ==> a[i] == b[i],
    ensures
        sum_prefix(a, k) == sum_prefix(b, k),
    decreases k,
{
    if k > 0 {
        lemma_sum_prefix_same(a, b, k - 1);
    }
}

/// The shares of the first `k` validators add up to `k * (total / n) + min(k, total % n)`.
proof fn lemma_share_prefix(total: int, n: int, k: int)
    requires
        n > 0,
        total >= 0,
        0 <= k <= n,
    ensures
        share_prefix(total, n, k) == k * (total / n) + if k < total % n {
            k
        } else {
            total % n
        },
    decreases k,
{
    if k > 0 {
        lemma_share_prefix(total, n, k - 1);
        let q = total / n;
        let r = total % n;
        assert(0 <= r < n);
        assert(k * q == (k - 1) * q + q) by (nonlinear_arith);
        assert(share(total, n, k - 1) == q + if k - 1 < r { 1int } else { 0int });
    } else {
        assert(0 * (total / n) == 0);
        assert(total % n >= 0);
    }
}

/// The sum of the shares of the first `k` validators.
pub open spec fn share_prefix(total: int, n: int, k: int) -> int
    decreases k,
{
    if k <= 0 {
        0
    } else {
        share_prefix(total, n, k - 1) + share(total, n, k - 1)
    }
}

/// The sum of the shortfalls of the first `k` validators.
pub open spec fn shortfall_prefix(vs: Seq<ValidatorResponse>, total: int, k: int) -> int
    decreases k,
{
    if k <= 0 {
        0
    } else {
        shortfall_prefix(vs, total, k - 1) + shortfall(vs, total, k - 1)
    }
}

/// Shortfalls add up to at least the shares minus what is delegated.
proof fn lemma_shortfall_prefix(vs: Seq<ValidatorResponse>, total: int, k: int)
    requires
        0 <= k <= vs.len(),
    ensures
        shortfall_prefix(vs, total, k) >= share_prefix(total, vs.len() as int, k) - delegated_prefix(vs, k),
        shortfall_prefix(vs, total, k) >= 0,
    decreases k,
{
    if k > 0 {
        lemma_shortfall_prefix(vs, total, k - 1);
    }
}

/// What is left of `amount` after the first `k` validators is what their shortfalls
/// did not use up.
proof fn lemma_plan_left(vs: Seq<ValidatorResponse>, amount: int, k: nat)
    requires
        amount >= 0,
        k <= vs.len(),
    ensures
        delegation_plan(vs, amount, k).len() == k,
        amount - sum_prefix(delegation_plan(vs, amount, k), k as int) == if amount
            - shortfall_prefix(vs, total_delegated(vs) + amount, k as int) > 0 {
            amount - shortfall_prefix(vs, total_delegated(vs) + amount, k as int)
        } else {
            0
        },
        forall|i: int| 0 <= i < k ==> #[trigger] delegation_plan(vs, amount, k)[i] >= 0,
    decreases k,
{
    lemma_plan_len(vs, amount, k);
    if k > 0 {
        let p = delegation_plan(vs, amount, (k - 1) as nat);
        lemma_plan_left(vs, amount, (k - 1) as nat);
        let total = total_delegated(vs) + amount;
        let want = shortfall(vs, total, k - 1);
        let left = amount - sum_prefix(p, p.len() as int);
        let x = if want < left { want } else { left };
        lemma_sum_prefix_push(p, x);
        assert(delegation_plan(vs, amount, k) == p.push(x));
    }
}

/// When there is at least one validator, the planned delegations add up to the
/// whole amount.
pub proof fn lemma_plan_delegates_everything(vs: Seq<ValidatorResponse>, amount: int)
    requires
        vs.len() > 0,
        amount >= 0,
        forall|i: int| 0 <= i < vs.len() ==> #[trigger] vs[i].total_delegated >= 0,
    ensures
        delegation_plan(vs, amount, vs.len()).len() == vs.len(),
        sum_prefix(delegation_plan(vs, amount, vs.len()), vs.len() as int) == amount,
        forall|i: int| 0 <= i < vs.len() ==> #[trigger] delegation_plan(vs, amount, vs.len())[i] >= 0,
{
    let n = vs.len() as int;
    let total = total_delegated(vs) + amount;
    lemma_delegated_nonneg(vs, n);
    lemma_share_prefix(total, n, n);
    assert(n * (total / n) + total % n == total) by (nonlinear_arith)
        requires
            n > 0,
    ;
    lemma_shortfall_prefix(vs, total, n);
    lemma_plan_left(vs, amount, vs.len());
}

proof fn lemma_delegated_nonneg(vs: Seq<ValidatorResponse>, k: int)
    requires
        0 <= k <= vs.len(),
    ensures
        delegated_prefix(vs, k) >= 0,
    decreases k,
{
    if k > 0 {
        lemma_delegated_nonneg(vs, k - 1);
    }
}

/// Spreads `amount_to_delegate` over the validators so that each is brought as close
/// as possible to an equal share of everything delegated, in validator order. Fails
/// when there is no validator. The delegated total plus the amount must fit in 128
/// bits (the contract panics otherwise).
pub fn calculate_delegations(
    amount_to_delegate: u128,
    validators: &Vec<ValidatorResponse>,
) -> (r: Result<Vec<u128>, StdError>)
    requires
        total_delegated(validators@) + amount_to_delegate <= u128::MAX,
    ensures
        validators@.len() == 0 ==> r == Err::<Vec<u128>, StdError>(
            StdError::Generic { msg: "Empty validators set" },
        ),
        validators@.len() > 0 ==> r is Ok,
        r matches Ok(d) ==> {
            &&& d@.len() == validators@.len()
            &&& forall|i: int|
                0 <= i < d@.len() ==> #[trigger] d@[i] == delegation_plan(
                    validators@,
                    amount_to_delegate as int,
                    validators@.len(),
                )[i]
            &&& sum_prefix(
                delegation_plan(validators@, amount_to_delegate as int, validators@.len()),
                d@.len() as int,
            ) == amount_to_delegate
        },
{
    let n = validators.len();
    if n == 0 {
        return Err(StdError::Generic { msg: "Empty validators set" });
    }
    let mut delegated: u128 = 0;
    let mut i: usize = 0;
    while i < n
        invariant
            n == validators@.len(),
            0 <= i <= n,
            delegated == delegated_prefix(validators@, i as int),
            total_delegated(validators@) + amount_to_delegate <= u128::MAX,
        decreases n - i,
    {
        proof {
            lemma_delegated_le(validators@, i as int + 1, n as int);
        }
        delegated = delegated + validators[i].total_delegated;
        i = i + 1;
    }
    let total: u128 = delegated + amount_to_delegate;
    let per: u128 = total / (n as u128);
    let extra_count: u128 = total % (n as u128);
    let mut left: u128 = amount_to_delegate;
    let mut d: Vec<u128> = Vec::new();
    let ghost vs = validators@;
    let ghost amount = amount_to_delegate as int;
    let mut j: usize = 0;
    while j < n
        invariant
            n == vs.len(),
            vs == validators@,
            0 <= j <= n,
            total == total_delegated(vs) + amount,
            per == (total as int) / (n as int),
            extra_count == (total as int) % (n as int),
            d@.len() == j,
            delegation_plan(vs, amount, j as nat).len() == j,
            forall|k: int| 0 <= k < j ==> #[trigger] d@[k] == delegation_plan(vs, amount, j as nat)[k],
            left == amount - sum_prefix(delegation_plan(vs, amount, j as nat), j as int),
            0 <= left <= amount,
        decreases n - j,
    {
        let ghost p = delegation_plan(vs, amount, j as nat);
        proof {
            lemma_plan_len(vs, amount, j as nat + 1);
        }
        let extra: u128 = if (j as u128) < extra_count { 1 } else { 0 };
        proof {
            let nn = n as int;
            let tt = total as int;
            assert(nn * (tt / nn) + tt % nn == tt) by (nonlinear_arith)
                requires
                    nn > 0,
            ;
            assert(tt / nn <= tt) by (nonlinear_arith)
                requires
                    nn > 0,
                    tt >= 0,
            ;
            if extra == 1 {
                assert(tt / nn + 1 <= tt) by (nonlinear_arith)
                    requires
                        nn > 0,
                        tt >= 0,
                        tt % nn >= 1,
                        nn * (tt / nn) + tt % nn == tt,
                ;
            }
        }
        let target: u128 = per + extra;
        let x: u128 = if target < validators[j].total_delegated {
            0
        } else {
            let want = target - validators[j].total_delegated;
            if want < left { want } else { left }
        };
        proof {
            let want = shortfall(vs, total as int, j as int);
            assert(share(total as int, n as int, j as int) == target);
            assert(x == (if want < left { want } else { left as int }));
            lemma_sum_prefix_push(p, x as int);
            assert(delegation_plan(vs, amount, j as nat + 1) == p.push(x as int));
        }
        d.push(x);
        left = left - x;
        j = j + 1;
    }
    proof {
        lemma_plan_delegates_everything(vs, amount);
    }
    Ok(d)
}

proof fn lemma_delegated_le(vs: Seq<ValidatorResponse>, k: int, n: int)
    requires
        0 <= k <= n <= vs.len(),
    ensures
        delegated_prefix(vs, k) <= delegated_prefix(vs, n),
    decreases n - k,
{
    if k < n {
        lemma_delegated_le(vs, k + 1, n);
    }
}

/// The validators of `s` with `k` delegated, in their order in `s`.
pub open spec fn with_amount(s: Seq<ValidatorResponse>, k: u128) -> Seq<ValidatorResponse>
    decreases s.len(),
{
    if s.len() == 0 {
        Seq::empty()
    } else if s.last().total_delegated == k {
        with_amount(s.drop_last(), k).push(s.last())
    } else {
        with_amount(s.drop_last(), k)
    }
}

/// The delegated amounts of `s` ascend.
pub open spec fn ascending(s: Seq<ValidatorResponse>) -> bool {
    forall|i: int, j: int| 0 <= i <= j < s.len() ==> s[i].total_delegated <= s[j].total_delegated
}

/// `r` is `s` ordered by delegated amount, ascending, validators with equal amounts
/// keeping their order in `s`.
pub open spec fn sorted_by_delegation_of(s: Seq<ValidatorResponse>, r: Seq<ValidatorResponse>) -> bool {
    &&& r.len() == s.len()
    &&& ascending(r)
    &&& forall|k: u128| #[trigger] with_amount(r, k) == with_amount(s, k)
}

/// The validators of `s` ordered by delegated amount, ascending, validators with
/// equal amounts keeping their order (there is one such order: see
/// `lemma_sorted_by_delegation_unique`).
pub open spec fn sorted_by_delegation(s: Seq<ValidatorResponse>) -> Seq<ValidatorResponse> {
    choose|r: Seq<ValidatorResponse>| sorted_by_delegation_of(s, r)
}

proof fn lemma_with_amount_concat(a: Seq<ValidatorResponse>, b: Seq<ValidatorResponse>, k: u128)
    ensures
        with_amount(a + b, k) == with_amount(a, k) + with_amount(b, k),
    decreases b.len(),
{
    if b.len() == 0 {
        assert(a + b =~= a);
        assert(with_amount(a, k) + with_amount(b, k) =~= with_amount(a, k));
    } else {
        lemma_with_amount_concat(a, b.drop_last(), k);
        assert((a + b).drop_last() =~= a + b.drop_last());
        assert((a + b).last() == b.last());
        if b.last().total_delegated == k {
            assert(with_amount(a, k) + with_amount(b.drop_last(), k).push(b.last()) =~= (with_amount(a, k)
                + with_amount(b.drop_last(), k)).push(b.last()));
        }
    }
}

proof fn lemma_with_amount_single(x: ValidatorResponse, k: u128)
    ensures
        with_amount(seq![x], k) == if x.total_delegated == k {
            seq![x]
        } else {
            Seq::<ValidatorResponse>::empty()
        },
        total_delegated(seq![x]) == x.total_delegated,
{
    let e = Seq::<ValidatorResponse>::empty();
    assert(seq![x].drop_last() =~= e);
    assert(with_amount(e, k) == e);
    assert(delegated_prefix(seq![x], 0) == 0);
    assert(e.push(x) =~= seq![x]);
}

proof fn lemma_with_amount_none(s: Seq<ValidatorResponse>, k: u128)
    requires
        forall|i: int| 0 <= i < s.len() ==> #[trigger] s[i].total_delegated != k,
    ensures
        with_amount(s, k) == Seq::<ValidatorResponse>::empty(),
    decreases s.len(),
{
    if s.len() > 0 {
        assert forall|i: int| 0 <= i < s.drop_last().len() implies #[trigger] s.drop_last()[i].total_delegated
            != k by {
            assert(s.drop_last()[i] == s[i]);
        }
        lemma_with_amount_none(s.drop_last(), k);
    }
}

proof fn lemma_with_amount_member(s: Seq<ValidatorResponse>, k: u128)
    requires
        with_amount(s, k).len() > 0,
    ensures
        exists|i: int| 0 <= i < s.len() && #[trigger] s[i].total_delegated == k,
    decreases s.len(),
{
    if s.last().total_delegated != k {
        lemma_with_amount_member(s.drop_last(), k);
        let i = choose|i: int| 0 <= i < s.drop_last().len() && #[trigger] s.drop_last()[i].total_delegated == k;
        assert(s[i] == s.drop_last()[i]);
    } else {
        assert(s[s.len() - 1].total_delegated == k);
    }
}

proof fn lemma_delegated_concat(a: Seq<ValidatorResponse>, b: Seq<ValidatorResponse>)
    ensures
        total_delegated(a + b) == total_delegated(a) + total_delegated(b),
    decreases b.len(),
{
    if b.len() > 0 {
        lemma_delegated_concat(a, b.drop_last());
        assert((a + b).drop_last() =~= a + b.drop_last());
        lemma_delegated_prefix_same(a + b, a + b.drop_last(), (a + b).len() - 1);
        lemma_delegated_prefix_same(b, b.drop_last(), b.len() - 1);
    } else {
        assert(a + b =~= a);
    }
}

proof fn lemma_delegated_prefix_same(a: Seq<ValidatorResponse>, b: Seq<ValidatorResponse>, k: int)
    requires
        0 <= k <= a.len(),
        k <= b.len(),
        forall|i: int| 0 <= i < k ==> a[i] == b[i],
    ensures
        delegated_prefix(a, k) == delegated_prefix(b, k),
    decreases k,
{
    if k > 0 {
        lemma_delegated_prefix_same(a, b, k - 1);
    }
}

/// There is one way to order validators by delegated amount keeping the order of
/// equal amounts: two such orderings of the same validators are equal.
pub proof fn lemma_sorted_by_delegation_unique(
    s: Seq<ValidatorResponse>,
    r1: Seq<ValidatorResponse>,
    r2: Seq<ValidatorResponse>,
)
    requires
        sorted_by_delegation_of(s, r1),
        sorted_by_delegation_of(s, r2),
    ensures
        r1 == r2,
    decreases r1.len(),
{
    if r1.len() > 0 {
        let k1 = r1.last().total_delegated;
        let k2 = r2.last().total_delegated;
        assert(with_amount(r1, k1).len() > 0);
        assert(with_amount(r2, k1) == with_amount(s, k1));
        lemma_with_amount_member(r2, k1);
        assert(with_amount(r2, k2).len() > 0);
        assert(with_amount(r1, k2) == with_amount(s, k2));
        lemma_with_amount_member(r1, k2);
        assert(k1 == k2);
        assert(with_amount(r1, k1).last() == r1.last());
        assert(with_amount(r2, k1).last() == r2.last());
        let t1 = r1.drop_last();
        let t2 = r2.drop_last();
        assert forall|k: u128| #[trigger] with_amount(t2, k) == with_amount(t1, k) by {
            assert(with_amount(r1, k) == with_amount(s, k));
            assert(with_amount(r2, k) == with_amount(s, k));
            if k == k1 {
                assert(with_amount(t1, k) =~= with_amount(r1, k).drop_last());
                assert(with_amount(t2, k) =~= with_amount(r2, k).drop_last());
            }
        }
        assert(ascending(t2)) by {
            assert forall|i: int, j: int| 0 <= i <= j < t2.len() implies t2[i].total_delegated
                <= t2[j].total_delegated by {
                assert(t2[i] == r2[i] && t2[j] == r2[j]);
            }
        }
        assert(ascending(t1)) by {
            assert forall|i: int, j: int| 0 <= i <= j < t1.len() implies t1[i].total_delegated
                <= t1[j].total_delegated by {
                assert(t1[i] == r1[i] && t1[j] == r1[j]);
            }
        }
        lemma_sorted_by_delegation_unique(t1, t1, t2);
        assert(r1 =~= t1.push(r1.last()));
        assert(r2 =~= t2.push(r2.last()));
    } else {
        assert(r1 =~= r2);
    }
}

/// The validators ordered by delegated amount, ascending; validators with equal
/// amounts keep their order. The delegated total is unchanged.
pub fn sort_by_delegation(validators: Vec<ValidatorResponse>) -> (r: Vec<ValidatorResponse>)
    ensures
        sorted_by_delegation_of(validators@, r@),
        r@ == sorted_by_delegation(validators@),
        total_delegated(r@) == total_delegated(validators@),
{
    let ghost s = validators@;
    let n = validators.len();
    let mut r: Vec<ValidatorResponse> = Vec::new();
    let mut i: usize = 0;
    while i < n
        invariant
            n == s.len(),
            s == validators@,
            0 <= i <= n,
            r@.len() == i,
            ascending(r@),
            forall|k: u128| #[trigger] with_amount(r@, k) == with_amount(s.take(i as int), k),
            total_delegated(r@) == delegated_prefix(s, i as int),
        decreases n - i,
    {
        let x = validators[i].copy();
        let ghost xv = s[i as int];
        let mut p: usize = 0;
        while p < r.len() && r[p].total_delegated <= validators[i].total_delegated
            invariant
                0 <= p <= r@.len(),
                forall|q: int| 0 <= q < p ==> #[trigger] r@[q].total_delegated <= s[i as int].total_delegated,
                i < n,
                n == s.len(),
                s == validators@,
            decreases r@.len() - p,
        {
            p = p + 1;
        }
        let ghost before = r@;
        proof {
            assert forall|q: int| p <= q < before.len() implies #[trigger] before[q].total_delegated
                > xv.total_delegated by {
                assert(before[p as int].total_delegated > xv.total_delegated);
                assert(before[p as int].total_delegated <= before[q].total_delegated);
            }
        }
        r.insert(p, x);
        proof {
            let a = before.take(p as int);
            let b = before.skip(p as int);
            assert(before =~= a + b);
            assert(r@ =~= a + seq![xv] + b);
            assert(s.take(i + 1) =~= s.take(i as int).push(xv));
            assert forall|k: u128| #[trigger] with_amount(r@, k) == with_amount(s.take(i + 1), k) by {
                lemma_with_amount_concat(a, b, k);
                lemma_with_amount_concat(a + seq![xv], b, k);
                lemma_with_amount_concat(a, seq![xv], k);
                lemma_with_amount_single(xv, k);
                assert(with_amount(s.take(i as int), k) == with_amount(before, k));
                assert((s.take(i + 1)).drop_last() =~= s.take(i as int));
                assert((s.take(i + 1)).last() == xv);
                if k == xv.total_delegated {
                    assert forall|q: int| 0 <= q < b.len() implies #[trigger] b[q].total_delegated != k by {
                        assert(b[q] == before[q + p]);
                    }
                    lemma_with_amount_none(b, k);
                    assert(with_amount(a, k) + seq![xv] + Seq::<ValidatorResponse>::empty() =~= (with_amount(a, k)
                        + with_amount(b, k)).push(xv));
                } else {
                    assert(with_amount(a, k) + Seq::<ValidatorResponse>::empty() + with_amount(b, k) =~= with_amount(a, k)
                        + with_amount(b, k));
                }
            }
            lemma_delegated_concat(a, b);
            lemma_delegated_concat(a + seq![xv], b);
            lemma_delegated_concat(a, seq![xv]);
            lemma_with_amount_single(xv, 0);
            assert forall|x1: int, x2: int| 0 <= x1 <= x2 < r@.len() implies r@[x1].total_delegated
                <= r@[x2].total_delegated by {
                if x1 < p && x2 > p {
                    assert(r@[x2] == before[x2 - 1]);
                } else if x1 < p && x2 == p {
                } else if x1 < p {
                    assert(r@[x1] == before[x1] && r@[x2] == before[x2]);
                } else if x1 == p && x2 > p {
                    assert(r@[x2] == before[x2 - 1]);
                } else if x1 > p {
                    assert(r@[x1] == before[x1 - 1] && r@[x2] == before[x2 - 1]);
                }
            }
        }
        i = i + 1;
    }
    proof {
        assert(s.take(n as int) =~= s);
        lemma_sorted_by_delegation_unique(s, r@, sorted_by_delegation(s));
    }
    r
}

/// The registry's configuration.
#[derive(Debug)]
pub struct Config {
    pub owner: String,
    pub staking_nibi_contract: String,
}

/// What the registry is instantiated with: the first validators and the hub.
#[derive(Debug)]
pub struct InstantiateMsg {
    pub registry: Vec<Validator>,
    pub staking_nibi_contract: String,
}

/// The registry's messages.
#[derive(Debug)]
pub enum ExecuteMsg {
    AddValidator { validator: Validator },
    RemoveValidator { address: String },
    UpdateConfig { owner: Option<String>, hub_contract: Option<String> },
}

/// The registry's queries.
#[derive(Clone, Copy, Debug, PartialEq, Eq, Structural)]
pub enum QueryMsg {
    /// The validators with the hub's delegation to each.
    GetValidatorsForDelegation,
    /// The configuration.
    Config,
}

#[derive(Clone, Copy, Debug, PartialEq, Eq, Structural)]
pub struct MigrateMsg {}

/// The registry's storage: its configuration and its validators by address.
pub struct RegistryStore {
    pub config: Config,
    pub registry: AddrMap<Validator>,
}

impl Validator {
    /// An identical validator.
    pub fn copy(&self) -> (r: Validator)
        ensures
            r == *self,
    {
        Validator { address: self.address.clone() }
    }
}

/// `s` after storing each of the first `k` validators of `vs` under its address.
pub open spec fn registry_with(s: Seq<(Seq<char>, Validator)>, vs: Seq<Validator>, k: int) -> Seq<(Seq<char>, Validator)>
    decreases k,
{
    if k <= 0 {
        s
    } else {
        insert_pair(registry_with(s, vs, k - 1), vs[k - 1].address@, vs[k - 1])
    }
}

/// Creates the registry with the validators of `msg`, each stored under its address;
/// the sender becomes the owner. The hub must pass the host's check (`hub_check` is
/// its outcome).
pub fn instantiate(
    info: &MessageInfo,
    msg: InstantiateMsg,
    hub_check: Result<(), StdError>,
) -> (r: Result<(RegistryStore, Response), StdError>)
    ensures
        hub_check is Err ==> r == Err::<(RegistryStore, Response), StdError>(hub_check->Err_0),
        hub_check is Ok ==> (r matches Ok((store, res)) && store.config == (Config {
            owner: info.sender,
            staking_nibi_contract: msg.staking_nibi_contract,
        }) && store.registry@ == registry_with(
            Seq::empty(),
            msg.registry@,
            msg.registry@.len() as int,
        ) && res.messages@.len() == 0 && res.attributes@.len() == 0),
{
    if let Err(e) = hub_check {
        return Err(e);
    }
    let mut registry: AddrMap<Validator> = AddrMap::new();
    let n = msg.registry.len();
    let mut i: usize = 0;
    while i < n
        invariant
            n == msg.registry@.len(),
            0 <= i <= n,
            registry@ == registry_with(Seq::empty(), msg.registry@, i as int),
        decreases n - i,
    {
        let v = msg.registry[i].copy();
        let _ = registry.insert(msg.registry[i].address.clone(), v);
        i = i + 1;
    }
    let store = RegistryStore {
        config: Config { owner: info.sender.clone(), staking_nibi_contract: msg.staking_nibi_contract },
        registry,
    };
    Ok((store, Response { messages: Vec::new(), attributes: Vec::new() }))
}

/// The redelegations for the planned amounts `plan` of the first `k` validators of
/// `vs`: one per non-zero amount, to that validator, in `denom`.
pub open spec fn redelegation_pairs(vs: Seq<ValidatorResponse>, plan: Seq<int>, denom: String, k: int) -> Seq<
    (String, Coin),
>
    decreases k,
{
    if k <= 0 {
        Seq::empty()
    } else {
        let p = redelegation_pairs(vs, plan, denom, k - 1);
        if plan[k - 1] == 0 {
            p
        } else {
            p.push((vs[k - 1].address, Coin { denom, amount: plan[k - 1] as u128 }))
        }
    }
}

/// The amount that the redelegations `pairs` move.
pub open spec fn redelegated(pairs: Seq<(String, Coin)>) -> int
    decreases pairs.len(),
{
    if pairs.len() == 0 {
        0
    } else {
        redelegated(pairs.drop_last()) + pairs.last().1.amount
    }
}

proof fn lemma_redelegation_total(vs: Seq<ValidatorResponse>, plan: Seq<int>, denom: String, k: int)
    requires
        0 <= k <= plan.len(),
        forall|i: int| 0 <= i < plan.len() ==> 0 <= #[trigger] plan[i] <= u128::MAX,
    ensures
        redelegated(redelegation_pairs(vs, plan, denom, k)) == sum_prefix(plan, k),
    decreases k,
{
    if k > 0 {
        lemma_redelegation_total(vs, plan, denom, k - 1);
        let p = redelegation_pairs(vs, plan, denom, k - 1);
        if plan[k - 1] != 0 {
            let e = (vs[k - 1].address, Coin { denom, amount: plan[k - 1] as u128 });
            assert(p.push(e).drop_last() =~= p);
        }
    }
}

/// What `remove_validator` answers once the validator is removed, given the
/// remaining validators `vs` and the hub's delegation to the removed one: nothing
/// when there is no such delegation, or when not all of it can be redelegated now;
/// otherwise a call on the hub that redelegates all of it over the remaining
/// validators, ordered by delegated amount, then a call that dispatches the rewards.
pub open spec fn removal_messages(
    hub: String,
    removed: String,
    vs: Seq<ValidatorResponse>,
    delegation: Result<Option<FullDelegation>, StdError>,
    msgs: Seq<Msg>,
) -> bool {
    match delegation {
        Ok(Some(d)) => if d.can_redelegate.amount < d.amount.amount {
            msgs.len() == 0
        } else {
            let sorted = sorted_by_delegation(vs);
            let plan = delegation_plan(sorted, d.amount.amount as int, sorted.len());
            &&& msgs.len() == 2
            &&& msgs[0] matches Msg::Execute {
                contract_addr,
                call: WasmCall::RedelegateProxy { src_validator, redelegations },
                funds,
            } && contract_addr == hub && src_validator == removed && funds@.len() == 0
                && redelegations@ == redelegation_pairs(sorted, plan, d.amount.denom, sorted.len() as int)
                && redelegated(redelegations@) == d.amount.amount
            &&& msgs[1] matches Msg::Execute { contract_addr, call: WasmCall::DispatchRewards, funds }
                && contract_addr == hub && funds@.len() == 0
        },
        _ => msgs.len() == 0,
    }
}

/// What `execute_update_config` does.
pub open spec fn update_config_done(
    old: &RegistryStore,
    new: &RegistryStore,
    info: &MessageInfo,
    owner: Option<String>,
    staking_nibi_contract: Option<String>,
    owner_check: Result<(), StdError>,
    hub_check: Result<(), StdError>,
    r: Result<Response, StdError>,
) -> bool {
    &&& new.registry@ == old.registry@
    &&& if info.sender@ != old.config.owner@ {
        r == Err::<Response, StdError>(StdError::Generic { msg: "unauthorized" })
            && new.config == old.config
    } else if owner is Some && owner_check is Err {
        r == Err::<Response, StdError>(owner_check->Err_0) && new.config == old.config
    } else if staking_nibi_contract is Some && hub_check is Err {
        r == Err::<Response, StdError>(hub_check->Err_0) && new.config == old.config
    } else {
        &&& r matches Ok(res) && res.messages@.len() == 0 && res.attributes@.len() == 0
        &&& new.config == (Config {
            owner: match owner {
                Some(o) => o,
                None => old.config.owner,
            },
            staking_nibi_contract: match staking_nibi_contract {
                Some(h) => h,
                None => old.config.staking_nibi_contract,
            },
        })
    }
}

/// What `add_validator` does.
pub open spec fn add_validator_done(
    old: &RegistryStore,
    new: &RegistryStore,
    info: &MessageInfo,
    validator: Validator,
    r: Result<Response, StdError>,
) -> bool {
    &&& new.config == old.config
    &&& if info.sender@ == old.config.owner@ || info.sender@ == old.config.staking_nibi_contract@ {
        &&& r matches Ok(res) && res.messages@.len() == 0 && res.attributes@.len() == 0
        &&& new.registry@ == insert_pair(old.registry@, validator.address@, validator)
    } else {
        r == Err::<Response, StdError>(StdError::Generic { msg: "unauthorized" }) && new.registry@ == old.registry@
    }
}

/// The registry's validators other than `removed`, in registry order, each with what
/// the hub's delegations `ds` report as delegated to it.
pub open spec fn remaining_validators(
    reg: Seq<(Seq<char>, Validator)>,
    removed: Seq<char>,
    ds: Seq<Delegation>,
) -> Seq<ValidatorResponse> {
    validators_with_delegations(remove_key(reg, removed), ds)
}

/// What `remove_validator` does. `hub_delegations` is the outcome of the query for
/// all of the hub's delegations, `delegation` that of the query for its delegation to
/// the removed validator.
pub open spec fn remove_validator_done(
    old: &RegistryStore,
    new: &RegistryStore,
    info: &MessageInfo,
    validator_address: String,
    hub_delegations: Result<Vec<Delegation>, StdError>,
    delegation: Result<Option<FullDelegation>, StdError>,
    r: Result<Response, StdError>,
) -> bool {
    &&& new.config == old.config
    &&& if info.sender@ != old.config.owner@ {
        r == Err::<Response, StdError>(StdError::Generic { msg: "unauthorized" })
            && new.registry@ == old.registry@
    } else {
        match hub_delegations {
            Err(e) => r == Err::<Response, StdError>(e) && new.registry@ == old.registry@,
            Ok(ds) => if remove_key(old.registry@, validator_address@).len() == 0 {
                r == Err::<Response, StdError>(
                    StdError::Generic { msg: "Cannot remove the last validator in the registry" },
                ) && new.registry@ == old.registry@
            } else {
                &&& new.registry@ == remove_key(old.registry@, validator_address@)
                &&& r matches Ok(res) && res.attributes@.len() == 0 && removal_messages(
                    old.config.staking_nibi_contract,
                    validator_address,
                    remaining_validators(old.registry@, validator_address@, ds@),
                    delegation,
                    res.messages@,
                )
            },
        }
    }
}

/// The redelegation of a removal fits: the remaining validators' delegations plus
/// the hub's delegation to the removed one fit in 128 bits (the contract panics
/// otherwise).
pub open spec fn removal_fits(
    store: &RegistryStore,
    info: &MessageInfo,
    validator_address: Seq<char>,
    hub_delegations: Result<Vec<Delegation>, StdError>,
    delegation: Result<Option<FullDelegation>, StdError>,
) -> bool {
    info.sender@ == store.config.owner@ && hub_delegations is Ok && delegation is Ok && delegation->Ok_0 is Some
        ==> total_delegated(remaining_validators(store.registry@, validator_address, hub_delegations->Ok_0@))
        + delegation->Ok_0->Some_0.amount.amount <= u128::MAX
}

impl RegistryStore {
    /// Handles a message: adds or removes a validator, or updates the configuration.
    /// `owner_check` and `hub_check` are the outcomes of the host's checks of the
    /// addresses an update gives; `hub_delegations` and `delegation` those of the
    /// queries a removal makes.
    pub fn execute(
        &mut self,
        info: &MessageInfo,
        msg: ExecuteMsg,
        owner_check: Result<(), StdError>,
        hub_check: Result<(), StdError>,
        hub_delegations: Result<Vec<Delegation>, StdError>,
        delegation: Result<Option<FullDelegation>, StdError>,
    ) -> (r: Result<Response, StdError>)
        requires
            msg matches ExecuteMsg::RemoveValidator { address } ==> removal_fits(
                old(self),
                info,
                address@,
                hub_delegations,
                delegation,
            ),
        ensures
            match msg {
                ExecuteMsg::AddValidator { validator } => add_validator_done(old(self), final(self), info, validator, r),
                ExecuteMsg::RemoveValidator { address } => remove_validator_done(
                    old(self),
                    final(self),
                    info,
                    address,
                    hub_delegations,
                    delegation,
                    r,
                ),
                ExecuteMsg::UpdateConfig { owner, hub_contract } => update_config_done(
                    old(self),
                    final(self),
                    info,
                    owner,
                    hub_contract,
                    owner_check,
                    hub_check,
                    r,
                ),
            },
    {
        match msg {
            ExecuteMsg::AddValidator { validator } => self.add_validator(info, validator),
            ExecuteMsg::RemoveValidator { address } => self.remove_validator(
                info,
                address,
                hub_delegations,
                delegation,
            ),
            ExecuteMsg::UpdateConfig { owner, hub_contract } => self.execute_update_config(
                info,
                owner,
                hub_contract,
                owner_check,
                hub_check,
            ),
        }
    }

    /// Updates the owner and the hub, each where one is given; only the owner may.
    /// Each address must pass the host's check (`owner_check` and `hub_check` are the
    /// outcomes).
    pub fn execute_update_config(
        &mut self,
        info: &MessageInfo,
        owner: Option<String>,
        staking_nibi_contract: Option<String>,
        owner_check: Result<(), StdError>,
        hub_check: Result<(), StdError>,
    ) -> (r: Result<Response, StdError>)
        ensures
            update_config_done(old(self), final(self), info, owner, staking_nibi_contract, owner_check, hub_check, r),

    {
        if info.sender != self.config.owner {
            return Err(StdError::Generic { msg: "unauthorized" });
        }
        if owner.is_some() {
            if let Err(e) = owner_check {
                return Err(e);
            }
        }
        if staking_nibi_contract.is_some() {
            if let Err(e) = hub_check {
                return Err(e);
            }
        }
        match owner {
            Some(o) => {
                self.config.owner = o;
            },
            None => {},
        }
        match staking_nibi_contract {
            Some(h) => {
                self.config.staking_nibi_contract = h;
            },
            None => {},
        }
        Ok(Response { messages: Vec::new(), attributes: Vec::new() })
    }

    /// Adds a validator, or replaces the one with its address; the owner and the hub
    /// may.
    pub fn add_validator(&mut self, info: &MessageInfo, validator: Validator) -> (r: Result<Response, StdError>)
        ensures
            add_validator_done(old(self), final(self), info, validator, r),

    {
        if !(info.sender == self.config.owner || info.sender == self.config.staking_nibi_contract) {
            return Err(StdError::Generic { msg: "unauthorized" });
        }
        let key = validator.address.clone();
        let _ = self.registry.insert(key, validator);
        Ok(Response { messages: Vec::new(), attributes: Vec::new() })
    }

    /// Removes a validator; only the owner may, and not the last one. The hub's
    /// delegation to it is then redelegated over the remaining validators, ordered by
    /// the hub's delegation to each, when all of it can be. `hub_delegations` is the
    /// outcome of the query for all of the hub's delegations, `delegation` that of the
    /// query for its delegation to the removed validator (a failed query leaves the
    /// delegation where it is).
    pub fn remove_validator(
        &mut self,
        info: &MessageInfo,
        validator_address: String,
        hub_delegations: Result<Vec<Delegation>, StdError>,
        delegation: Result<Option<FullDelegation>, StdError>,
    ) -> (r: Result<Response, StdError>)
        requires
            removal_fits(old(self), info, validator_address@, hub_delegations, delegation),
        ensures
            remove_validator_done(old(self), final(self), info, validator_address, hub_delegations, delegation, r),
    {
        if info.sender != self.config.owner {
            return Err(StdError::Generic { msg: "unauthorized" });
        }
        if let Err(e) = &hub_delegations {
            return Err(e.duplicate());
        }
        let n = self.registry.len();
        if n == 0 || (n == 1 && self.registry.contains_key(&validator_address)) {
            return Err(StdError::Generic { msg: "Cannot remove the last validator in the registry" });
        }
        self.registry.remove(&validator_address);
        let validators = match self.query_validators(&hub_delegations) {
            Ok(v) => v,
            Err(e) => {
                return Err(e);
            },
        };
        let ghost vs = validators@;
        let sorted = sort_by_delegation(validators);
        let hub_address = self.config.staking_nibi_contract.clone();
        let mut messages: Vec<Msg> = Vec::new();
        if let Ok(Some(d)) = delegation {
            if d.can_redelegate.amount < d.amount.amount {
                return Ok(Response { messages: Vec::new(), attributes: Vec::new() });
            }
            let planned = calculate_delegations(d.amount.amount, &sorted)?;
            let ghost plan = delegation_plan(sorted@, d.amount.amount as int, sorted@.len());
            proof {
                lemma_plan_delegates_everything(sorted@, d.amount.amount as int);
            }
            let mut redelegations: Vec<(String, Coin)> = Vec::new();
            let n = planned.len();
            let mut i: usize = 0;
            while i < n
                invariant
                    n == planned@.len(),
                    n == sorted@.len(),
                    0 <= i <= n,
                    plan.len() == n,
                    forall|k: int| 0 <= k < n ==> #[trigger] planned@[k] == plan[k],
                    redelegations@ == redelegation_pairs(sorted@, plan, d.amount.denom, i as int),
                decreases n - i,
            {
                if planned[i] != 0 {
                    redelegations.push(
                        (sorted[i].address.clone(), Coin { denom: d.amount.denom.clone(), amount: planned[i] }),
                    );
                }
                i = i + 1;
            }
            proof {
                assert forall|k: int| 0 <= k < plan.len() implies 0 <= #[trigger] plan[k] <= u128::MAX by {
                    assert(planned@[k] == plan[k]);
                }
                lemma_redelegation_total(sorted@, plan, d.amount.denom, n as int);
            }
            messages.push(Msg::Execute {
                contract_addr: hub_address.clone(),
                call: WasmCall::RedelegateProxy { src_validator: validator_address, redelegations },
                funds: Vec::new(),
            });
            messages.push(Msg::Execute { contract_addr: hub_address, call: WasmCall::DispatchRewards, funds: Vec::new() });
        }
        Ok(Response { messages, attributes: Vec::new() })
    }

    /// The configuration.
    pub fn query_config(&self) -> (r: Config)
        ensures
            r == self.config,
    {
        Config { owner: self.config.owner.clone(), staking_nibi_contract: self.config.staking_nibi_contract.clone() }
    }
}

/// The amount the hub has delegated to `validator` as the delegations `ds` report it:
/// the last report for it counts, and nothing is delegated without one.
pub open spec fn delegated_to(ds: Seq<Delegation>, validator: Seq<char>) -> u128
    decreases ds.len(),
{
    if ds.len() == 0 {
        0
    } else if ds.last().validator@ == validator {
        ds.last().amount.amount
    } else {
        delegated_to(ds.drop_last(), validator)
    }
}

/// The registry's validators `reg`, in registry order, each with what the
/// delegations `ds` report as delegated to it.
pub open spec fn validators_with_delegations(reg: Seq<(Seq<char>, Validator)>, ds: Seq<Delegation>) -> Seq<
    ValidatorResponse,
> {
    reg.map_values(
        |e: (Seq<char>, Validator)|
            ValidatorResponse { total_delegated: delegated_to(ds, e.1.address@), address: e.1.address },
    )
}

/// What the delegations `ds` report as delegated to `validator`.
fn find_delegated(ds: &Vec<Delegation>, validator: &String) -> (r: u128)
    ensures
        r == delegated_to(ds@, validator@),
{
    let mut i: usize = ds.len();
    proof {
        assert(ds@.take(i as int) =~= ds@);
    }
    while i > 0
        invariant
            0 <= i <= ds@.len(),
            delegated_to(ds@, validator@) == delegated_to(ds@.take(i as int), validator@),
        decreases i,
    {
        let ghost t = ds@.take(i as int);
        proof {
            assert(t.drop_last() =~= ds@.take(i - 1));
        }
        if ds[i - 1].validator == *validator {
            return ds[i - 1].amount.amount;
        }
        i = i - 1;
    }
    0
}

impl RegistryStore {
    /// The registry's validators, in registry order, each with the hub's delegation
    /// to it; `delegations` is the outcome of the query for all of the hub's
    /// delegations.
    pub fn query_validators(&self, delegations: &Result<Vec<Delegation>, StdError>) -> (r: Result<
        Vec<ValidatorResponse>,
        StdError,
    >)
        ensures
            match delegations {
                Err(e) => r == Err::<Vec<ValidatorResponse>, StdError>(*e),
                Ok(ds) => r matches Ok(v) && v@ == validators_with_delegations(self.registry@, ds@),
            },
    {
        let ds = match delegations {
            Err(e) => {
                return Err(e.duplicate());
            },
            Ok(ds) => ds,
        };
        let n = self.registry.len();
        let mut validators: Vec<ValidatorResponse> = Vec::new();
        let mut i: usize = 0;
        while i < n
            invariant
                n == self.registry@.len(),
                0 <= i <= n,
                validators@ == validators_with_delegations(self.registry@, ds@).take(i as int),
            decreases n - i,
        {
            let (_, v) = self.registry.entry(i);
            let total = find_delegated(ds, &v.address);
            validators.push(ValidatorResponse { total_delegated: total, address: v.address.clone() });
            proof {
                assert(validators@ =~= validators_with_delegations(self.registry@, ds@).take(i + 1));
            }
            i = i + 1;
        }
        proof {
            assert(validators_with_delegations(self.registry@, ds@).take(n as int) =~= validators_with_delegations(
                self.registry@,
                ds@,
            ));
        }
        Ok(validators)
    }

    /// The validators to delegate over: the registry's validators with the hub's
    /// delegation to each, ordered by that amount, ascending.
    pub fn query_validators_for_delegation(&self, delegations: &Result<Vec<Delegation>, StdError>) -> (r: Result<
        Vec<ValidatorResponse>,
        StdError,
    >)
        ensures
            match delegations {
                Err(e) => r == Err::<Vec<ValidatorResponse>, StdError>(*e),
                Ok(ds) => r matches Ok(v) && v@ == sorted_by_delegation(
                    validators_with_delegations(self.registry@, ds@),
                ),
            },
    {
        let validators = self.query_validators(delegations)?;
        Ok(sort_by_delegation(validators))
    }

    /// Whether the redelegation of a removal of `validator_address` fits, as
    /// `removal_fits` states: the registry is left as it is.
    pub fn removal_fits(
        &self,
        info: &MessageInfo,
        validator_address: &String,
        hub_delegations: &Result<Vec<Delegation>, StdError>,
        delegation: &Result<Option<FullDelegation>, StdError>,
    ) -> (r: bool)
        ensures
            r == removal_fits(self, info, validator_address@, *hub_delegations, *delegation),
    {
        if info.sender != self.config.owner {
            return true;
        }
        let ds = match hub_delegations {
            Err(_) => {
                return true;
            },
            Ok(ds) => ds,
        };
        let amount = match delegation {
            Ok(Some(d)) => d.amount.amount,
            _ => {
                return true;
            },
        };
        let ghost s = self.registry@;
        let ghost k = validator_address@;
        let ghost t = remove_key(s, k);
        let ghost full = validators_with_delegations(t, ds@);
        let n = self.registry.len();
        let has = self.registry.contains_key(validator_address);
        let ghost idx = key_index(s, k);
        proof {
            if has {
                s.remove_ensures(idx);
            }
        }
        let mut rest: Vec<ValidatorResponse> = Vec::new();
        let mut i: usize = 0;
        while i < n
            invariant
                n == s.len(),
                s == self.registry@,
                distinct_keys(s),
                k == validator_address@,
                t == remove_key(s, k),
                full == validators_with_delegations(t, ds@),
                has == has_key(s, k),
                has ==> 0 <= idx < n && s[idx].0 == k && t.len() == n - 1 && (forall|j: int|
                    0 <= j < idx ==> #[trigger] t[j] == s[j]) && (forall|j: int| idx <= j < n - 1 ==> #[trigger] t[j]
                    == s[j + 1]),
                has || t == s,
                0 <= i <= n,
                rest@ == full.take(if has && i > idx { i - 1 } else { i as int }),
            decreases n - i,
        {
            let (key, v) = self.registry.entry(i);
            let ghost j: int = if has && i > idx { i - 1 } else { i as int };
            if *key == *validator_address {
                proof {
                    lemma_key_index_unique(s, i as int);
                }
            } else {
                proof {
                    if has {
                        lemma_key_index_unique(s, idx);
                        assert(i != idx);
                    }
                    assert(t[j] == s[i as int]);
                }
                let total = find_delegated(ds, &v.address);
                rest.push(ValidatorResponse { total_delegated: total, address: v.address.clone() });
                proof {
                    assert(rest@ =~= full.take(j + 1));
                }
            }
            i = i + 1;
        }
        proof {
            assert(rest@ =~= full);
        }
        delegations_fit(&rest, amount)
    }
}

/// Whether the amount delegated to `validators` plus `amount` fits in 128 bits, as
/// `calculate_delegations` needs.
pub fn delegations_fit(validators: &Vec<ValidatorResponse>, amount: u128) -> (r: bool)
    ensures
        r == (total_delegated(validators@) + amount <= u128::MAX),
{
    let n = validators.len();
    let mut total: u128 = amount;
    let mut i: usize = 0;
    while i < n
        invariant
            n == validators@.len(),
            0 <= i <= n,
            total == delegated_prefix(validators@, i as int) + amount,
        decreases n - i,
    {
        proof {
            lemma_delegated_le(validators@, i + 1, n as int);
        }
        if total > u128::MAX - validators[i].total_delegated {
            return false;
        }
        total = total + validators[i].total_delegated;
        i = i + 1;
    }
    true
}

} // verus!
