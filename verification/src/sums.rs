//! The sum of the amounts that a finite map holds.

use vstd::prelude::*;

verus! {

/// The sum of all values of `m`; 0 where `m` has infinitely many keys.
pub open spec fn sum_of<K>(m: Map<K, i128>) -> int
    decreases m.dom().len(),
    via sum_of_decreases::<K>
{
    if m.dom().finite() && m.dom().len() > 0 {
        let k = m.dom().choose();
        m[k] + sum_of(m.remove(k))
    } else {
        0
    }
}

#[via_fn]
proof fn sum_of_decreases<K>(m: Map<K, i128>) {
    if m.dom().finite() && m.dom().len() > 0 {
        let k = m.dom().choose();
        assert(m.dom().contains(k));
        assert(m.remove(k).dom() =~= m.dom().remove(k));
    }
}

/// Any one entry can be taken out of the sum first.
pub proof fn lemma_sum_of_remove<K>(m: Map<K, i128>, k: K)
    requires
        m.dom().finite(),
        m.contains_key(k),
    ensures
        sum_of(m) == m[k] + sum_of(m.remove(k)),
    decreases m.dom().len(),
{
    assert(m.dom().len() > 0) by {
        if m.dom().len() == 0 {
            assert(m.dom() =~= Set::empty());
        }
    }
    let c = m.dom().choose();
    assert(m.dom().contains(c));
    if c != k {
        let without_c = m.remove(c);
        let without_k = m.remove(k);
        assert(without_c.dom() =~= m.dom().remove(c));
        assert(without_k.dom() =~= m.dom().remove(k));
        lemma_sum_of_remove(without_c, k);
        lemma_sum_of_remove(without_k, c);
        assert(without_c.remove(k) =~= without_k.remove(c));
    }
}

/// The sum of the empty map is 0.
pub proof fn lemma_sum_of_empty<K>()
    ensures
        sum_of(Map::<K, i128>::empty()) == 0,
{
    assert(Map::<K, i128>::empty().dom() =~= Set::empty());
}

/// Writing `v` under `k` changes the sum by the difference between `v` and
/// what stood under `k` before (nothing counts as 0).
pub proof fn lemma_sum_of_insert<K>(m: Map<K, i128>, k: K, v: i128)
    requires
        m.dom().finite(),
    ensures
        m.insert(k, v).dom().finite(),
        sum_of(m.insert(k, v)) == sum_of(m) - (if m.contains_key(k) {
            m[k] as int
        } else {
            0
        }) + v,
{
    let after = m.insert(k, v);
    assert(after.dom() =~= m.dom().insert(k));
    lemma_sum_of_remove(after, k);
    if m.contains_key(k) {
        lemma_sum_of_remove(m, k);
        assert(after.remove(k) =~= m.remove(k));
    } else {
        assert(after.remove(k) =~= m);
    }
}

/// A sum of values none of which is negative is not negative.
pub proof fn lemma_sum_of_nonnegative<K>(m: Map<K, i128>)
    requires
        forall|k: K| m.contains_key(k) ==> m[k] >= 0,
    ensures
        sum_of(m) >= 0,
    decreases m.dom().len(),
{
    if m.dom().finite() && m.dom().len() > 0 {
        let k = m.dom().choose();
        assert(m.dom().contains(k));
        assert(m.remove(k).dom() =~= m.dom().remove(k));
        lemma_sum_of_nonnegative(m.remove(k));
    }
}

} // verus!
