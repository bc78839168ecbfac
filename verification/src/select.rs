//! Choosing some of the elements of a list, by their indices.

use vstd::prelude::*;

verus! {

/// Whether `r` lists, in ascending order, exactly the indices below `n` that
/// are kept.
pub open spec fn selects(r: Seq<usize>, n: int, keep: spec_fn(int) -> bool) -> bool {
    &&& forall|k: int| 0 <= k < r.len() ==> (#[trigger] r[k]) < n && keep(r[k] as int)
    &&& forall|j: int, k: int| 0 <= j < k < r.len() ==> (#[trigger] r[j]) < (#[trigger] r[k])
    &&& forall|i: int| 0 <= i < n && #[trigger] keep(i) ==> r.contains(i as usize)
}

/// One more index looked at.
pub proof fn lemma_select_step(r: Seq<usize>, n: usize, keep: spec_fn(int) -> bool)
    requires
        selects(r, n as int, keep),
    ensures
        keep(n as int) ==> selects(r.push(n), n + 1, keep),
        !keep(n as int) ==> selects(r, n + 1, keep),
{
    if keep(n as int) {
        let s = r.push(n);
        assert forall|i: int| 0 <= i < n + 1 && #[trigger] keep(i) implies s.contains(
            i as usize,
        ) by {
            if i < n {
                let k = choose|k: int| 0 <= k < r.len() && r[k] == i as usize;
                assert(s[k] == i as usize);
            } else {
                assert(s[r.len() as int] == n);
            }
        }
    }
}

/// Two lists that select the same indices are equal.
pub proof fn selection_is_unique(
    a: Seq<usize>,
    b: Seq<usize>,
    n: int,
    keep: spec_fn(int) -> bool,
)
    requires
        selects(a, n, keep),
        selects(b, n, keep),
    ensures
        a == b,
{
    lemma_selection_prefix(a, b, n, keep, a.len() as int);
    lemma_selection_prefix(b, a, n, keep, b.len() as int);
    assert(a =~= b);
}

proof fn lemma_selection_prefix(
    a: Seq<usize>,
    b: Seq<usize>,
    n: int,
    keep: spec_fn(int) -> bool,
    k: int,
)
    requires
        selects(a, n, keep),
        selects(b, n, keep),
        0 <= k <= a.len(),
    ensures
        k <= b.len(),
        forall|j: int| 0 <= j < k ==> a[j] == b[j],
    decreases k,
{
    if k > 0 {
        lemma_selection_prefix(a, b, n, keep, k - 1);
        let v = a[k - 1];
        assert(keep(v as int));
        assert(b.contains(v));
        let p = choose|p: int| 0 <= p < b.len() && b[p] == v;
        if p < k - 1 {
            assert(a[p] == b[p]);
            assert(a[p] < a[k - 1]);
        }
        if p > k - 1 {
            let w = b[k - 1];
            assert(w < v);
            assert(keep(w as int));
            assert(a.contains(w));
            let q = choose|q: int| 0 <= q < a.len() && a[q] == w;
            if q < k - 1 {
                assert(b[q] == a[q]);
                assert(b[q] < b[k - 1]);
            } else if q > k - 1 {
                assert(a[k - 1] < a[q]);
            }
        }
    }
}

} // verus!
