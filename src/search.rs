//! The first position in a range that satisfies a predicate, and the facts
//! that loops over such a range need.

use vstd::prelude::*;

verus! {

/// The smallest `i` in `0..n` with `p(i)`, if there is one.
pub open spec fn first_index_where(n: nat, p: spec_fn(int) -> bool) -> Option<int>
    decreases n,
{
    if n == 0 {
        None
    } else {
        match first_index_where((n - 1) as nat, p) {
            Some(k) => Some(k),
            None => if p(n - 1) {
                Some(n - 1)
            } else {
                None
            },
        }
    }
}

/// What `first_index_where` returns, stated without recursion.
pub proof fn lemma_first_index_where(n: nat, p: spec_fn(int) -> bool)
    ensures
        match first_index_where(n, p) {
            Some(k) => 0 <= k < n && p(k) && forall|j: int| 0 <= j < k ==> !#[trigger] p(j),
            None => forall|j: int| 0 <= j < n ==> !#[trigger] p(j),
        },
    decreases n,
{
    if n > 0 {
        lemma_first_index_where((n - 1) as nat, p);
    }
}

/// Once a position is found, looking further does not change the answer.
pub proof fn lemma_first_index_where_found(n: nat, k: int, p: spec_fn(int) -> bool)
    requires
        0 <= k < n,
        p(k),
        forall|j: int| 0 <= j < k ==> !#[trigger] p(j),
    ensures
        first_index_where(n, p) == Some(k),
    decreases n,
{
    if n > k + 1 {
        lemma_first_index_where_found((n - 1) as nat, k, p);
    } else {
        lemma_first_index_where(k as nat, p);
    }
}

/// With no position found, the answer is `None`.
pub proof fn lemma_first_index_where_none(n: nat, p: spec_fn(int) -> bool)
    requires
        forall|j: int| 0 <= j < n ==> !#[trigger] p(j),
    ensures
        first_index_where(n, p) == None::<int>,
    decreases n,
{
    if n > 0 {
        lemma_first_index_where_none((n - 1) as nat, p);
    }
}

} // verus!
