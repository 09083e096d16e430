//! The first index at which a predicate holds, and the facts that tie it to
//! a left-to-right scan.
use vstd::prelude::*;

verus! {

/// The least `i < n` with `p(i)`, if there is one.
pub open spec fn first_index(n: nat, p: spec_fn(int) -> bool) -> Option<int>
    decreases n,
{
    if n == 0 {
        None
    } else {
        match first_index((n - 1) as nat, p) {
            Some(i) => Some(i),
            None => if p(n - 1) {
                Some(n - 1)
            } else {
                None
            },
        }
    }
}

/// No index below `n` satisfies `p` exactly when `first_index` finds none.
pub proof fn lemma_first_index_none(n: nat, p: spec_fn(int) -> bool)
    ensures
        (first_index(n, p) is None) <==> (forall|i: int| 0 <= i < n ==> !#[trigger] p(i)),
    decreases n,
{
    if n > 0 {
        lemma_first_index_none((n - 1) as nat, p);
        if first_index(n, p) is None {
            assert forall|i: int| 0 <= i < n implies !#[trigger] p(i) by {
                if i < n - 1 {
                } else {
                }
            }
        }
    }
}

/// A scan that meets `p` first at `i` makes `i` the first index.
pub proof fn lemma_first_index_found(n: nat, p: spec_fn(int) -> bool, i: int)
    requires
        0 <= i < n,
        p(i),
        forall|j: int| 0 <= j < i ==> !#[trigger] p(j),
    ensures
        first_index(n, p) == Some(i),
    decreases n,
{
    if n - 1 == i {
        lemma_first_index_none(i as nat, p);
    } else {
        lemma_first_index_found((n - 1) as nat, p, i);
    }
}

/// What `first_index` finds satisfies `p`, and nothing before it does.
pub proof fn lemma_first_index_some(n: nat, p: spec_fn(int) -> bool)
    requires
        first_index(n, p) is Some,
    ensures
        0 <= first_index(n, p)->0 < n,
        p(first_index(n, p)->0),
        forall|j: int| 0 <= j < first_index(n, p)->0 ==> !#[trigger] p(j),
    decreases n,
{
    if first_index((n - 1) as nat, p) is Some {
        lemma_first_index_some((n - 1) as nat, p);
    } else {
        lemma_first_index_none((n - 1) as nat, p);
    }
}

} // verus!
