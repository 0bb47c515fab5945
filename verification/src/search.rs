//! The first position that satisfies a predicate: the shape in which every
//! scan of this library is specified.

use vstd::prelude::*;

verus! {

/// `k` is the first position below `n` at which `pred` holds.
pub open spec fn is_first(n: int, pred: spec_fn(int) -> bool, k: int) -> bool {
    &&& 0 <= k < n
    &&& pred(k)
    &&& forall|j: int| 0 <= j < k ==> !#[trigger] pred(j)
}

/// `pred` holds at some position below `n`.
pub open spec fn holds_somewhere(n: int, pred: spec_fn(int) -> bool) -> bool {
    exists|k: int| 0 <= k < n && #[trigger] pred(k)
}

/// The first position below `n` at which `pred` holds, if there is one.
pub open spec fn first_index(n: int, pred: spec_fn(int) -> bool) -> Option<int> {
    if holds_somewhere(n, pred) {
        Some(choose|k: int| is_first(n, pred, k))
    } else {
        None
    }
}

proof fn lemma_first_exists(n: int, pred: spec_fn(int) -> bool, j: int)
    requires
        0 <= j < n,
        pred(j),
    ensures
        exists|k: int| is_first(n, pred, k),
    decreases j,
{
    if exists|i: int| 0 <= i < j && #[trigger] pred(i) {
        let i = choose|i: int| 0 <= i < j && #[trigger] pred(i);
        lemma_first_exists(n, pred, i);
    } else {
        assert(is_first(n, pred, j));
    }
}

/// A first position is the first position.
pub proof fn lemma_first_index_is(n: int, pred: spec_fn(int) -> bool, k: int)
    requires
        is_first(n, pred, k),
    ensures
        first_index(n, pred) == Some(k),
{
    assert(holds_somewhere(n, pred));
    let c = choose|c: int| is_first(n, pred, c);
    assert(is_first(n, pred, c));
    assert(c == k);
}

/// Where the predicate holds nowhere, there is no first position.
pub proof fn lemma_first_index_none(n: int, pred: spec_fn(int) -> bool)
    requires
        forall|j: int| 0 <= j < n ==> !#[trigger] pred(j),
    ensures
        first_index(n, pred) is None,
{
}

/// What [`first_index`] returns is a first position, and it returns one
/// wherever the predicate holds.
pub proof fn lemma_first_index(n: int, pred: spec_fn(int) -> bool)
    ensures
        match first_index(n, pred) {
            Some(k) => is_first(n, pred, k),
            None => forall|j: int| 0 <= j < n ==> !#[trigger] pred(j),
        },
{
    if holds_somewhere(n, pred) {
        let j = choose|j: int| 0 <= j < n && #[trigger] pred(j);
        lemma_first_exists(n, pred, j);
        let k = choose|k: int| is_first(n, pred, k);
        assert(is_first(n, pred, k));
    }
}

} // verus!
