//! Random choices, made with the thread-local generator of `rand`, and
//! the items they pick.

use rand::seq::IteratorRandom;
use vstd::prelude::*;

verus! {

/// Picks a position below `n` uniformly at random, with
/// `rand::seq::IteratorRandom::choose` over `0..n` and `rand::rng()`.
/// Believed without proof: the result is `None` exactly when `n` is 0, and
/// otherwise a position below `n`. Which position comes out is chance and
/// is left unsaid.
#[verifier::external_body]
pub(crate) fn random_index(n: usize) -> (res: Option<usize>)
    ensures
        res is None <==> n == 0,
        res matches Some(i) ==> i < n,
{
    (0..n).choose(&mut rand::rng())
}

/// Picks `amount` distinct positions below `n` at random (all of them when
/// there are fewer), with `rand::seq::IteratorRandom::sample` over `0..n`
/// and `rand::rng()`. Believed without proof: as the crate documents, the
/// result holds `min(n, amount)` positions, each below `n`, none twice.
/// Which positions, and their order, are chance and left unsaid.
#[verifier::external_body]
pub(crate) fn random_indices(n: usize, amount: usize) -> (res: Vec<usize>)
    ensures
        res@.len() == (if n < amount { n } else { amount }),
        forall|i: int| 0 <= i < res@.len() ==> #[trigger] res@[i] < n,
        res@.no_duplicates(),
{
    (0..n).sample(&mut rand::rng(), amount)
}

/// The items at the drawn positions, in the order drawn. Every position
/// must lie within `items`.
pub fn select<T: Copy>(items: &Vec<T>, idx: &Vec<usize>) -> (res: Vec<T>)
    requires
        forall|i: int| 0 <= i < idx@.len() ==> #[trigger] idx@[i] < items@.len(),
    ensures
        res@ == idx@.map_values(|k: usize| items@[k as int]),
{
    let mut res: Vec<T> = Vec::new();
    let mut k: usize = 0;
    while k < idx.len()
        invariant
            k <= idx@.len(),
            forall|i: int| 0 <= i < idx@.len() ==> #[trigger] idx@[i] < items@.len(),
            res@ == idx@.take(k as int).map_values(|j: usize| items@[j as int]),
        decreases idx@.len() - k,
    {
        let x = items[idx[k]];
        res.push(x);
        k = k + 1;
        assert(idx@.take(k as int) == idx@.take(k - 1).push(idx@[k - 1]));
        assert(res@ =~= idx@.take(k as int).map_values(|j: usize| items@[j as int]));
    }
    assert(idx@.take(idx@.len() as int) == idx@);
    res
}

} // verus!
