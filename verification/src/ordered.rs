//! Sets of numbers kept in order.

use std::collections::BTreeSet;
use vstd::prelude::*;

verus! {

/// Adds `n` to `set`.
pub fn insert_number(set: &mut BTreeSet<usize>, n: usize)
    ensures
        final(set)@ == old(set)@.insert(n),
{
    broadcast use vstd::laws_cmp::group_laws_cmp;

    set.insert(n);
}

/// Whether `set` holds `n`.
pub fn has_number(set: &BTreeSet<usize>, n: usize) -> (b: bool)
    ensures
        b == set@.contains(n),
{
    broadcast use vstd::laws_cmp::group_laws_cmp;
    broadcast use vstd::std_specs::btree::group_btree_axioms;

    set.contains(&n)
}

} // verus!
