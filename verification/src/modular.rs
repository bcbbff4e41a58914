//! Congruence modulo the group order: the few facts of modular arithmetic
//! that the proofs about ciphertexts rest on.

use crate::group::group_order;
use vstd::arithmetic::div_mod::{
    lemma_add_mod_noop, lemma_mod_twice, lemma_mul_mod_noop, lemma_small_mod, lemma_sub_mod_noop,
};
use vstd::prelude::*;

verus! {

/// `a` and `b` leave the same residue modulo the group order.
pub open spec fn congruent(a: int, b: int) -> bool {
    a % (group_order() as int) == b % (group_order() as int)
}

/// A number is congruent to its residue.
pub proof fn lemma_residue_congruent(a: int)
    ensures
        congruent(a % (group_order() as int), a),
        0 <= a % (group_order() as int) < group_order(),
{
    lemma_mod_twice(a, group_order() as int);
}

/// A number below the group order is its own residue.
pub proof fn lemma_small_residue(a: nat)
    requires
        a < group_order(),
    ensures
        a % group_order() == a,
{
    lemma_small_mod(a, group_order());
}

/// Sums of congruent numbers are congruent.
pub proof fn lemma_congruent_add(a: int, b: int, c: int, d: int)
    requires
        congruent(a, b),
        congruent(c, d),
    ensures
        congruent(a + c, b + d),
{
    lemma_add_mod_noop(a, c, group_order() as int);
    lemma_add_mod_noop(b, d, group_order() as int);
}

/// Differences of congruent numbers are congruent.
pub proof fn lemma_congruent_sub(a: int, b: int, c: int, d: int)
    requires
        congruent(a, b),
        congruent(c, d),
    ensures
        congruent(a - c, b - d),
{
    lemma_sub_mod_noop(a, c, group_order() as int);
    lemma_sub_mod_noop(b, d, group_order() as int);
}

/// Products of congruent numbers are congruent.
pub proof fn lemma_congruent_mul(a: int, b: int, c: int, d: int)
    requires
        congruent(a, b),
        congruent(c, d),
    ensures
        congruent(a * c, b * d),
{
    lemma_mul_mod_noop(a, c, group_order() as int);
    lemma_mul_mod_noop(b, d, group_order() as int);
}

} // verus!
