//! Congruences modulo the field order: how the reduced results of field
//! operations relate to unreduced integer expressions.

use crate::field::{fadd, fdouble, fmul, fsquare, fsub, lemma_modulus_positive, modulus};
use vstd::arithmetic::div_mod::{
    lemma_add_mod_noop, lemma_mul_mod_noop, lemma_small_mod, lemma_sub_mod_noop,
};
use vstd::prelude::*;

verus! {

/// `v` is the residue of the integer `e` modulo the field order.
pub open spec fn residue_of(v: nat, e: int) -> bool {
    v == e % (modulus() as int)
}

/// A reduced value is its own residue.
pub proof fn lemma_residue_self(v: nat)
    requires
        v < modulus(),
    ensures
        residue_of(v, v as int),
{
    lemma_modulus_positive();
    lemma_small_mod(v, modulus());
}

/// The field sum of two residues is the residue of the sum.
pub proof fn lemma_residue_add(a: nat, ea: int, b: nat, eb: int)
    requires
        residue_of(a, ea),
        residue_of(b, eb),
    ensures
        residue_of(fadd(a, b), ea + eb),
{
    lemma_modulus_positive();
    lemma_add_mod_noop(ea, eb, modulus() as int);
}

/// The field difference of two residues is the residue of the difference.
pub proof fn lemma_residue_sub(a: nat, ea: int, b: nat, eb: int)
    requires
        residue_of(a, ea),
        residue_of(b, eb),
    ensures
        residue_of(fsub(a, b), ea - eb),
{
    lemma_modulus_positive();
    lemma_sub_mod_noop(ea, eb, modulus() as int);
}

/// The field product of two residues is the residue of the product.
pub proof fn lemma_residue_mul(a: nat, ea: int, b: nat, eb: int)
    requires
        residue_of(a, ea),
        residue_of(b, eb),
    ensures
        residue_of(fmul(a, b), ea * eb),
{
    lemma_modulus_positive();
    lemma_mul_mod_noop(ea, eb, modulus() as int);
}

/// Doubling a residue gives the residue of twice the integer.
pub proof fn lemma_residue_double(a: nat, ea: int)
    requires
        residue_of(a, ea),
    ensures
        residue_of(fdouble(a), 2 * ea),
{
    lemma_modulus_positive();
    lemma_add_mod_noop(ea, ea, modulus() as int);
}

/// Squaring a residue gives the residue of the square.
pub proof fn lemma_residue_square(a: nat, ea: int)
    requires
        residue_of(a, ea),
    ensures
        residue_of(fsquare(a), ea * ea),
{
    lemma_modulus_positive();
    lemma_mul_mod_noop(ea, ea, modulus() as int);
}

/// The two integers have the same residue modulo the field order.
pub open spec fn congruent(a: int, b: int) -> bool {
    a % (modulus() as int) == b % (modulus() as int)
}

/// Sums of congruent integers are congruent.
pub proof fn lemma_congruent_add(a: int, b: int, c: int, d: int)
    requires
        congruent(a, b),
        congruent(c, d),
    ensures
        congruent(a + c, b + d),
{
    lemma_modulus_positive();
    lemma_add_mod_noop(a, c, modulus() as int);
    lemma_add_mod_noop(b, d, modulus() as int);
}

/// Differences of congruent integers are congruent.
pub proof fn lemma_congruent_sub(a: int, b: int, c: int, d: int)
    requires
        congruent(a, b),
        congruent(c, d),
    ensures
        congruent(a - c, b - d),
{
    lemma_modulus_positive();
    lemma_sub_mod_noop(a, c, modulus() as int);
    lemma_sub_mod_noop(b, d, modulus() as int);
}

/// Products of congruent integers are congruent.
pub proof fn lemma_congruent_mul(a: int, b: int, c: int, d: int)
    requires
        congruent(a, b),
        congruent(c, d),
    ensures
        congruent(a * c, b * d),
{
    lemma_modulus_positive();
    lemma_mul_mod_noop(a, c, modulus() as int);
    lemma_mul_mod_noop(b, d, modulus() as int);
}

/// An integer is congruent to its residue.
pub proof fn lemma_congruent_residue(e: int)
    ensures
        congruent((e % (modulus() as int)), e),
        0 <= e % (modulus() as int),
{
    lemma_modulus_positive();
    vstd::arithmetic::div_mod::lemma_mod_twice(e, modulus() as int);
    vstd::arithmetic::div_mod::lemma_mod_bound(e, modulus() as int);
}

} // verus!
