//! Field elements: coefficients of linear combinations.
//!
//! The constraint system works over a prime field. An element is stored as a
//! raw machine word; its semantic value is the residue of that word modulo
//! the field prime. Canonicalization reduces every coefficient it emits, so
//! that semantically equal canonical combinations are representationally
//! identical.

use vstd::prelude::*;

verus! {

/// The field prime. Small enough that a product of two reduced
/// elements fits in a machine word.
pub const FIELD_MODULUS: u64 = 2147483647;

/// One coefficient of a linear combination.
#[derive(Clone, Copy, PartialEq, Eq, Structural, Debug, Hash)]
pub struct FieldElem {
    pub raw: u64,
}

impl FieldElem {
    /// The semantic value: the residue of the raw word modulo the prime.
    pub open spec fn value(self) -> int {
        self.raw as int % (FIELD_MODULUS as int)
    }

    /// A reduced element stores its semantic value directly.
    pub open spec fn is_reduced(self) -> bool {
        self.raw < FIELD_MODULUS
    }

    pub fn from_u64(n: u64) -> (r: Self)
        ensures
            r.is_reduced(),
            r.value() == n as int % (FIELD_MODULUS as int),
            r.raw == n % FIELD_MODULUS,
    {
        FieldElem { raw: n % FIELD_MODULUS }
    }

    /// The unique reduced element with the same semantic value.
    pub fn reduce(self) -> (r: Self)
        ensures
            r.is_reduced(),
            r.value() == self.value(),
            r.raw as int == self.value(),
    {
        FieldElem { raw: self.raw % FIELD_MODULUS }
    }

    /// Field addition.
    pub fn add_mod(self, other: Self) -> (r: Self)
        ensures
            r.is_reduced(),
            r.value() == (self.value() + other.value()) % (FIELD_MODULUS as int),
            r.raw as int == (self.value() + other.value()) % (FIELD_MODULUS as int),
    {
        let a: u64 = self.raw % FIELD_MODULUS;
        let b: u64 = other.raw % FIELD_MODULUS;
        proof {
            vstd::arithmetic::div_mod::lemma_add_mod_noop(
                self.raw as int,
                other.raw as int,
                FIELD_MODULUS as int,
            );
        }
        FieldElem { raw: (a + b) % FIELD_MODULUS }
    }

    /// Whether the element is the additive identity.
    pub fn is_zero(self) -> (r: bool)
        ensures
            r == (self.value() == 0),
    {
        self.raw % FIELD_MODULUS == 0
    }

    /// Whether the element is the multiplicative identity.
    pub fn is_one(self) -> (r: bool)
        ensures
            r == (self.value() == 1),
    {
        self.raw % FIELD_MODULUS == 1
    }

    /// Semantic equality: equal residues, whatever the raw words.
    pub fn same_value(self, other: Self) -> (r: bool)
        ensures
            r == (self.value() == other.value()),
    {
        self.raw % FIELD_MODULUS == other.raw % FIELD_MODULUS
    }
}

/// Two reduced elements with one semantic value are one element.
pub proof fn lemma_reduced_value_injective(a: FieldElem, b: FieldElem)
    requires
        a.is_reduced(),
        b.is_reduced(),
        a.value() == b.value(),
    ensures
        a == b,
{
    vstd::arithmetic::div_mod::lemma_small_mod(a.raw as nat, FIELD_MODULUS as nat);
    vstd::arithmetic::div_mod::lemma_small_mod(b.raw as nat, FIELD_MODULUS as nat);
}

} // verus!
