//! The Goldilocks prime field.
//!
//! Every circuit value is an element of the field of integers modulo
//! `2^64 - 2^32 + 1`.  A [`Felt`] always holds the canonical representative of
//! its residue class, so two elements are equal exactly when their views are.

use vstd::prelude::*;

verus! {

/// The order of the field, `2^64 - 2^32 + 1`.
pub const ORDER: u64 = 0xFFFF_FFFF_0000_0001;

/// The order of the field as a mathematical integer.
pub open spec fn modulus() -> int {
    0xFFFF_FFFF_0000_0001
}

/// The canonical representative of `v`: the one integer in `[0, modulus())`
/// that is congruent to `v`.
pub open spec fn reduce(v: int) -> int {
    v % modulus()
}

/// An element of the field, held as its canonical representative.
#[derive(Clone, Copy, Debug)]
pub struct Felt {
    value: u64,
}

impl View for Felt {
    type V = int;

    /// The canonical representative, an integer in `[0, modulus())`.
    closed spec fn view(&self) -> int {
        self.value as int % modulus()
    }
}

impl Felt {
    #[verifier::type_invariant]
    spec fn canonical(self) -> bool {
        self.value < ORDER
    }

    /// Every view is a canonical representative.
    pub proof fn lemma_view_range(self)
        ensures
            0 <= self@ < modulus(),
            reduce(self@) == self@,
    {
    }

    /// The additive identity.
    pub fn zero() -> (r: Felt)
        ensures
            r@ == 0,
    {
        Felt { value: 0 }
    }

    /// The multiplicative identity.
    pub fn one() -> (r: Felt)
        ensures
            r@ == 1,
    {
        Felt { value: 1 }
    }

    /// Builds an element from an integer that is already reduced.
    ///
    /// Handing in a value that would need reduction is a programming error,
    /// which the precondition rules out.
    pub fn from_canonical_u64(n: u64) -> (r: Felt)
        requires
            n < ORDER,
        ensures
            r@ == n,
    {
        Felt { value: n }
    }

    /// Builds an element from any signed integer, reducing it into the field:
    /// a negative `n` becomes `modulus() + n`.
    pub fn from_noncanonical_i64(n: i64) -> (r: Felt)
        ensures
            r@ == reduce(n as int),
    {
        if n < 0 {
            let lifted: i128 = n as i128 + ORDER as i128;
            Felt { value: lifted as u64 }
        } else {
            Felt { value: n as u64 }
        }
    }

    /// The canonical representative as a machine integer.
    pub fn to_canonical_u64(self) -> (n: u64)
        ensures
            n == self@,
            n < ORDER,
    {
        proof {
            use_type_invariant(&self);
        }
        self.value
    }

    /// Whether this is the additive identity.
    pub fn is_zero(self) -> (b: bool)
        ensures
            b == (self@ == 0),
    {
        proof {
            use_type_invariant(&self);
        }
        self.value == 0
    }

    /// Whether two elements are the same element of the field.
    pub fn equals(self, other: Felt) -> (b: bool)
        ensures
            b == (self@ == other@),
    {
        proof {
            use_type_invariant(&self);
            use_type_invariant(&other);
        }
        self.value == other.value
    }

    /// Field addition.
    pub fn add(self, rhs: Felt) -> (r: Felt)
        ensures
            r@ == reduce(self@ + rhs@),
    {
        proof {
            use_type_invariant(&self);
            use_type_invariant(&rhs);
        }
        let sum: u128 = self.value as u128 + rhs.value as u128;
        let reduced: u128 = sum % (ORDER as u128);
        Felt { value: reduced as u64 }
    }

    /// Field multiplication.
    pub fn mul(self, rhs: Felt) -> (r: Felt)
        ensures
            r@ == reduce(self@ * rhs@),
    {
        proof {
            use_type_invariant(&self);
            use_type_invariant(&rhs);
            lemma_product_fits(self.value as int, rhs.value as int);
        }
        let product: u128 = self.value as u128 * rhs.value as u128;
        let reduced: u128 = product % (ORDER as u128);
        Felt { value: reduced as u64 }
    }

    /// Additive inverse.
    pub fn neg(self) -> (r: Felt)
        ensures
            r@ == reduce(-self@),
    {
        proof {
            use_type_invariant(&self);
        }
        if self.value == 0 {
            Felt { value: 0 }
        } else {
            Felt { value: ORDER - self.value }
        }
    }

    /// Multiply-accumulate: `self * b + c`.
    pub fn mul_add(self, b: Felt, c: Felt) -> (r: Felt)
        ensures
            r@ == reduce(self@ * b@ + c@),
    {
        proof {
            use_type_invariant(&self);
            use_type_invariant(&b);
            use_type_invariant(&c);
            lemma_product_fits(self.value as int, b.value as int);
        }
        let product: u128 = self.value as u128 * b.value as u128;
        let total: u128 = product + c.value as u128;
        let reduced: u128 = total % (ORDER as u128);
        Felt { value: reduced as u64 }
    }
}

/// The product of two canonical representatives leaves room for one more
/// addend in 128 bits.
proof fn lemma_product_fits(a: int, b: int)
    requires
        0 <= a < modulus(),
        0 <= b < modulus(),
    ensures
        0 <= a * b <= (modulus() - 1) * (modulus() - 1),
        a * b + modulus() <= u128::MAX,
{
    assert(0 <= a * b <= (modulus() - 1) * (modulus() - 1)) by (nonlinear_arith)
        requires
            0 <= a <= modulus() - 1,
            0 <= b <= modulus() - 1,
    ;
}

/// The canonical representatives of a sequence of field elements.
pub open spec fn felts_view(s: Seq<Felt>) -> Seq<int> {
    Seq::new(s.len(), |i: int| s[i]@)
}

} // verus!
