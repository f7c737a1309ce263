//! Elements of the bn254 scalar field, held as four little-endian 64-bit
//! limbs in canonical (fully reduced) form. The limb representation keeps the
//! value itself visible to specifications; the modular arithmetic is done by
//! the arkworks field implementation behind trusted wrappers with exact
//! contracts.
use vstd::prelude::*;

use ark_bn254::Fr;
use ark_ff::{BigInt, PrimeField, UniformRand};

verus! {

use vstd::arithmetic::div_mod::lemma_fundamental_div_mod_converse;

/// The order of the bn254 scalar field (the modulus of `Scalar` values).
pub open spec fn fr_order() -> int {
    0x30644e72e131a029b85045b68181585d2833e84879b9709143e1f593f0000001int
}

/// Little-endian limbs of `fr_order()`.
pub const FR_LIMB_0: u64 = 0x43e1f593f0000001;
pub const FR_LIMB_1: u64 = 0x2833e84879b97091;
pub const FR_LIMB_2: u64 = 0xb85045b68181585d;
pub const FR_LIMB_3: u64 = 0x30644e72e131a029;

/// The integer encoded by four little-endian 64-bit limbs.
pub open spec fn limbs_val(l0: u64, l1: u64, l2: u64, l3: u64) -> int {
    (l0 as int) + (l1 as int) * 0x10000000000000000int
        + (l2 as int) * 0x100000000000000000000000000000000int
        + (l3 as int) * 0x1000000000000000000000000000000000000000000000000int
}

/// A scalar-field element in canonical little-endian limb form.
#[derive(Clone, Copy, Debug, PartialEq, Eq, Structural)]
pub struct Scalar {
    pub l0: u64,
    pub l1: u64,
    pub l2: u64,
    pub l3: u64,
}

/// The positional limb encoding is injective: equal values have equal limbs.
pub proof fn lemma_limbs_val_injective(
    a0: u64, a1: u64, a2: u64, a3: u64,
    b0: u64, b1: u64, b2: u64, b3: u64,
)
    requires
        limbs_val(a0, a1, a2, a3) == limbs_val(b0, b1, b2, b3),
    ensures
        a0 == b0 && a1 == b1 && a2 == b2 && a3 == b3,
{
    let k = 0x10000000000000000int;
    let sa1 = (a1 as int) + (a2 as int) * 0x10000000000000000int
        + (a3 as int) * 0x100000000000000000000000000000000int;
    let sb1 = (b1 as int) + (b2 as int) * 0x10000000000000000int
        + (b3 as int) * 0x100000000000000000000000000000000int;
    assert(limbs_val(a0, a1, a2, a3) == sa1 * k + a0);
    assert(limbs_val(b0, b1, b2, b3) == sb1 * k + b0);
    lemma_fundamental_div_mod_converse(limbs_val(a0, a1, a2, a3), k, sa1, a0 as int);
    lemma_fundamental_div_mod_converse(limbs_val(b0, b1, b2, b3), k, sb1, b0 as int);
    assert(a0 == b0 && sa1 == sb1);
    let sa2 = (a2 as int) + (a3 as int) * 0x10000000000000000int;
    let sb2 = (b2 as int) + (b3 as int) * 0x10000000000000000int;
    assert(sa1 == sa2 * k + a1);
    assert(sb1 == sb2 * k + b1);
    lemma_fundamental_div_mod_converse(sa1, k, sa2, a1 as int);
    lemma_fundamental_div_mod_converse(sb1, k, sb2, b1 as int);
    assert(a1 == b1 && sa2 == sb2);
    lemma_fundamental_div_mod_converse(sa2, k, a3 as int, a2 as int);
    lemma_fundamental_div_mod_converse(sb2, k, b3 as int, b2 as int);
}

/// Little-endian limb comparison: true exactly when the first encoded value
/// is smaller than the second.
pub fn limbs_lt(
    a0: u64, a1: u64, a2: u64, a3: u64,
    b0: u64, b1: u64, b2: u64, b3: u64,
) -> (r: bool)
    ensures
        r == (limbs_val(a0, a1, a2, a3) < limbs_val(b0, b1, b2, b3)),
{
    if a3 != b3 {
        a3 < b3
    } else if a2 != b2 {
        a2 < b2
    } else if a1 != b1 {
        a1 < b1
    } else {
        a0 < b0
    }
}

impl Scalar {
    /// The integer this element stands for.
    pub open spec fn val(self) -> int {
        limbs_val(self.l0, self.l1, self.l2, self.l3)
    }

    /// Canonical form: the encoded value is fully reduced.
    pub open spec fn wf(self) -> bool {
        self.val() < fr_order()
    }

    /// The scalar with a given small value.
    pub fn from_u64(v: u64) -> (r: Scalar)
        ensures
            r.val() == v,
            r.wf(),
    {
        Scalar { l0: v, l1: 0, l2: 0, l3: 0 }
    }

    /// The zero scalar.
    pub fn zero() -> (r: Scalar)
        ensures
            r.val() == 0,
            r.wf(),
    {
        Scalar { l0: 0, l1: 0, l2: 0, l3: 0 }
    }

    /// Whether this limb encoding is canonical (reduced modulo `fr_order()`).
    pub fn is_canonical(&self) -> (r: bool)
        ensures
            r == self.wf(),
    {
        proof {
            assert(limbs_val(FR_LIMB_0, FR_LIMB_1, FR_LIMB_2, FR_LIMB_3) == fr_order());
        }
        limbs_lt(self.l0, self.l1, self.l2, self.l3, FR_LIMB_0, FR_LIMB_1, FR_LIMB_2, FR_LIMB_3)
    }

    /// Value equality, decided on the limbs.
    pub fn equals(&self, other: &Scalar) -> (r: bool)
        ensures
            r == (self.val() == other.val()),
    {
        let r = self.l0 == other.l0 && self.l1 == other.l1 && self.l2 == other.l2
            && self.l3 == other.l3;
        proof {
            if !r && self.val() == other.val() {
                lemma_limbs_val_injective(
                    self.l0, self.l1, self.l2, self.l3,
                    other.l0, other.l1, other.l2, other.l3,
                );
            }
        }
        r
    }

    /// Whether this is the zero scalar.
    pub fn is_zero(&self) -> (r: bool)
        ensures
            r == (self.val() == 0),
    {
        self.l0 == 0 && self.l1 == 0 && self.l2 == 0 && self.l3 == 0
    }
}

/// Addition in the scalar field.
///
/// Relies on `ark_ff`'s `Add` for `ark_bn254::Fr`, which is addition of the
/// canonical representatives modulo the field order, and on
/// `PrimeField::from_bigint` / `into_bigint`, which convert between a field
/// element and its canonical integer below the modulus.
#[verifier::external_body]
pub fn scalar_add(a: &Scalar, b: &Scalar) -> (r: Scalar)
    requires
        a.wf(),
        b.wf(),
    ensures
        r.val() == (a.val() + b.val()) % fr_order(),
        r.wf(),
{
    let av = Fr::from_bigint(BigInt::new([a.l0, a.l1, a.l2, a.l3])).unwrap();
    let bv = Fr::from_bigint(BigInt::new([b.l0, b.l1, b.l2, b.l3])).unwrap();
    let s = (av + bv).into_bigint().0;
    Scalar { l0: s[0], l1: s[1], l2: s[2], l3: s[3] }
}

/// Multiplication in the scalar field.
///
/// Relies on `ark_ff`'s `Mul` for `ark_bn254::Fr`, which is multiplication of
/// the canonical representatives modulo the field order, and on the same
/// bigint conversions as `scalar_add`.
#[verifier::external_body]
pub fn scalar_mul(a: &Scalar, b: &Scalar) -> (r: Scalar)
    requires
        a.wf(),
        b.wf(),
    ensures
        r.val() == (a.val() * b.val()) % fr_order(),
        r.wf(),
{
    let av = Fr::from_bigint(BigInt::new([a.l0, a.l1, a.l2, a.l3])).unwrap();
    let bv = Fr::from_bigint(BigInt::new([b.l0, b.l1, b.l2, b.l3])).unwrap();
    let s = (av * bv).into_bigint().0;
    Scalar { l0: s[0], l1: s[1], l2: s[2], l3: s[3] }
}

/// Reduction of an arbitrary 256-bit little-endian value into the scalar
/// field.
///
/// Relies on `ark_ff`'s `PrimeField::from_le_bytes_mod_order` for
/// `ark_bn254::Fr`, which interprets the bytes as a little-endian integer and
/// reduces it modulo the field order.
#[verifier::external_body]
pub fn scalar_reduce(l0: u64, l1: u64, l2: u64, l3: u64) -> (r: Scalar)
    ensures
        r.val() == limbs_val(l0, l1, l2, l3) % fr_order(),
        r.wf(),
{
    let mut bytes = [0u8; 32];
    bytes[0..8].copy_from_slice(&l0.to_le_bytes());
    bytes[8..16].copy_from_slice(&l1.to_le_bytes());
    bytes[16..24].copy_from_slice(&l2.to_le_bytes());
    bytes[24..32].copy_from_slice(&l3.to_le_bytes());
    let s = Fr::from_le_bytes_mod_order(&bytes).into_bigint().0;
    Scalar { l0: s[0], l1: s[1], l2: s[2], l3: s[3] }
}

#[verifier::external_type_specification]
#[verifier::external_body]
pub struct ExStdRng(ark_std::rand::rngs::StdRng);

/// A scalar sampled uniformly at random.
///
/// Relies on `ark_ff`'s `UniformRand` for `ark_bn254::Fr`. Nothing is
/// promised of the value beyond canonical form: it depends on the state of
/// the generator.
#[verifier::external_body]
pub fn sample_scalar(rng: &mut ark_std::rand::rngs::StdRng) -> (r: Scalar)
    ensures
        r.wf(),
{
    let s = Fr::rand(rng).into_bigint().0;
    Scalar { l0: s[0], l1: s[1], l2: s[2], l3: s[3] }
}

} // verus!
