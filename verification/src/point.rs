//! Elements of the bn254 G1 group, held as canonical affine coordinates in
//! little-endian limb form, plus a flag for the point at infinity. The group
//! law itself is out of scope and is delegated to arkworks behind trusted
//! wrappers; their contracts speak of the fixed-generator multiples through
//! the name `gen_mul`, which is all the protocol needs.
use vstd::prelude::*;

use ark_bn254::{Fq, Fr, G1Affine, G1Projective};
use ark_ec::{AffineRepr, CurveGroup, Group};
use ark_ff::{BigInt, PrimeField};

verus! {

use crate::scalar::{Scalar, fr_order, limbs_val, limbs_lt, lemma_limbs_val_injective};

/// The order of the bn254 base field, in which affine coordinates live.
pub open spec fn fq_order() -> int {
    0x30644e72e131a029b85045b68181585d97816a916871ca8d3c208c16d87cfd47int
}

/// Little-endian limbs of `fq_order()`.
pub const FQ_LIMB_0: u64 = 0x3c208c16d87cfd47;
pub const FQ_LIMB_1: u64 = 0x97816a916871ca8d;
pub const FQ_LIMB_2: u64 = 0xb85045b68181585d;
pub const FQ_LIMB_3: u64 = 0x30644e72e131a029;

/// The mathematical value of a `Point`: its affine coordinates as integers,
/// and whether it is the point at infinity.
pub struct PointVal {
    pub x: int,
    pub y: int,
    pub infinity: bool,
}

/// A G1 group element in canonical affine form, each coordinate as four
/// little-endian 64-bit limbs. The point at infinity is represented with both
/// coordinates zero.
#[derive(Clone, Copy, Debug, PartialEq, Eq)]
pub struct Point {
    pub x: [u64; 4],
    pub y: [u64; 4],
    pub infinity: bool,
}

/// The canonical affine form of `k * G`, for the fixed bn254 G1 generator
/// `G` and `0 <= k < fr_order()`. Determined by `k` alone.
pub uninterp spec fn gen_mul(k: int) -> PointVal;

/// The canonical affine form of the scalar multiple `k * P`.
/// Determined by its arguments alone.
pub uninterp spec fn mul_of(p: PointVal, k: int) -> PointVal;

/// The canonical affine form of the group sum `P + Q`.
/// Determined by its arguments alone.
pub uninterp spec fn add_of(p: PointVal, q: PointVal) -> PointVal;

impl Point {
    /// The point's mathematical value.
    pub open spec fn pt(self) -> PointVal {
        PointVal {
            x: limbs_val(self.x[0], self.x[1], self.x[2], self.x[3]),
            y: limbs_val(self.y[0], self.y[1], self.y[2], self.y[3]),
            infinity: self.infinity,
        }
    }

    /// Canonical form: coordinates fully reduced in the base field, and the
    /// point at infinity carried with zero coordinates.
    pub open spec fn wf(self) -> bool {
        if self.infinity {
            self.pt().x == 0 && self.pt().y == 0
        } else {
            self.pt().x < fq_order() && self.pt().y < fq_order()
        }
    }

    /// Builds a point from coordinate limbs; the point at infinity is
    /// normalised to zero coordinates.
    pub fn from_limbs(x: [u64; 4], y: [u64; 4], infinity: bool) -> (p: Point)
        ensures
            p.infinity == infinity,
            !infinity ==> p.pt() == (PointVal {
                x: limbs_val(x[0], x[1], x[2], x[3]),
                y: limbs_val(y[0], y[1], y[2], y[3]),
                infinity: false,
            }),
            infinity ==> p.pt() == (PointVal { x: 0, y: 0, infinity: true }),
    {
        if infinity {
            Point { x: [0, 0, 0, 0], y: [0, 0, 0, 0], infinity: true }
        } else {
            Point { x, y, infinity: false }
        }
    }

    /// Whether this limb encoding is canonical.
    pub fn is_canonical(&self) -> (r: bool)
        ensures
            r == self.wf(),
    {
        proof {
            assert(limbs_val(FQ_LIMB_0, FQ_LIMB_1, FQ_LIMB_2, FQ_LIMB_3) == fq_order());
        }
        if self.infinity {
            self.x[0] == 0 && self.x[1] == 0 && self.x[2] == 0 && self.x[3] == 0 && self.y[0] == 0
                && self.y[1] == 0 && self.y[2] == 0 && self.y[3] == 0
        } else {
            let xr = limbs_lt(
                self.x[0], self.x[1], self.x[2], self.x[3],
                FQ_LIMB_0, FQ_LIMB_1, FQ_LIMB_2, FQ_LIMB_3,
            );
            let yr = limbs_lt(
                self.y[0], self.y[1], self.y[2], self.y[3],
                FQ_LIMB_0, FQ_LIMB_1, FQ_LIMB_2, FQ_LIMB_3,
            );
            xr && yr
        }
    }

    /// Value equality, decided on the limbs and the infinity flag.
    pub fn equals(&self, other: &Point) -> (r: bool)
        ensures
            r == (self.pt() == other.pt()),
    {
        let limbs_eq = self.x[0] == other.x[0] && self.x[1] == other.x[1] && self.x[2]
            == other.x[2] && self.x[3] == other.x[3] && self.y[0] == other.y[0] && self.y[1]
            == other.y[1] && self.y[2] == other.y[2] && self.y[3] == other.y[3];
        let r = limbs_eq && (self.infinity == other.infinity);
        proof {
            if !limbs_eq && self.pt() == other.pt() {
                lemma_limbs_val_injective(
                    self.x[0], self.x[1], self.x[2], self.x[3],
                    other.x[0], other.x[1], other.x[2], other.x[3],
                );
                lemma_limbs_val_injective(
                    self.y[0], self.y[1], self.y[2], self.y[3],
                    other.y[0], other.y[1], other.y[2], other.y[3],
                );
            }
        }
        r
    }
}

/// Multiplication of the fixed G1 generator by a scalar.
///
/// Relies on `ark_ec`'s `Group::generator` and scalar multiplication for
/// `ark_bn254::G1Projective`, followed by `CurveGroup::into_affine`, which
/// returns the unique affine form of the point. bn254's G1 is a group of
/// prime order `fr_order()` generated by `G`, so distinct scalars below the
/// order give distinct points, and only the zero scalar gives the point at
/// infinity.
#[verifier::external_body]
pub fn point_mul_gen(k: &Scalar) -> (p: Point)
    requires
        k.wf(),
    ensures
        p.pt() == gen_mul(k.val()),
        p.wf(),
        k.val() != 0 ==> !p.infinity,
        forall|j: int| 0 <= j < fr_order() && j != k.val() ==> #[trigger] gen_mul(j) != p.pt(),
{
    let kf = Fr::from_bigint(BigInt::new([k.l0, k.l1, k.l2, k.l3])).unwrap();
    let s = (G1Projective::generator() * kf).into_affine();
    Point::from_limbs(s.x.into_bigint().0, s.y.into_bigint().0, s.infinity)
}

/// Multiplication of an arbitrary point by a scalar.
///
/// Relies on `ark_ec`'s scalar multiplication for `ark_bn254::G1Projective`
/// and `CurveGroup::into_affine`, as in `point_mul_gen`. When the base point
/// is the generator multiple `a * G`, the result is `(a * k mod fr_order())
/// * G`, because G1 has prime order `fr_order()`.
#[verifier::external_body]
pub fn point_mul(p: &Point, k: &Scalar) -> (r: Point)
    requires
        p.wf(),
        k.wf(),
    ensures
        r.pt() == mul_of(p.pt(), k.val()),
        r.wf(),
        forall|a: int|
            0 <= a < fr_order() && p.pt() == #[trigger] gen_mul(a) ==> r.pt() == gen_mul(
                (a * k.val()) % fr_order(),
            ),
{
    let kf = Fr::from_bigint(BigInt::new([k.l0, k.l1, k.l2, k.l3])).unwrap();
    let px = Fq::from_bigint(BigInt::new(p.x)).unwrap();
    let py = Fq::from_bigint(BigInt::new(p.y)).unwrap();
    let pa = G1Affine { x: px, y: py, infinity: p.infinity };
    let s = (pa.into_group() * kf).into_affine();
    Point::from_limbs(s.x.into_bigint().0, s.y.into_bigint().0, s.infinity)
}

/// Addition of two points.
///
/// Relies on `ark_ec`'s group addition for `ark_bn254::G1Projective` and
/// `CurveGroup::into_affine`, as in `point_mul_gen`. When both summands are
/// generator multiples `a * G` and `b * G`, the sum is `((a + b) mod
/// fr_order()) * G`, because G1 has prime order `fr_order()`.
#[verifier::external_body]
pub fn point_add(p: &Point, q: &Point) -> (r: Point)
    requires
        p.wf(),
        q.wf(),
    ensures
        r.pt() == add_of(p.pt(), q.pt()),
        r.wf(),
        forall|a: int, b: int|
            0 <= a < fr_order() && 0 <= b < fr_order() && p.pt() == #[trigger] gen_mul(a) && q.pt()
                == #[trigger] gen_mul(b) ==> r.pt() == gen_mul((a + b) % fr_order()),
{
    let px = Fq::from_bigint(BigInt::new(p.x)).unwrap();
    let py = Fq::from_bigint(BigInt::new(p.y)).unwrap();
    let qx = Fq::from_bigint(BigInt::new(q.x)).unwrap();
    let qy = Fq::from_bigint(BigInt::new(q.y)).unwrap();
    let pa = G1Affine { x: px, y: py, infinity: p.infinity };
    let qa = G1Affine { x: qx, y: qy, infinity: q.infinity };
    let s = (pa.into_group() + qa).into_affine();
    Point::from_limbs(s.x.into_bigint().0, s.y.into_bigint().0, s.infinity)
}

} // verus!
