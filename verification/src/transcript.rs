//! The Fiat-Shamir transcript: an order-sensitive channel that absorbs field
//! elements and encoded group elements and squeezes challenges. Its state is
//! the hash configuration plus the exact sequence of absorbed values, so the
//! challenge is visibly a function of that sequence. Squeezing a challenge
//! absorbs the challenge back into the transcript, which binds everything
//! that follows to the challenge already issued.
use vstd::prelude::*;

verus! {

use crate::hash::{HashConfig, poseidon_eval, poseidon_of, scalar_vals};
use crate::point::{Point, PointVal};
use crate::scalar::{Scalar, fr_order, scalar_reduce};

/// The two field elements a finite point contributes to the transcript: each
/// affine coordinate's canonical little-endian bytes, reinterpreted modulo
/// the scalar-field order. This encoding works coordinate-wise on integers,
/// so it can be reproduced verbatim inside an arithmetic circuit.
pub open spec fn point_encoding(p: PointVal) -> Seq<int> {
    seq![p.x % fr_order(), p.y % fr_order()]
}

/// A Fiat-Shamir transcript over the bn254 scalar field.
pub struct PoseidonTranscript {
    /// The hash configuration; fixed for the whole session.
    pub cfg: HashConfig,
    /// Everything absorbed so far, in order.
    pub absorbed: Vec<Scalar>,
}

impl PoseidonTranscript {
    /// Every absorbed element is canonical and the configuration is usable.
    pub open spec fn wf(self) -> bool {
        self.cfg.wf() && forall|i: int|
            0 <= i < self.absorbed@.len() ==> (#[trigger] self.absorbed@[i]).wf()
    }

    /// The values absorbed so far.
    pub open spec fn vals(self) -> Seq<int> {
        scalar_vals(self.absorbed@)
    }

    /// A fresh transcript seeded only from the public configuration.
    pub fn new(poseidon_config: &HashConfig) -> (t: PoseidonTranscript)
        requires
            poseidon_config.wf(),
        ensures
            t.cfg == *poseidon_config,
            t.vals() == Seq::<int>::empty(),
            t.wf(),
    {
        let t = PoseidonTranscript { cfg: *poseidon_config, absorbed: Vec::new() };
        proof {
            assert(t.vals() =~= Seq::<int>::empty());
        }
        t
    }

    /// Feeds one field element into the transcript.
    pub fn absorb(&mut self, v: &Scalar)
        requires
            old(self).wf(),
            v.wf(),
        ensures
            final(self).cfg == old(self).cfg,
            final(self).vals() == old(self).vals().push(v.val()),
            final(self).wf(),
    {
        self.absorbed.push(*v);
        proof {
            assert(self.vals() =~= old(self).vals().push(v.val()));
        }
    }

    /// Feeds a finite group element into the transcript as its two encoded
    /// affine coordinates. The same point value always contributes the same
    /// pair of field elements.
    pub fn absorb_point(&mut self, p: &Point)
        requires
            old(self).wf(),
            p.wf(),
            !p.infinity,
        ensures
            final(self).cfg == old(self).cfg,
            final(self).vals() == old(self).vals() + point_encoding(p.pt()),
            final(self).wf(),
    {
        let xe = scalar_reduce(p.x[0], p.x[1], p.x[2], p.x[3]);
        let ye = scalar_reduce(p.y[0], p.y[1], p.y[2], p.y[3]);
        self.absorbed.push(xe);
        self.absorbed.push(ye);
        proof {
            assert(self.vals() =~= old(self).vals() + point_encoding(p.pt()));
        }
    }

    /// Squeezes one challenge from the transcript, then immediately absorbs
    /// it back. The re-absorption prevents extracting further independent
    /// challenges from the same prefix and binds all later operations to the
    /// challenge already issued.
    pub fn get_challenge(&mut self) -> (c: Scalar)
        requires
            old(self).wf(),
        ensures
            c.val() == poseidon_of(old(self).cfg, old(self).vals()),
            c.wf(),
            final(self).cfg == old(self).cfg,
            final(self).vals() == old(self).vals().push(c.val()),
            final(self).wf(),
    {
        let c = poseidon_eval(&self.cfg, &self.absorbed);
        self.absorbed.push(c);
        proof {
            assert(self.vals() =~= old(self).vals().push(c.val()));
        }
        c
    }
}

} // verus!
