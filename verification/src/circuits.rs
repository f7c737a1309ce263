//! The relation proved in zero knowledge ("GenZK"): there exist private
//! `(x, r, o_h)` such that `cm = Hash1(x)`, `r_h = Hash2(r, o_h)` and
//! `s = r + c*x` in the scalar field, where `(cm, s, r_h, c)` are public.
//! This module gives the relation an exact meaning, `relation_holds`, and a
//! verified native evaluation of it; the constraint-system rendering handed
//! to the SNARK backend lives outside the library and must compute the very
//! same function, hash included.
use vstd::prelude::*;

verus! {

use vstd::arithmetic::div_mod::lemma_add_mod_noop_right;
use crate::hash::{HashConfig, poseidon_of, poseidon_eval};
use crate::scalar::{Scalar, fr_order, scalar_add, scalar_mul};

/// `Hash1`: the Poseidon hash of one field element.
pub open spec fn hash1(cfg: HashConfig, x: int) -> int {
    poseidon_of(cfg, seq![x])
}

/// `Hash2`: the Poseidon hash of two field elements.
pub open spec fn hash2(cfg: HashConfig, a: int, b: int) -> int {
    poseidon_of(cfg, seq![a, b])
}

/// One instance of the GenZK relation: the hash configuration, the public
/// values `(cm, s, r_h, c)`, and the private witness `(x, r, o_h)`. At setup
/// time only the shape matters and every value may be zero; at proof time the
/// instance carries the session's real values.
#[derive(Clone, Copy, Debug)]
pub struct GenZKCircuit {
    pub poseidon_config: HashConfig,
    // public
    pub cm: Scalar,
    pub s: Scalar,
    pub r_h: Scalar,
    pub c: Scalar,
    // private
    pub x: Scalar,
    pub r: Scalar,
    pub o_h: Scalar,
}

impl GenZKCircuit {
    /// All carried values are canonical scalars and the configuration is
    /// usable.
    pub open spec fn wf(self) -> bool {
        self.poseidon_config.wf() && self.cm.wf() && self.s.wf() && self.r_h.wf() && self.c.wf()
            && self.x.wf() && self.r.wf() && self.o_h.wf()
    }

    /// The GenZK relation itself: the three equalities the constraint system
    /// is satisfiable for, exactly.
    pub open spec fn relation_holds(self) -> bool {
        &&& self.cm.val() == hash1(self.poseidon_config, self.x.val())
        &&& self.r_h.val() == hash2(self.poseidon_config, self.r.val(), self.o_h.val())
        &&& self.s.val() == (self.r.val() + self.c.val() * self.x.val()) % fr_order()
    }

    /// The public-input vector in the fixed order `[cm, s, r_h, c]` that the
    /// verifying key's layout expects.
    pub fn public_inputs(&self) -> (r: Vec<Scalar>)
        ensures
            r@ == seq![self.cm, self.s, self.r_h, self.c],
    {
        let mut v: Vec<Scalar> = Vec::new();
        v.push(self.cm);
        v.push(self.s);
        v.push(self.r_h);
        v.push(self.c);
        proof {
            assert(v@ =~= seq![self.cm, self.s, self.r_h, self.c]);
        }
        v
    }

    /// Evaluates the relation natively: recomputes both hashes and the linear
    /// combination and compares them with the carried public values. The
    /// constraint system handed to the SNARK backend is satisfiable exactly
    /// when this returns true.
    pub fn check(&self) -> (r: bool)
        requires
            self.wf(),
        ensures
            r == self.relation_holds(),
    {
        let mut in1: Vec<Scalar> = Vec::new();
        in1.push(self.x);
        let computed_cm = poseidon_eval(&self.poseidon_config, &in1);

        let mut in2: Vec<Scalar> = Vec::new();
        in2.push(self.r);
        in2.push(self.o_h);
        let computed_r_h = poseidon_eval(&self.poseidon_config, &in2);

        let cx = scalar_mul(&self.c, &self.x);
        let computed_s = scalar_add(&self.r, &cx);

        proof {
            assert(crate::hash::scalar_vals(in1@) =~= seq![self.x.val()]);
            assert(crate::hash::scalar_vals(in2@) =~= seq![self.r.val(), self.o_h.val()]);
            lemma_add_mod_noop_right(
                self.r.val(),
                self.c.val() * self.x.val(),
                fr_order(),
            );
        }
        computed_cm.equals(&self.cm) && computed_r_h.equals(&self.r_h)
            && computed_s.equals(&self.s)
    }
}

} // verus!
