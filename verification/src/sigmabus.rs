//! Setup / Prove / Verify orchestration for proving knowledge of `x` with
//! `X = x*G` over bn254. The prover commits to `x` with a Poseidon hash,
//! commits to a fresh nonce `r` both as the curve point `R = r*G` and as a
//! Poseidon hash, derives the challenge `c` from the Fiat-Shamir transcript,
//! and answers with `s = r + c*x`. The verifier re-derives `c` from the
//! proof's public fields alone, checks the linear equation `s*G == R + c*X`
//! directly, and delegates the hash-commitment relation to a Groth16 SNARK
//! over the GenZK circuit. The two failure modes stay distinct: `SigmaFail`
//! for the linear check, `GenZKFail` for the SNARK.
//!
//! The SNARK backend itself cannot run inside the library: its calls consume
//! a constraint synthesizer, a trait implementation that belongs to the
//! backend's world. The library therefore exposes the complete verified
//! protocol logic around those calls: `setup` yields the circuit instance
//! whose shape the key generator consumes, `prove` yields the full circuit
//! assignment the backend proves, `verify` performs the whole Sigma check and
//! yields the public-input vector the backend verifies against, and
//! `finish_verify` folds the backend's answer into the protocol's result.
use vstd::prelude::*;

verus! {

use vstd::arithmetic::div_mod::{
    lemma_add_mod_noop, lemma_add_mod_noop_right, lemma_fundamental_div_mod_converse,
    lemma_mod_bound,
};
use crate::Error;
use crate::circuits::{GenZKCircuit, hash1, hash2};
use crate::hash::HashConfig;
use crate::point::{Point, PointVal, add_of, gen_mul, mul_of, point_add, point_mul, point_mul_gen};
use crate::scalar::{Scalar, fr_order, scalar_add, scalar_mul};
use crate::transcript::{PoseidonTranscript, point_encoding};

/// The classical Sigma-protocol part of a proof: response `s`, commitment
/// point `R` and hash commitment `r_h`. All three are public.
#[derive(Clone, Copy, Debug)]
pub struct SigmaProof {
    pub s: Scalar,
    pub R: Point,
    pub r_h: Scalar,
}

/// A complete proof: the Poseidon commitment `cm` to the secret, the Sigma
/// values, and the SNARK proof produced by the Groth16 backend, carried as
/// its canonical serialization. The library never looks inside those bytes;
/// only the backend does.
pub struct Proof {
    pub cm: Scalar,
    pub sigma_proof: SigmaProof,
    pub zkproof: Vec<u8>,
}

/// The immutable outcome of one trusted setup: the hash configuration and the
/// Groth16 key pair, each key carried as its canonical serialization. Shared
/// read-only by arbitrarily many prove and verify sessions.
pub struct Params {
    pub poseidon_config: HashConfig,
    pub pk: Vec<u8>,
    pub vk: Vec<u8>,
}

impl Params {
    /// Packs one setup outcome.
    pub fn new(poseidon_config: HashConfig, pk: Vec<u8>, vk: Vec<u8>) -> (p: Params)
        ensures
            p.poseidon_config == poseidon_config,
            p.pk == pk,
            p.vk == vk,
    {
        Params { poseidon_config, pk, vk }
    }
}

/// What `prove` establishes before the SNARK backend runs: the Sigma values
/// destined for the proof, and the fully assigned circuit instance the
/// backend proves.
pub struct ProveOutput {
    pub sigma_proof: SigmaProof,
    pub circuit: GenZKCircuit,
}

/// The challenge a session derives: the Poseidon output after absorbing, in
/// this exact order, the commitment `cm`, the two encoded coordinates of `R`,
/// and the hash commitment `r_h`.
pub open spec fn challenge_spec(cfg: HashConfig, cm: int, r_pt: PointVal, r_h: int) -> int {
    crate::hash::poseidon_of(cfg, seq![cm] + point_encoding(r_pt) + seq![r_h])
}

/// The full transcript trace of one session: the absorbed Sigma values
/// followed by the re-absorbed challenge.
pub open spec fn sigma_trace(cm: int, r_pt: PointVal, r_h: int, c: int) -> Seq<int> {
    seq![cm] + point_encoding(r_pt) + seq![r_h, c]
}

/// Every scalar of the proof canonical, and `R` a canonical finite point.
/// Only such proofs can satisfy the Sigma equation; an honest prover always
/// produces them.
pub open spec fn sigma_inputs_wf(cm: Scalar, sp: SigmaProof) -> bool {
    cm.wf() && sp.s.wf() && sp.r_h.wf() && sp.R.wf() && !sp.R.infinity
}

/// The Sigma acceptance predicate `verify` decides: well-formed inputs whose
/// response satisfies `s*G == R + c*X` for the re-derived challenge `c`.
pub open spec fn sigma_accepts(cfg: HashConfig, cm: Scalar, sp: SigmaProof, x_pt: PointVal) -> bool {
    &&& sigma_inputs_wf(cm, sp)
    &&& gen_mul(sp.s.val()) == add_of(
        sp.R.pt(),
        mul_of(x_pt, challenge_spec(cfg, cm.val(), sp.R.pt(), sp.r_h.val())),
    )
}

/// The Sigmabus protocol over bn254 with the Groth16 backend.
pub struct Sigmabus;

impl Sigmabus {
    /// The circuit instance whose shape the backend's circuit-specific key
    /// generation consumes: every public and private value zero-filled, since
    /// only the relation's shape matters at setup time.
    pub fn setup(poseidon_config: &HashConfig) -> (c: GenZKCircuit)
        ensures
            c.poseidon_config == *poseidon_config,
            c.cm.val() == 0 && c.s.val() == 0 && c.r_h.val() == 0 && c.c.val() == 0,
            c.x.val() == 0 && c.r.val() == 0 && c.o_h.val() == 0,
            poseidon_config.wf() ==> c.wf(),
    {
        let z = Scalar::zero();
        GenZKCircuit {
            poseidon_config: *poseidon_config,
            cm: z,
            s: z,
            r_h: z,
            c: z,
            x: z,
            r: z,
            o_h: z,
        }
    }

    /// The prover's computation around the SNARK backend, for secret `x` and
    /// freshly, uniformly sampled nonces `r` and `o_h` (never reuse them
    /// across proofs; `r == 0` is excluded because the commitment point of an
    /// honest session is finite). Produces the Sigma values and the assigned
    /// circuit, whose relation is guaranteed to hold, so an honest backend
    /// proves it.
    pub fn prove(
        params: &Params,
        transcript: &mut PoseidonTranscript,
        x: &Scalar,
        r: &Scalar,
        o_h: &Scalar,
    ) -> (out: ProveOutput)
        requires
            x.wf(),
            r.wf(),
            o_h.wf(),
            r.val() != 0,
            old(transcript).cfg == params.poseidon_config,
            old(transcript).vals() == Seq::<int>::empty(),
            old(transcript).wf(),
        ensures
            out.circuit.poseidon_config == params.poseidon_config,
            out.circuit.cm.val() == hash1(params.poseidon_config, x.val()),
            out.circuit.cm.wf(),
            out.sigma_proof.R.pt() == gen_mul(r.val()),
            out.sigma_proof.R.wf(),
            !out.sigma_proof.R.infinity,
            out.sigma_proof.r_h.val() == hash2(params.poseidon_config, r.val(), o_h.val()),
            out.circuit.c.val() == challenge_spec(
                params.poseidon_config,
                out.circuit.cm.val(),
                out.sigma_proof.R.pt(),
                out.sigma_proof.r_h.val(),
            ),
            out.sigma_proof.s.val() == (r.val() + out.circuit.c.val() * x.val()) % fr_order(),
            sigma_inputs_wf(out.circuit.cm, out.sigma_proof),
            out.circuit.s == out.sigma_proof.s,
            out.circuit.r_h == out.sigma_proof.r_h,
            out.circuit.x == *x,
            out.circuit.r == *r,
            out.circuit.o_h == *o_h,
            out.circuit.wf(),
            out.circuit.relation_holds(),
            final(transcript).cfg == old(transcript).cfg,
            final(transcript).vals() == sigma_trace(
                out.circuit.cm.val(),
                out.sigma_proof.R.pt(),
                out.sigma_proof.r_h.val(),
                out.circuit.c.val(),
            ),
            final(transcript).wf(),
    {
        let mut in1: Vec<Scalar> = Vec::new();
        in1.push(*x);
        let cm = crate::hash::poseidon_eval(&params.poseidon_config, &in1);
        transcript.absorb(&cm);

        let R = point_mul_gen(r);

        let mut in2: Vec<Scalar> = Vec::new();
        in2.push(*r);
        in2.push(*o_h);
        let r_h = crate::hash::poseidon_eval(&params.poseidon_config, &in2);

        transcript.absorb_point(&R);
        transcript.absorb(&r_h);

        let c = transcript.get_challenge();

        let cx = scalar_mul(&c, x);
        let s = scalar_add(r, &cx);

        proof {
            assert(crate::hash::scalar_vals(in1@) =~= seq![x.val()]);
            assert(crate::hash::scalar_vals(in2@) =~= seq![r.val(), o_h.val()]);
            assert(Seq::<int>::empty().push(cm.val()) + point_encoding(R.pt()) =~= seq![cm.val()]
                + point_encoding(R.pt()));
            assert((seq![cm.val()] + point_encoding(R.pt())).push(r_h.val()) =~= seq![cm.val()]
                + point_encoding(R.pt()) + seq![r_h.val()]);
            assert((seq![cm.val()] + point_encoding(R.pt()) + seq![r_h.val()]).push(c.val())
                =~= sigma_trace(cm.val(), R.pt(), r_h.val(), c.val()));
            lemma_add_mod_noop_right(r.val(), c.val() * x.val(), fr_order());
        }

        ProveOutput {
            sigma_proof: SigmaProof { s, R, r_h },
            circuit: GenZKCircuit {
                poseidon_config: params.poseidon_config,
                cm,
                s,
                r_h,
                c,
                x: *x,
                r: *r,
                o_h: *o_h,
            },
        }
    }

    /// The verifier's computation around the SNARK backend: checks the Sigma
    /// linear equation `s*G == R + c*X` for the challenge re-derived from the
    /// proof's public fields alone, and on success returns the public-input
    /// vector `[cm, s, r_h, c]`, in the order fixed by the verifying key's
    /// layout, for the backend to verify the SNARK proof against.
    ///
    /// The last postcondition pins the decision down for every statement
    /// point `X = xv*G` and commitment point `R = rv*G`: the check passes
    /// exactly when `s == rv + c*xv` in the scalar field. Completeness and
    /// rejection of a wrong response both follow from it.
    pub fn verify(
        params: &Params,
        transcript: &mut PoseidonTranscript,
        proof: &Proof,
        X: &Point,
    ) -> (res: Result<Vec<Scalar>, Error>)
        requires
            X.wf(),
            old(transcript).cfg == params.poseidon_config,
            old(transcript).vals() == Seq::<int>::empty(),
            old(transcript).wf(),
        ensures
            res is Ok <==> sigma_accepts(
                params.poseidon_config,
                proof.cm,
                proof.sigma_proof,
                X.pt(),
            ),
            res is Err ==> res == Err::<Vec<Scalar>, Error>(Error::SigmaFail),
            res matches Ok(v) ==> {
                &&& v@.len() == 4
                &&& v@[0] == proof.cm
                &&& v@[1] == proof.sigma_proof.s
                &&& v@[2] == proof.sigma_proof.r_h
                &&& v@[3].val() == challenge_spec(
                    params.poseidon_config,
                    proof.cm.val(),
                    proof.sigma_proof.R.pt(),
                    proof.sigma_proof.r_h.val(),
                )
                &&& v@[3].wf()
            },
            sigma_inputs_wf(proof.cm, proof.sigma_proof) ==> {
                &&& final(transcript).cfg == old(transcript).cfg
                &&& final(transcript).vals() == sigma_trace(
                    proof.cm.val(),
                    proof.sigma_proof.R.pt(),
                    proof.sigma_proof.r_h.val(),
                    challenge_spec(
                        params.poseidon_config,
                        proof.cm.val(),
                        proof.sigma_proof.R.pt(),
                        proof.sigma_proof.r_h.val(),
                    ),
                )
                &&& final(transcript).wf()
            },
            !sigma_inputs_wf(proof.cm, proof.sigma_proof) ==> *final(transcript) == *old(
                transcript,
            ),
            forall|rv: int, xv: int|
                0 <= rv < fr_order() && 0 <= xv < fr_order() && proof.sigma_proof.R.pt()
                    == #[trigger] gen_mul(rv) && X.pt() == #[trigger] gen_mul(xv)
                    && sigma_inputs_wf(proof.cm, proof.sigma_proof) ==> ((res is Ok)
                    <==> proof.sigma_proof.s.val() == (rv + challenge_spec(
                    params.poseidon_config,
                    proof.cm.val(),
                    proof.sigma_proof.R.pt(),
                    proof.sigma_proof.r_h.val(),
                ) * xv) % fr_order()),
    {
        let inputs_ok = proof.cm.is_canonical() && proof.sigma_proof.s.is_canonical()
            && proof.sigma_proof.r_h.is_canonical() && proof.sigma_proof.R.is_canonical()
            && !proof.sigma_proof.R.infinity;
        if !inputs_ok {
            return Err(Error::SigmaFail);
        }

        let lhs = point_mul_gen(&proof.sigma_proof.s);

        transcript.absorb(&proof.cm);
        transcript.absorb_point(&proof.sigma_proof.R);
        transcript.absorb(&proof.sigma_proof.r_h);
        let c = transcript.get_challenge();

        let cx = point_mul(X, &c);
        let rhs = point_add(&proof.sigma_proof.R, &cx);

        let ghost cs = challenge_spec(
            params.poseidon_config,
            proof.cm.val(),
            proof.sigma_proof.R.pt(),
            proof.sigma_proof.r_h.val(),
        );
        proof {
            assert(Seq::<int>::empty().push(proof.cm.val()) + point_encoding(
                proof.sigma_proof.R.pt(),
            ) =~= seq![proof.cm.val()] + point_encoding(proof.sigma_proof.R.pt()));
            assert((seq![proof.cm.val()] + point_encoding(proof.sigma_proof.R.pt())).push(
                proof.sigma_proof.r_h.val(),
            ) =~= seq![proof.cm.val()] + point_encoding(proof.sigma_proof.R.pt())
                + seq![proof.sigma_proof.r_h.val()]);
            assert(c.val() == cs);
            assert((seq![proof.cm.val()] + point_encoding(proof.sigma_proof.R.pt())
                + seq![proof.sigma_proof.r_h.val()]).push(c.val()) =~= sigma_trace(
                proof.cm.val(),
                proof.sigma_proof.R.pt(),
                proof.sigma_proof.r_h.val(),
                cs,
            ));
            assert forall|rv: int, xv: int|
                0 <= rv < fr_order() && 0 <= xv < fr_order() && proof.sigma_proof.R.pt()
                    == #[trigger] gen_mul(rv) && X.pt()
                    == #[trigger] gen_mul(xv) implies ((lhs.pt() == rhs.pt())
                <==> proof.sigma_proof.s.val() == (rv + cs * xv) % fr_order()) by {
                assert(cx.pt() == gen_mul((xv * c.val()) % fr_order()));
                lemma_mod_bound(xv * c.val(), fr_order());
                assert(rhs.pt() == gen_mul((rv + (xv * c.val()) % fr_order()) % fr_order()));
                lemma_add_mod_noop_right(rv, xv * c.val(), fr_order());
                assert(xv * c.val() == c.val() * xv) by (nonlinear_arith);
                lemma_mod_bound(rv + cs * xv, fr_order());
                assert(rhs.pt() == gen_mul((rv + cs * xv) % fr_order()));
                if proof.sigma_proof.s.val() != (rv + cs * xv) % fr_order() {
                    assert(gen_mul((rv + cs * xv) % fr_order()) != lhs.pt());
                }
            }
        }

        if !lhs.equals(&rhs) {
            return Err(Error::SigmaFail);
        }

        let mut v: Vec<Scalar> = Vec::new();
        v.push(proof.cm);
        v.push(proof.sigma_proof.s);
        v.push(proof.sigma_proof.r_h);
        v.push(c);
        Ok(v)
    }

    /// Folds the SNARK backend's boolean verdict on the public-input vector
    /// and the SNARK proof into the protocol's result: acceptance, or the
    /// `GenZKFail` failure mode.
    pub fn finish_verify(zk_ok: bool) -> (res: Result<(), Error>)
        ensures
            res is Ok <==> zk_ok,
            !zk_ok ==> res == Err::<(), Error>(Error::GenZKFail),
    {
        if zk_ok {
            Ok(())
        } else {
            Err(Error::GenZKFail)
        }
    }
}

/// Completeness of the Sigma layer: values laid down as `prove` lays them
/// down satisfy, for the statement point `X = x*G`, exactly the equation
/// `verify` decides, so an honest proof passes the Sigma check. (The SNARK
/// layer's acceptance is the backend's own completeness, outside the
/// library.)
pub proof fn lemma_completeness(
    cfg: HashConfig,
    x: Scalar,
    r: Scalar,
    cm: Scalar,
    r_h: Scalar,
    c: Scalar,
    s: Scalar,
    R: Point,
    X: Point,
)
    requires
        c.val() == challenge_spec(cfg, cm.val(), R.pt(), r_h.val()),
        s.val() == (r.val() + c.val() * x.val()) % fr_order(),
        R.pt() == gen_mul(r.val()),
        X.pt() == gen_mul(x.val()),
    ensures
        s.val() == (r.val() + challenge_spec(cfg, cm.val(), R.pt(), r_h.val()) * x.val())
            % fr_order(),
{
}

/// A mutated response is rejected: whenever the honest response `s` satisfies
/// the equation `verify` decides, any distinct response in its place fails
/// it. The challenge does not change, because the response is never absorbed
/// into the transcript.
pub proof fn lemma_response_mutation_rejected(s: Scalar, s2: Scalar, rv: int, c: int, xv: int)
    requires
        s.val() == (rv + c * xv) % fr_order(),
        s2.val() != s.val(),
    ensures
        s2.val() != (rv + c * xv) % fr_order(),
{
}

/// Rejection of a wrong statement: a response formed honestly for the secret
/// `xv` fails the equation `verify` decides for any other statement `xv2`
/// that the challenge `c` separates, that is, whenever `c*xv` and `c*xv2`
/// differ in the scalar field. (A challenge that collides the two statements,
/// such as `c == 0`, is excluded: there the equation genuinely holds for
/// both.)
pub proof fn lemma_wrong_statement_rejected(s: Scalar, rv: int, c: int, xv: int, xv2: int)
    requires
        s.val() == (rv + c * xv) % fr_order(),
        (c * xv) % fr_order() != (c * xv2) % fr_order(),
    ensures
        s.val() != (rv + c * xv2) % fr_order(),
{
    let n = fr_order();
    let pa = (c * xv) % n;
    let pb = (c * xv2) % n;
    lemma_mod_bound(c * xv, n);
    lemma_mod_bound(c * xv2, n);
    lemma_add_mod_noop(rv, c * xv, n);
    lemma_add_mod_noop(rv, c * xv2, n);
    lemma_mod_bound(rv, n);
    let ra = rv % n;
    if ra + pa < n {
        lemma_fundamental_div_mod_converse(ra + pa, n, 0, ra + pa);
    } else {
        lemma_fundamental_div_mod_converse(ra + pa, n, 1, ra + pa - n);
    }
    if ra + pb < n {
        lemma_fundamental_div_mod_converse(ra + pb, n, 0, ra + pb);
    } else {
        lemma_fundamental_div_mod_converse(ra + pb, n, 1, ra + pb - n);
    }
}

} // verus!
