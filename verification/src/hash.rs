//! The hash primitive: a Poseidon sponge over the bn254 scalar field,
//! parameterized by a small set of round parameters. The permutation itself
//! is out of scope; its output on a given configuration and input sequence is
//! a pure function, named `poseidon_of`, and every hash and challenge in the
//! protocol is stated in terms of that one name.
use vstd::prelude::*;

use ark_bn254::Fr;
use ark_crypto_primitives::sponge::poseidon::{find_poseidon_ark_and_mds, PoseidonConfig, PoseidonSponge};
use ark_crypto_primitives::sponge::CryptographicSponge;
use ark_ff::{BigInt, PrimeField};

verus! {

use crate::scalar::Scalar;

/// Round parameters of the Poseidon permutation. The round constants and the
/// mixing matrix are derived deterministically from these parameters (and the
/// field), so two equal configurations define the same hash function. The
/// sponge capacity is fixed at one field element.
#[derive(Clone, Copy, Debug, PartialEq, Eq, Structural)]
pub struct HashConfig {
    pub full_rounds: u64,
    pub partial_rounds: u64,
    pub alpha: u64,
    pub rate: u64,
}

impl HashConfig {
    /// Parameters the sponge accepts: at least one rate element, and a round
    /// count whose sum fits in a machine word.
    pub open spec fn wf(self) -> bool {
        1 <= self.rate && self.full_rounds + self.partial_rounds <= u64::MAX
    }

    /// Whether the parameters are acceptable to the sponge.
    pub fn is_valid(&self) -> (r: bool)
        ensures
            r == self.wf(),
    {
        1 <= self.rate && self.full_rounds <= u64::MAX - self.partial_rounds
    }
}

/// The field element squeezed by a Poseidon sponge with configuration `cfg`
/// after absorbing `inputs`, each an integer below `fr_order()`.
/// Determined by its arguments alone.
pub uninterp spec fn poseidon_of(cfg: HashConfig, inputs: Seq<int>) -> int;

/// The values of a sequence of scalars.
pub open spec fn scalar_vals(s: Seq<Scalar>) -> Seq<int> {
    s.map(|i: int, x: Scalar| x.val())
}

/// One evaluation of the Poseidon hash: a fresh sponge absorbs the inputs in
/// order and squeezes one field element.
///
/// Relies on `ark_crypto_primitives`' `PoseidonSponge` (`new`, `absorb`,
/// `squeeze_field_elements`) and `find_poseidon_ark_and_mds`, which derives
/// the round constants and mixing matrix deterministically from the field and
/// the round parameters. Absorbing elements one by one equals absorbing them
/// as one list: the sponge pads nothing between absorb calls.
#[verifier::external_body]
pub fn poseidon_eval(cfg: &HashConfig, inputs: &Vec<Scalar>) -> (r: Scalar)
    requires
        cfg.wf(),
        forall|i: int| 0 <= i < inputs@.len() ==> (#[trigger] inputs@[i]).wf(),
    ensures
        r.val() == poseidon_of(*cfg, scalar_vals(inputs@)),
        r.wf(),
{
    let (ark, mds) = find_poseidon_ark_and_mds::<Fr>(
        Fr::MODULUS_BIT_SIZE as u64, cfg.rate as usize, cfg.full_rounds, cfg.partial_rounds, 0,
    );
    let pc = PoseidonConfig::new(
        cfg.full_rounds as usize, cfg.partial_rounds as usize, cfg.alpha, mds, ark,
        cfg.rate as usize, 1,
    );
    let mut sponge = PoseidonSponge::<Fr>::new(&pc);
    for s in inputs.iter() {
        sponge.absorb(&Fr::from_bigint(BigInt::new([s.l0, s.l1, s.l2, s.l3])).unwrap());
    }
    let out = sponge.squeeze_field_elements::<Fr>(1)[0].into_bigint().0;
    Scalar { l0: out[0], l1: out[1], l2: out[2], l3: out[3] }
}

/// Transcript determinism: the challenge squeezed from a sponge is a function
/// of the hash configuration and of the absorbed values alone, so two
/// sessions with the same configuration that absorb equal values in the same
/// order obtain the same challenge.
pub proof fn lemma_challenge_deterministic(
    cfg1: HashConfig, inputs1: Seq<int>,
    cfg2: HashConfig, inputs2: Seq<int>,
)
    requires
        cfg1 == cfg2,
        inputs1 == inputs2,
    ensures
        poseidon_of(cfg1, inputs1) == poseidon_of(cfg2, inputs2),
{
}

} // verus!
