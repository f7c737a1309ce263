//! End-to-end tests of the protocol with the real Groth16 backend: key
//! generation, proving and verification run exactly as an embedding
//! application runs them around the library.
use ark_bn254::{Bn254, Fr};
use ark_crypto_primitives::crh::poseidon::constraints::{CRHGadget, CRHParametersVar};
use ark_crypto_primitives::crh::CRHSchemeGadget;
use ark_crypto_primitives::snark::SNARK;
use ark_crypto_primitives::sponge::poseidon::{find_poseidon_ark_and_mds, PoseidonConfig};
use ark_ff::{BigInt, PrimeField};
use ark_groth16::{Groth16, Proof as Groth16Proof, ProvingKey, VerifyingKey};
use ark_r1cs_std::alloc::AllocVar;
use ark_r1cs_std::eq::EqGadget;
use ark_r1cs_std::fields::fp::FpVar;
use ark_relations::r1cs::{
    ConstraintSynthesizer, ConstraintSystem, ConstraintSystemRef, SynthesisError,
};
use ark_serialize::{CanonicalDeserialize, CanonicalSerialize};
use ark_std::rand::rngs::StdRng;
use ark_std::rand::{RngCore, SeedableRng};

use sigmabus::circuits::GenZKCircuit;
use sigmabus::hash::HashConfig;
use sigmabus::point::{point_mul_gen, Point};
use sigmabus::scalar::{sample_scalar, Scalar};
use sigmabus::sigmabus::{Params, Proof, Sigmabus};
use sigmabus::transcript::PoseidonTranscript;
use sigmabus::Error;

fn test_config() -> HashConfig {
    HashConfig { full_rounds: 8, partial_rounds: 31, alpha: 5, rate: 2 }
}

fn to_fr(s: &Scalar) -> Fr {
    Fr::from_bigint(BigInt::new([s.l0, s.l1, s.l2, s.l3])).unwrap()
}

fn ark_poseidon_config(h: &HashConfig) -> PoseidonConfig<Fr> {
    let (ark, mds) = find_poseidon_ark_and_mds::<Fr>(
        Fr::MODULUS_BIT_SIZE as u64,
        h.rate as usize,
        h.full_rounds,
        h.partial_rounds,
        0,
    );
    PoseidonConfig::new(
        h.full_rounds as usize,
        h.partial_rounds as usize,
        h.alpha,
        mds,
        ark,
        h.rate as usize,
        1,
    )
}

/// The GenZK relation rendered as an arkworks constraint synthesizer, as the
/// SNARK backend consumes it.
struct ArkGenZK {
    config: PoseidonConfig<Fr>,
    cm: Fr,
    s: Fr,
    r_h: Fr,
    c: Fr,
    x: Fr,
    r: Fr,
    o_h: Fr,
}

impl ConstraintSynthesizer<Fr> for ArkGenZK {
    fn generate_constraints(self, cs: ConstraintSystemRef<Fr>) -> Result<(), SynthesisError> {
        let cm = FpVar::<Fr>::new_input(cs.clone(), || Ok(self.cm))?;
        let s = FpVar::<Fr>::new_input(cs.clone(), || Ok(self.s))?;
        let r_h = FpVar::<Fr>::new_input(cs.clone(), || Ok(self.r_h))?;
        let c = FpVar::<Fr>::new_input(cs.clone(), || Ok(self.c))?;
        let x = FpVar::<Fr>::new_witness(cs.clone(), || Ok(self.x))?;
        let r = FpVar::<Fr>::new_witness(cs.clone(), || Ok(self.r))?;
        let o_h = FpVar::<Fr>::new_witness(cs.clone(), || Ok(self.o_h))?;
        let params = CRHParametersVar::<Fr>::new_witness(cs.clone(), || Ok(self.config.clone()))?;
        let computed_cm = CRHGadget::<Fr>::evaluate(&params, &[x.clone()])?;
        computed_cm.enforce_equal(&cm)?;
        let computed_r_h = CRHGadget::<Fr>::evaluate(&params, &[r.clone(), o_h.clone()])?;
        computed_r_h.enforce_equal(&r_h)?;
        s.enforce_equal(&(r + c * x))?;
        Ok(())
    }
}

fn ark_circuit(c: &GenZKCircuit) -> ArkGenZK {
    ArkGenZK {
        config: ark_poseidon_config(&c.poseidon_config),
        cm: to_fr(&c.cm),
        s: to_fr(&c.s),
        r_h: to_fr(&c.r_h),
        c: to_fr(&c.c),
        x: to_fr(&c.x),
        r: to_fr(&c.r),
        o_h: to_fr(&c.o_h),
    }
}

fn backend_setup(rng: &mut StdRng, cfg: &HashConfig) -> Params {
    let circuit = ark_circuit(&Sigmabus::setup(cfg));
    let (pk, vk) = Groth16::<Bn254>::circuit_specific_setup(circuit, rng).unwrap();
    let mut pk_bytes: Vec<u8> = Vec::new();
    pk.serialize_uncompressed(&mut pk_bytes).unwrap();
    let mut vk_bytes: Vec<u8> = Vec::new();
    vk.serialize_uncompressed(&mut vk_bytes).unwrap();
    Params::new(*cfg, pk_bytes, vk_bytes)
}

fn backend_prove(rng: &mut StdRng, params: &Params, x: &Scalar) -> Proof {
    let mut transcript = PoseidonTranscript::new(&params.poseidon_config);
    let r = sample_scalar(rng);
    assert!(!r.is_zero());
    let o_h = sample_scalar(rng);
    let out = Sigmabus::prove(params, &mut transcript, x, &r, &o_h);
    let pk = ProvingKey::<Bn254>::deserialize_uncompressed_unchecked(&params.pk[..]).unwrap();
    let zk = Groth16::<Bn254>::prove(&pk, ark_circuit(&out.circuit), rng).unwrap();
    let mut zk_bytes: Vec<u8> = Vec::new();
    zk.serialize_uncompressed(&mut zk_bytes).unwrap();
    Proof { cm: out.circuit.cm, sigma_proof: out.sigma_proof, zkproof: zk_bytes }
}

fn backend_verify(params: &Params, proof: &Proof, big_x: &Point) -> Result<(), Error> {
    let mut transcript = PoseidonTranscript::new(&params.poseidon_config);
    let inputs = Sigmabus::verify(params, &mut transcript, proof, big_x)?;
    let vk = VerifyingKey::<Bn254>::deserialize_uncompressed_unchecked(&params.vk[..]).unwrap();
    let zk = Groth16Proof::<Bn254>::deserialize_uncompressed_unchecked(&proof.zkproof[..])
        .unwrap();
    let input_frs: Vec<Fr> = inputs.iter().map(to_fr).collect();
    let ok = Groth16::<Bn254>::verify(&vk, &input_frs, &zk).unwrap();
    Sigmabus::finish_verify(ok)
}

#[test]
fn test_sigmabus_prove_verify() {
    let mut rng = StdRng::seed_from_u64(ark_std::test_rng().next_u64());
    let poseidon_config = test_config();

    // generate the trusted setup
    let params = backend_setup(&mut rng, &poseidon_config);

    // compute X = x * G
    let x = sample_scalar(&mut rng);
    let big_x = point_mul_gen(&x);

    // generate Sigmabus proof for X == x * G
    let proof = backend_prove(&mut rng, &params, &x);

    // verify Sigmabus proof for X == x * G
    backend_verify(&params, &proof, &big_x).unwrap();
}

#[test]
fn test_gen_zk() {
    let mut rng = StdRng::seed_from_u64(42);
    let poseidon_config = test_config();
    let params = Params::new(poseidon_config, Vec::new(), Vec::new());
    let mut transcript = PoseidonTranscript::new(&poseidon_config);

    let x = sample_scalar(&mut rng);
    let r = sample_scalar(&mut rng);
    assert!(!r.is_zero());
    let o_h = sample_scalar(&mut rng);
    let out = Sigmabus::prove(&params, &mut transcript, &x, &r, &o_h);

    // the assigned instance satisfies the relation natively ...
    assert!(out.circuit.check());

    // ... and the constraint-system rendering is satisfied by it too
    let cs = ConstraintSystem::<Fr>::new_ref();
    ark_circuit(&out.circuit).generate_constraints(cs.clone()).unwrap();
    assert!(cs.is_satisfied().unwrap());
}

#[test]
fn test_concrete_scenario() {
    let mut rng = StdRng::seed_from_u64(7);
    let poseidon_config = test_config();
    let params = backend_setup(&mut rng, &poseidon_config);

    // x = 7, X = 7 * G
    let x = Scalar::from_u64(7);
    let big_x = point_mul_gen(&x);

    let proof = backend_prove(&mut rng, &params, &x);
    assert!(backend_verify(&params, &proof, &big_x).is_ok());

    // flipping one bit of the response s gives SigmaFail
    let flipped = Proof {
        cm: proof.cm,
        sigma_proof: sigmabus::sigmabus::SigmaProof {
            s: Scalar {
                l0: proof.sigma_proof.s.l0 ^ 1,
                l1: proof.sigma_proof.s.l1,
                l2: proof.sigma_proof.s.l2,
                l3: proof.sigma_proof.s.l3,
            },
            R: proof.sigma_proof.R,
            r_h: proof.sigma_proof.r_h,
        },
        zkproof: proof.zkproof.clone(),
    };
    assert!(matches!(backend_verify(&params, &flipped, &big_x), Err(Error::SigmaFail)));

    // corrupting the SNARK proof bytes, with cm, s, R, r_h intact, gives
    // GenZKFail: here the bytes of a proof from an unrelated session
    let other = backend_prove(&mut rng, &params, &x);
    assert_ne!(proof.zkproof, other.zkproof);
    let corrupted = Proof {
        cm: proof.cm,
        sigma_proof: proof.sigma_proof,
        zkproof: other.zkproof.clone(),
    };
    assert!(matches!(backend_verify(&params, &corrupted, &big_x), Err(Error::GenZKFail)));
}

#[test]
fn test_key_reusability() {
    let mut rng = StdRng::seed_from_u64(99);
    let poseidon_config = test_config();
    let params = backend_setup(&mut rng, &poseidon_config);

    // one setup serves many independent (x, X) instances
    for seed in [1u64, 2, 3] {
        let x = Scalar::from_u64(1000 + seed);
        let big_x = point_mul_gen(&x);
        let proof = backend_prove(&mut rng, &params, &x);
        assert!(backend_verify(&params, &proof, &big_x).is_ok());
    }

    // and still rejects a statement that does not match the secret
    let x = Scalar::from_u64(21);
    let proof = backend_prove(&mut rng, &params, &x);
    let wrong_x = point_mul_gen(&Scalar::from_u64(22));
    assert!(backend_verify(&params, &proof, &wrong_x).is_err());
}
