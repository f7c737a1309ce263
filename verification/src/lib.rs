//! Non-interactive proof of knowledge of a discrete logarithm: a Sigma
//! protocol whose commitment and response values are additionally bound to a
//! Poseidon commitment checked inside a Groth16 SNARK, made non-interactive
//! with a Fiat-Shamir transcript over the bn254 scalar field.
#![allow(non_snake_case)]

pub mod circuits;
pub mod hash;
pub mod point;
pub mod scalar;
pub mod sigmabus;
pub mod transcript;

use vstd::prelude::*;

verus! {

/// The two verification failure modes. They are deliberately distinct: a
/// `SigmaFail` localizes the fault in the outer discrete-log linear check,
/// a `GenZKFail` in the SNARK-checked committed relation.
#[derive(Clone, Copy, Debug, PartialEq, Eq, Structural)]
pub enum Error {
    /// The Sigma-protocol linear equation `s*G == R + c*X` did not hold.
    SigmaFail,
    /// The SNARK backend rejected the committed relation.
    GenZKFail,
}

} // verus!
