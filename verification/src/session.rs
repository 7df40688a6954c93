//! The recursive protocol as a sequence of decisions.
//!
//! Proving and verifying are done by a proof system outside this library.
//! A [`Stage`] says what the host has to ask of it next; the host performs
//! that action and reports the outcome as an [`Event`], and [`advance`]
//! decides how the protocol goes on.  The protocol proves the polynomial
//! root check, proves the circuit that verifies that proof, and ends by
//! verifying the outer proof.

use vstd::prelude::*;
use vstd::arithmetic::power2::pow2;
use crate::circuit::CircuitConfig;
use crate::field::reduce;
use crate::field::ORDER;
use crate::poly::as_ints;
use crate::poly::gen_poly_proof;
use crate::poly::is_root_check;
use crate::poly::poly_eval;
use crate::poly::root_witness;
use crate::prover::finish_proof;
use crate::prover::sealed;
use crate::prover::sealed_common;
use crate::prover::verification_wanted;
use crate::prover::CompiledCircuit;
use crate::prover::ProofRequest;
use crate::prover::VerifiableProof;
use crate::prover::VerifyError;
use crate::recursion::build_recursive_proof;
use crate::recursion::is_recursive_circuit;
use crate::recursion::recursive_witness;
use crate::recursion::RecursionError;

verus! {

/// Why the protocol ended without a verified recursive proof.
#[derive(Clone, Copy, Debug, PartialEq, Eq, Structural)]
pub enum Failure {
    /// The evaluation point is not a root of the polynomial, so the inner
    /// witness cannot satisfy the root check.
    Unsatisfied,
    /// The outside prover failed on the inner circuit.
    InnerProver,
    /// The outer circuit could not be built or its witness not be bound.
    Recursion(RecursionError),
    /// The outside prover failed on the outer circuit.
    OuterProver,
    /// The outer proof was not accepted.
    Verification(VerifyError),
    /// The host reported an event that the stage was not waiting for.
    UnexpectedEvent,
}

/// What the host reports back.
pub enum Event {
    /// The outside proof system compiled the circuit of the pending request
    /// and tried to prove it; `proof_bytes` is `None` where the prover
    /// failed.
    Proved { compiled: CompiledCircuit, proof_bytes: Option<Vec<u8>> },
    /// The outside verifier checked the pending proof.
    Verified { accepted: bool },
}

/// What the host has to do next.
#[derive(Clone, Copy, Debug, PartialEq, Eq, Structural)]
pub enum Action {
    /// Compile and prove the pending request, then report `Proved`.
    Prove,
    /// Verify the pending proof, then report `Verified`.
    Verify,
    /// Nothing: the protocol has ended.
    Finish,
}

/// Where the protocol stands.
pub enum Stage {
    /// Waiting for the proof of the root check.
    ProvingInner { request: ProofRequest },
    /// Waiting for the proof of the circuit that verifies `inner`.
    ProvingOuter { inner: VerifiableProof, request: ProofRequest },
    /// Waiting for the verdict on the outer proof.
    Verifying { outer: VerifiableProof },
    /// The outer proof was produced and verified.
    Succeeded { outer: VerifiableProof },
    /// The protocol ended early.
    Failed { reason: Failure },
}

impl Stage {
    /// What the host has to do at this stage.
    pub fn action(&self) -> (a: Action)
        ensures
            a == match *self {
                Stage::ProvingInner { .. } => Action::Prove,
                Stage::ProvingOuter { .. } => Action::Prove,
                Stage::Verifying { .. } => Action::Verify,
                Stage::Succeeded { .. } => Action::Finish,
                Stage::Failed { .. } => Action::Finish,
            },
    {
        match self {
            Stage::ProvingInner { .. } => Action::Prove,
            Stage::ProvingOuter { .. } => Action::Prove,
            Stage::Verifying { .. } => Action::Verify,
            Stage::Succeeded { .. } => Action::Finish,
            Stage::Failed { .. } => Action::Finish,
        }
    }
}

/// Whether the verifier data that the outside proof system compiled fits a
/// circuit configured with `config`.
pub open spec fn cap_fits(config: CircuitConfig, compiled: CompiledCircuit) -> bool {
    compiled.verifier_only.constants_sigmas_cap@.len() == pow2(config.cap_height as nat)
}

/// Begins the protocol: builds the root check for `coeffs` at `x` and checks
/// its witness.  The host is asked for the inner proof exactly when `x` is a
/// root of the polynomial in the field; otherwise the protocol has failed
/// before any proving.
pub fn start(config: CircuitConfig, coeffs: &Vec<i64>, x: u64) -> (stage: Stage)
    requires
        x < ORDER,
    ensures
        reduce(poly_eval(as_ints(coeffs@), x as int)) == 0 ==> ({
            &&& stage matches Stage::ProvingInner { request }
            &&& is_root_check(request@.circuit, coeffs@.len() as int)
            &&& request@.circuit.config == config
            &&& request@.witness == root_witness(as_ints(coeffs@), x as int)
            &&& request@.checked()
        }),
        reduce(poly_eval(as_ints(coeffs@), x as int)) != 0 ==> stage == (Stage::Failed {
            reason: Failure::Unsatisfied,
        }),
{
    match gen_poly_proof(config, coeffs, x) {
        Some(request) => Stage::ProvingInner { request },
        None => Stage::Failed { reason: Failure::Unsatisfied },
    }
}

/// The stage that follows `stage` when the host reports `event`.
///
/// - While the inner proof is awaited: a failed prover ends the protocol;
///   a proof is packaged with its verifier data, and the outer circuit is
///   built and bound to it.  A shape mismatch ends the protocol here, before
///   any outer proving.
/// - While the outer proof is awaited: a failed prover ends the protocol;
///   a proof is packaged and handed on for verification, unless its
///   verifier data does not fit.
/// - While the verdict is awaited: the protocol succeeds exactly when the
///   outer proof is accepted.
/// - A stage that has ended stays as it is, and an event that a stage is not
///   waiting for ends the protocol.
pub fn advance(stage: Stage, event: Event) -> (next: Stage)
    ensures
        match (stage, event) {
            (Stage::ProvingInner { request }, Event::Proved { compiled, proof_bytes }) => {
                let config = request@.circuit.config;
                match proof_bytes {
                    None => next == (Stage::Failed { reason: Failure::InnerProver }),
                    Some(bytes) => if pow2(config.cap_height as nat) > usize::MAX {
                        next == (Stage::Failed {
                            reason: Failure::Recursion(RecursionError::CapTooLarge),
                        })
                    } else if !cap_fits(config, compiled) {
                        next == (Stage::Failed {
                            reason: Failure::Recursion(RecursionError::VerifierDataShape),
                        })
                    } else {
                        &&& next matches Stage::ProvingOuter { inner, request: outer }
                        &&& sealed(inner, request@, compiled, bytes)
                        &&& outer@.checked()
                        &&& outer@.circuit.config == config
                        &&& is_recursive_circuit(
                            outer@.circuit,
                            sealed_common(request@, compiled.degree_bits),
                        )
                        &&& outer@.witness == recursive_witness(inner)
                        &&& outer@.public_inputs == request@.public_inputs
                    },
                }
            },
            (Stage::ProvingOuter { inner, request }, Event::Proved { compiled, proof_bytes }) => {
                match proof_bytes {
                    None => next == (Stage::Failed { reason: Failure::OuterProver }),
                    Some(bytes) => if cap_fits(request@.circuit.config, compiled) {
                        &&& next matches Stage::Verifying { outer }
                        &&& sealed(outer, request@, compiled, bytes)
                    } else {
                        next == (Stage::Failed {
                            reason: Failure::Verification(VerifyError::ShapeMismatch),
                        })
                    },
                }
            },
            (Stage::Verifying { outer }, Event::Verified { accepted }) => if accepted {
                next == (Stage::Succeeded { outer })
            } else {
                next == (Stage::Failed { reason: Failure::Verification(VerifyError::Rejected) })
            },
            (Stage::Succeeded { outer }, _) => next == (Stage::Succeeded { outer }),
            (Stage::Failed { reason }, _) => next == (Stage::Failed { reason }),
            _ => next == (Stage::Failed { reason: Failure::UnexpectedEvent }),
        },
{
    match stage {
        Stage::ProvingInner { request } => match event {
            Event::Proved { compiled, proof_bytes } => {
                let config = request.circuit().config();
                match finish_proof(&request, compiled, proof_bytes) {
                    Err(_) => Stage::Failed { reason: Failure::InnerProver },
                    Ok(inner) => match build_recursive_proof(config, &inner) {
                        Ok(outer) => Stage::ProvingOuter { inner, request: outer },
                        Err(e) => Stage::Failed { reason: Failure::Recursion(e) },
                    },
                }
            },
            _ => Stage::Failed { reason: Failure::UnexpectedEvent },
        },
        Stage::ProvingOuter { inner, request } => match event {
            Event::Proved { compiled, proof_bytes } => {
                match finish_proof(&request, compiled, proof_bytes) {
                    Err(_) => Stage::Failed { reason: Failure::OuterProver },
                    Ok(outer) => {
                        if verification_wanted(&outer.proof, &outer.verifier_circuit_data) {
                            Stage::Verifying { outer }
                        } else {
                            Stage::Failed {
                                reason: Failure::Verification(VerifyError::ShapeMismatch),
                            }
                        }
                    },
                }
            },
            _ => Stage::Failed { reason: Failure::UnexpectedEvent },
        },
        Stage::Verifying { outer } => match event {
            Event::Verified { accepted } => {
                if accepted {
                    Stage::Succeeded { outer }
                } else {
                    Stage::Failed { reason: Failure::Verification(VerifyError::Rejected) }
                }
            },
            _ => Stage::Failed { reason: Failure::UnexpectedEvent },
        },
        Stage::Succeeded { outer } => Stage::Succeeded { outer },
        Stage::Failed { reason } => Stage::Failed { reason },
    }
}

} // verus!
