//! Recursive composition: a circuit whose constraints say that a proof of
//! another circuit verifies.
//!
//! The outer circuit holds a wire bundle for the inner proof and one for the
//! inner verifier data, exposes the inner proof's public inputs as its own,
//! and ties the two bundles together with the verify-proof gadget.  Its
//! witness binds the bundles to the concrete inner proof and verifier data.

use vstd::prelude::*;
use vstd::arithmetic::power2::pow2;
use crate::circuit::CircuitBuilder;
use crate::circuit::CircuitConfig;
use crate::circuit::CircuitModel;
use crate::circuit::CommonData;
use crate::circuit::ProofTarget;
use crate::circuit::VerifierDataTarget;
use crate::circuit::Wire;
use crate::field::felts_view;
use crate::field::Felt;
use crate::prover::fits;
use crate::prover::prepare_proof;
use crate::prover::proof_fits;
use crate::prover::verifier_data_fits;
use crate::prover::Proof;
use crate::prover::ProofRequest;
use crate::prover::VerifiableProof;
use crate::prover::VerifierOnlyData;
use crate::witness::bind_each;
use crate::witness::lemma_bind_each_fresh;
use crate::witness::Witness;
use crate::witness::WitnessError;

verus! {

/// The wires of a verifier-data bundle in binding order: the four wires of
/// each digest of the cap, digest by digest, then the four wires of the
/// circuit digest.
pub open spec fn verifier_wires(target: VerifierDataTarget) -> Seq<Wire> {
    let cap = target.constants_sigmas_cap@;
    Seq::new(
        4 * cap.len() + 4,
        |i: int|
            if i < 4 * cap.len() {
                cap[i / 4]@[i % 4]
            } else {
                target.circuit_digest@[i - 4 * cap.len()]
            },
    )
}

/// The field elements of verifier data, in the order of [`verifier_wires`].
pub open spec fn verifier_values(data: VerifierOnlyData) -> Seq<int> {
    let cap = data.constants_sigmas_cap@;
    Seq::new(
        4 * cap.len() + 4,
        |i: int|
            if i < 4 * cap.len() {
                cap[i / 4]@[i % 4]@
            } else {
                data.circuit_digest@[i - 4 * cap.len()]@
            },
    )
}

fn flatten_target(target: &VerifierDataTarget) -> (r: Vec<Wire>)
    ensures
        r@ == verifier_wires(*target),
{
    let cap = &target.constants_sigmas_cap;
    let mut r: Vec<Wire> = Vec::new();
    let mut j: usize = 0;
    while j < cap.len()
        invariant
            j <= cap@.len(),
            r@.len() == 4 * j,
            forall|i: int| 0 <= i < 4 * j ==> #[trigger] r@[i] == cap@[i / 4]@[i % 4],
        decreases cap@.len() - j,
    {
        let hash = cap[j];
        r.push(hash[0]);
        r.push(hash[1]);
        r.push(hash[2]);
        r.push(hash[3]);
        j = j + 1;
    }
    let digest = target.circuit_digest;
    r.push(digest[0]);
    r.push(digest[1]);
    r.push(digest[2]);
    r.push(digest[3]);
    assert(r@ =~= verifier_wires(*target));
    r
}

fn flatten_data(data: &VerifierOnlyData) -> (r: Vec<Felt>)
    ensures
        felts_view(r@) == verifier_values(*data),
{
    let cap = &data.constants_sigmas_cap;
    let mut r: Vec<Felt> = Vec::new();
    let mut j: usize = 0;
    while j < cap.len()
        invariant
            j <= cap@.len(),
            r@.len() == 4 * j,
            forall|i: int| 0 <= i < 4 * j ==> #[trigger] r@[i] == cap@[i / 4]@[i % 4],
        decreases cap@.len() - j,
    {
        let hash = cap[j];
        r.push(hash[0]);
        r.push(hash[1]);
        r.push(hash[2]);
        r.push(hash[3]);
        j = j + 1;
    }
    let digest = data.circuit_digest;
    r.push(digest[0]);
    r.push(digest[1]);
    r.push(digest[2]);
    r.push(digest[3]);
    assert(felts_view(r@) =~= verifier_values(*data));
    r
}

impl Witness {
    /// Binds the public-input wires of a proof bundle to the public inputs of
    /// `proof`, in order.  The opaque part of the proof is bound by the
    /// outside proof system, which is handed the proof itself.
    ///
    /// Refused with `ShapeMismatch`, before anything is bound, when the proof
    /// does not have the shape that the bundle was allocated for.
    pub fn set_proof_with_pis_target(&mut self, target: &ProofTarget, proof: &Proof) -> (r: Result<
        (),
        WitnessError,
    >)
        ensures
            final(self)@.len() == old(self)@.len(),
            !bundle_takes(*target, *proof) ==> r == Err::<(), WitnessError>(
                WitnessError::ShapeMismatch,
            ) && final(self)@ == old(self)@,
            bundle_takes(*target, *proof) ==> {
                &&& final(self)@ == bind_each(
                    old(self)@,
                    target.public_inputs@,
                    felts_view(proof.public_inputs@),
                ).0
                &&& match bind_each(
                    old(self)@,
                    target.public_inputs@,
                    felts_view(proof.public_inputs@),
                ).1 {
                    Some(e) => r == Err::<(), WitnessError>(e),
                    None => r is Ok,
                }
            },
    {
        if !fits(proof, &target.common) || target.public_inputs.len() != proof.public_inputs.len() {
            return Err(WitnessError::ShapeMismatch);
        }
        self.set_targets(&target.public_inputs, &proof.public_inputs)
    }

    /// Binds the wires of a verifier-data bundle to the elements of `data`:
    /// the cap digest by digest, then the circuit digest.
    ///
    /// Refused with `ShapeMismatch`, before anything is bound, when the cap
    /// of `data` does not have as many digests as the cap of the bundle.
    pub fn set_verifier_data_target(
        &mut self,
        target: &VerifierDataTarget,
        data: &VerifierOnlyData,
    ) -> (r: Result<(), WitnessError>)
        ensures
            final(self)@.len() == old(self)@.len(),
            target.constants_sigmas_cap@.len() != data.constants_sigmas_cap@.len() ==> r == Err::<
                (),
                WitnessError,
            >(WitnessError::ShapeMismatch) && final(self)@ == old(self)@,
            target.constants_sigmas_cap@.len() == data.constants_sigmas_cap@.len() ==> {
                &&& final(self)@ == bind_each(
                    old(self)@,
                    verifier_wires(*target),
                    verifier_values(*data),
                ).0
                &&& match bind_each(old(self)@, verifier_wires(*target), verifier_values(*data)).1 {
                    Some(e) => r == Err::<(), WitnessError>(e),
                    None => r is Ok,
                }
            },
    {
        if target.constants_sigmas_cap.len() != data.constants_sigmas_cap.len() {
            return Err(WitnessError::ShapeMismatch);
        }
        let wires = flatten_target(target);
        let values = flatten_data(data);
        self.set_targets(&wires, &values)
    }
}

/// Whether a proof bundle takes `proof`: the proof has the shape that the
/// bundle was allocated for, and the bundle has one wire for each of its
/// public inputs.
pub open spec fn bundle_takes(target: ProofTarget, proof: Proof) -> bool {
    proof_fits(proof, target.common) && target.public_inputs@.len() == proof.public_inputs@.len()
}

/// Why no recursive proof can be built.
#[derive(Clone, Copy, Debug, PartialEq, Eq, Structural)]
pub enum RecursionError {
    /// The machine cannot count the digests of a cap of the inner circuit's
    /// height, so no bundle can be allocated for its verifier data.
    CapTooLarge,
    /// The inner proof does not have the shape that the inner circuit's
    /// common data calls for.
    ProofShape,
    /// The cap of the inner verifier data does not have the size that the
    /// inner circuit's common data calls for.
    VerifierDataShape,
}

/// The outer circuit that verifies a proof of a circuit with common data
/// `common`.
///
/// With `n` the number of inner public inputs and `m` the number of digests
/// of a cap, wires `0..n` stand for the inner public inputs and are the
/// public inputs of the outer circuit, in the same order; the next `4 * m`
/// wires are the cap of the verifier data and the last four its circuit
/// digest.  All wires are virtual.  The one constraint is the verify-proof
/// gadget over these bundles.
pub open spec fn is_recursive_circuit(model: CircuitModel, common: CommonData) -> bool {
    let n = common.num_public_inputs as int;
    let m = pow2(common.config.cap_height as nat) as int;
    &&& model.gates.len() == n + 4 * m + 4
    &&& forall|i: int| 0 <= i < model.gates.len() ==> #[trigger] model.gates[i] is Virtual
    &&& model.copies.len() == 0
    &&& model.public_inputs.len() == n
    &&& forall|i: int| 0 <= i < n ==> (#[trigger] model.public_inputs[i]).index == i
    &&& model.verifications.len() == 1
    &&& model.verifications[0].common == common
    &&& model.verifications[0].proof.common == common
    &&& model.verifications[0].proof.public_inputs@ == model.public_inputs
    &&& verifier_wires(model.verifications[0].verifier_data).len() == 4 * m + 4
    &&& forall|i: int|
        0 <= i < 4 * m + 4 ==> (#[trigger] verifier_wires(
            model.verifications[0].verifier_data,
        )[i]).index == n + i
}

/// The witness of the outer circuit: the inner public inputs on the first
/// wires, then the elements of the inner verifier data.
pub open spec fn recursive_witness(inner: VerifiableProof) -> Seq<Option<int>> {
    let inputs = felts_view(inner.proof.public_inputs@);
    let data = verifier_values(inner.verifier_circuit_data.verifier_only);
    Seq::new(
        inputs.len() + data.len(),
        |i: int|
            if i < inputs.len() {
                Some(inputs[i])
            } else {
                Some(data[i - inputs.len()])
            },
    )
}

/// Whether the inner proof and verifier data have the shapes that their
/// common data calls for, on a machine that can hold them.
pub open spec fn recursion_fits(inner: VerifiableProof) -> bool {
    &&& pow2(inner.verifier_circuit_data.common.config.cap_height as nat) <= usize::MAX
    &&& proof_fits(inner.proof, inner.verifier_circuit_data.common)
    &&& verifier_data_fits(inner.verifier_circuit_data)
}

/// The refusal that `inner` meets where it does not fit.
pub open spec fn recursion_refusal(inner: VerifiableProof) -> RecursionError {
    if pow2(inner.verifier_circuit_data.common.config.cap_height as nat) > usize::MAX {
        RecursionError::CapTooLarge
    } else if !proof_fits(inner.proof, inner.verifier_circuit_data.common) {
        RecursionError::ProofShape
    } else {
        RecursionError::VerifierDataShape
    }
}

/// Builds the circuit that verifies `inner`, binds its witness, and checks
/// it: everything of recursive proving that comes before the outside prover.
///
/// In a fresh builder, a proof bundle is allocated from the common data of
/// the inner circuit and its public inputs are registered as public inputs
/// of the outer circuit; a verifier-data bundle is allocated from the cap
/// height; the verify-proof gadget is emitted over both; and the bundles are
/// bound to the inner proof and the inner verifier data.
///
/// A request for the outside prover is returned exactly when the inner proof
/// and verifier data have the shapes that the inner common data calls for.
/// A mismatch is caught here, at binding time, before any proving.
pub fn build_recursive_proof(config: CircuitConfig, inner: &VerifiableProof) -> (r: Result<
    ProofRequest,
    RecursionError,
>)
    ensures
        r is Ok <==> recursion_fits(*inner),
        r matches Err(e) ==> e == recursion_refusal(*inner),
        r matches Ok(request) ==> {
            &&& request@.checked()
            &&& request@.circuit.config == config
            &&& is_recursive_circuit(request@.circuit, inner.verifier_circuit_data.common)
            &&& request@.witness == recursive_witness(*inner)
            &&& request@.public_inputs == felts_view(inner.proof.public_inputs@)
        },
{
    let common = inner.verifier_circuit_data.common;
    let ghost n = common.num_public_inputs as int;
    let ghost m = pow2(common.config.cap_height as nat) as int;
    let mut builder = CircuitBuilder::new(config);
    let proof_target = builder.add_virtual_proof_with_pis(&common);
    let registered = builder.register_public_inputs(&proof_target.public_inputs);
    registered.unwrap();
    let verifier_target = match builder.add_virtual_verifier_data(common.config.cap_height) {
        Ok(target) => target,
        Err(_) => {
            return Err(RecursionError::CapTooLarge);
        },
    };
    let ghost wires = verifier_wires(verifier_target);
    assert(wires.len() == 4 * m + 4);
    assert forall|i: int| 0 <= i < 4 * m + 4 implies (#[trigger] wires[i]).index == n + i by {
        if i < 4 * m {
            let j = i / 4;
            let e = i % 4;
            assert(verifier_target.constants_sigmas_cap@[j]@[e].index == n + 4 * j + e);
        } else {
            let e = i - 4 * m;
            assert(verifier_target.circuit_digest@[e].index == n + 4 * m + e);
        }
    }
    assert(builder@.owns_verifier_target(verifier_target)) by {
        assert forall|j: int| 0 <= j < verifier_target.constants_sigmas_cap@.len() implies builder@.owns_all(
            (#[trigger] verifier_target.constants_sigmas_cap@[j])@,
        ) by {
            let hash = verifier_target.constants_sigmas_cap@[j];
            assert forall|e: int| 0 <= e < hash@.len() implies builder@.owns(#[trigger] hash@[e]) by {
                assert(verifier_target.constants_sigmas_cap@[j]@[e].index == n + 4 * j + e);
            }
        }
        assert forall|e: int| 0 <= e < verifier_target.circuit_digest@.len() implies builder@.owns(
            #[trigger] verifier_target.circuit_digest@[e],
        ) by {
            assert(verifier_target.circuit_digest@[e].index == n + 4 * m + e);
        }
    }
    let emitted = builder.verify_proof(&proof_target, &verifier_target, &common);
    emitted.unwrap();
    let ghost gadget_wires = verifier_wires(builder@.verifications[0].verifier_data);
    assert(gadget_wires =~= wires);

    let mut witness = Witness::new(builder.num_wires());
    let ghost empty = witness@;
    let ghost inputs = felts_view(inner.proof.public_inputs@);
    match witness.set_proof_with_pis_target(&proof_target, &inner.proof) {
        Ok(()) => {},
        Err(_) => {
            proof {
                if bundle_takes(proof_target, inner.proof) {
                    lemma_bind_each_fresh(empty, proof_target.public_inputs@, inputs);
                }
            }
            return Err(RecursionError::ProofShape);
        },
    }
    proof {
        lemma_bind_each_fresh(empty, proof_target.public_inputs@, inputs);
    }
    let ghost bound = witness@;
    assert forall|q: int| n <= q < n + 4 * m + 4 implies bound[q] is None by {
        assert forall|i: int| 0 <= i < proof_target.public_inputs@.len() implies (
        #[trigger] proof_target.public_inputs@[i]).index != q by {}
        assert(empty[q] is None);
        assert(bound[q] == empty[q]);
    }
    let ghost values = verifier_values(inner.verifier_circuit_data.verifier_only);
    match witness.set_verifier_data_target(
        &verifier_target,
        &inner.verifier_circuit_data.verifier_only,
    ) {
        Ok(()) => {},
        Err(_) => {
            proof {
                if verifier_target.constants_sigmas_cap@.len()
                    == inner.verifier_circuit_data.verifier_only.constants_sigmas_cap@.len() {
                    lemma_bind_each_fresh(bound, wires, values);
                }
            }
            return Err(RecursionError::VerifierDataShape);
        },
    }
    proof {
        lemma_bind_each_fresh(bound, wires, values);
        let ghost target_witness = recursive_witness(*inner);
        assert(inputs.len() == n);
        assert(values.len() == 4 * m + 4);
        assert(witness@.len() == n + 4 * m + 4);
        assert(target_witness.len() == n + 4 * m + 4);
        assert forall|q: int| 0 <= q < n + 4 * m + 4 implies #[trigger] witness@[q]
            == target_witness[q] by {
            if q < n {
                assert forall|i: int| 0 <= i < wires.len() implies (#[trigger] wires[i]).index
                    != q by {}
                assert(witness@[q] == bound[q]);
                assert(proof_target.public_inputs@[q].index == q);
                assert(bound[proof_target.public_inputs@[q].index as int] == Some(inputs[q]));
            } else {
                assert(wires[q - n].index == q);
                assert(witness@[wires[q - n].index as int] == Some(values[q - n]));
            }
        }
        assert(witness@ =~= recursive_witness(*inner));
    }
    let circuit = builder.build();
    proof {
        assert forall|i: int| 0 <= i < circuit@.gates.len() implies #[trigger] circuit@.wire_assigned(
            witness@,
            i,
        ) by {
            assert(circuit@.gates[i] is Virtual);
        }
        assert(circuit@.accepts(witness@));
    }
    let ghost model = circuit@;
    let ghost bindings = witness@;
    let prepared = prepare_proof(circuit, witness);
    let request = prepared.unwrap();
    proof {
        assert(request@.public_inputs =~= inputs) by {
            assert forall|k: int| 0 <= k < n implies model.value(
                bindings,
                model.public_inputs[k].index as int,
            ) == inputs[k] by {
                assert(model.public_inputs[k].index == k);
                assert(model.gates[k] is Virtual);
            }
        }
    }
    Ok(request)
}

} // verus!
