//! The prover's side of the boundary: witness generation and the check of
//! every constraint that this library can evaluate itself.
//!
//! The cryptographic work of proving is done outside this library.  What is
//! decided here is whether that work is to be started at all: a witness that
//! is incomplete, contradicts itself or violates a constraint is refused with
//! a typed error before any proving begins.

use vstd::prelude::*;
use vstd::arithmetic::power2::pow2;
use crate::circuit::cap_size;
use crate::circuit::copy_vec;
use crate::circuit::Circuit;
use crate::circuit::CircuitModel;
use crate::circuit::CommonData;
use crate::circuit::Gate;
use crate::circuit::Wire;
use crate::field::felts_view;
use crate::field::Felt;
use crate::witness::Witness;

verus! {

/// Why no proof was produced.
#[derive(Clone, Copy, Debug, PartialEq, Eq, Structural)]
pub enum ProveError {
    /// The witness was made for a circuit with another number of wires.
    WitnessSize,
    /// The first virtual wire that the witness leaves unbound.
    MissingWitness(Wire),
    /// The first constant or derived wire that the witness binds to a value
    /// other than the one its gate gives it.
    Conflict(Wire),
    /// The index of the first equality constraint that does not hold.
    Unsatisfied(usize),
    /// The outside prover failed on a witness that this library accepted.
    Backend,
}

/// The witness exactly on which `generate_witness` answers with error `e`.
pub open spec fn refused_with(model: CircuitModel, witness: Seq<Option<int>>, e: ProveError) -> bool {
    match e {
        ProveError::WitnessSize => witness.len() != model.gates.len(),
        ProveError::MissingWitness(w) => {
            &&& witness.len() == model.gates.len()
            &&& w.index < model.gates.len()
            &&& model.gates[w.index as int] is Virtual
            &&& !model.wire_assigned(witness, w.index as int)
            &&& forall|j: int| 0 <= j < w.index ==> #[trigger] model.wire_assigned(witness, j)
        },
        ProveError::Conflict(w) => {
            &&& witness.len() == model.gates.len()
            &&& w.index < model.gates.len()
            &&& !(model.gates[w.index as int] is Virtual)
            &&& !model.wire_assigned(witness, w.index as int)
            &&& forall|j: int| 0 <= j < w.index ==> #[trigger] model.wire_assigned(witness, j)
        },
        ProveError::Unsatisfied(k) => {
            &&& model.covered_by(witness)
            &&& k < model.copies.len()
            &&& !model.copy_holds(witness, k as int)
            &&& forall|j: int| 0 <= j < k ==> #[trigger] model.copy_holds(witness, j)
        },
        ProveError::Backend => false,
    }
}

impl Circuit {
    /// Computes the value of every wire from the bindings of the virtual
    /// wires, and checks every equality constraint.
    ///
    /// Succeeds exactly when the witness is complete and satisfies the
    /// circuit; the result then holds the value of wire `i` at index `i`.
    /// Otherwise the error names the first wire without exactly one value,
    /// or else the first constraint that is violated.
    pub fn generate_witness(&self, witness: &Witness) -> (r: Result<Vec<Felt>, ProveError>)
        ensures
            r is Ok <==> self@.accepts(witness@),
            r matches Ok(values) ==> {
                &&& values@.len() == self@.gates.len()
                &&& forall|i: int|
                    0 <= i < values@.len() ==> (#[trigger] values@[i])@ == self@.value(witness@, i)
            },
            r matches Err(e) ==> refused_with(self@, witness@, e),
    {
        let gates = self.gates();
        let n = self.num_wires();
        if witness.len() != n {
            return Err(ProveError::WitnessSize);
        }
        let mut values: Vec<Felt> = Vec::new();
        let mut i: usize = 0;
        while i < n
            invariant
                i <= n,
                n == gates@.len(),
                gates@ == self@.gates,
                self@.well_formed(),
                witness@.len() == n,
                values@.len() == i,
                forall|j: int| 0 <= j < i ==> (#[trigger] values@[j])@ == self@.value(witness@, j),
                forall|j: int| 0 <= j < i ==> #[trigger] self@.wire_assigned(witness@, j),
            decreases n - i,
        {
            let wire = Wire { index: i };
            let bound = witness.get_target(wire);
            match gates[i] {
                Gate::Virtual => {
                    match bound {
                        Some(v) => {
                            values.push(v);
                        },
                        None => {
                            assert(!self@.wire_assigned(witness@, i as int));
                            return Err(ProveError::MissingWitness(wire));
                        },
                    }
                },
                Gate::Constant(c) => {
                    match bound {
                        Some(v) => {
                            if !v.equals(c) {
                                assert(!self@.wire_assigned(witness@, i as int));
                                return Err(ProveError::Conflict(wire));
                            }
                        },
                        None => {},
                    }
                    values.push(c);
                },
                Gate::MulAdd(a, b, c) => {
                    let derived = values[a.index].mul_add(values[b.index], values[c.index]);
                    match bound {
                        Some(v) => {
                            if !v.equals(derived) {
                                assert(!self@.wire_assigned(witness@, i as int));
                                return Err(ProveError::Conflict(wire));
                            }
                        },
                        None => {},
                    }
                    values.push(derived);
                },
            }
            i = i + 1;
        }
        let copies = self.copies();
        let mut k: usize = 0;
        while k < copies.len()
            invariant
                k <= copies@.len(),
                copies@ == self@.copies,
                self@.well_formed(),
                self@.covered_by(witness@),
                values@.len() == self@.gates.len(),
                forall|j: int|
                    0 <= j < values@.len() ==> (#[trigger] values@[j])@ == self@.value(witness@, j),
                forall|j: int| 0 <= j < k ==> #[trigger] self@.copy_holds(witness@, j),
            decreases copies@.len() - k,
        {
            let (a, b) = copies[k];
            if !values[a.index].equals(values[b.index]) {
                assert(!self@.copy_holds(witness@, k as int));
                return Err(ProveError::Unsatisfied(k));
            }
            k = k + 1;
        }
        Ok(values)
    }

    /// Picks the public-input values, in registration order, out of the
    /// values of all wires.
    pub fn public_input_values(&self, values: &Vec<Felt>) -> (r: Vec<Felt>)
        requires
            values@.len() == self@.gates.len(),
        ensures
            r@.len() == self@.public_inputs.len(),
            forall|k: int|
                0 <= k < r@.len() ==> #[trigger] r@[k] == values@[self@.public_inputs[k].index as int],
    {
        let wires = self.public_inputs();
        let n = self.num_wires();
        let mut r: Vec<Felt> = Vec::new();
        let mut k: usize = 0;
        while k < wires.len()
            invariant
                k <= wires@.len(),
                wires@ == self@.public_inputs,
                self@.well_formed(),
                values@.len() == self@.gates.len(),
                r@.len() == k,
                forall|j: int|
                    0 <= j < k ==> #[trigger] r@[j] == values@[self@.public_inputs[j].index as int],
            decreases wires@.len() - k,
        {
            r.push(values[wires[k].index]);
            k = k + 1;
        }
        r
    }
}

/// A statement that is ready for the outside prover: a finalized circuit, a
/// witness that it accepts, and the values of its public inputs.
///
/// A request can only be obtained from [`prepare_proof`], so one exists only
/// for a witness that satisfies its circuit.
pub struct ProofRequest {
    circuit: Circuit,
    witness: Witness,
    public_inputs: Vec<Felt>,
}

/// The mathematical content of a [`ProofRequest`].
pub struct ProofRequestView {
    pub circuit: CircuitModel,
    pub witness: Seq<Option<int>>,
    pub public_inputs: Seq<int>,
}

impl ProofRequestView {
    /// The witness satisfies the circuit, and the public inputs are the
    /// values of the public-input wires in registration order.
    pub open spec fn checked(self) -> bool {
        &&& self.circuit.well_formed()
        &&& self.circuit.accepts(self.witness)
        &&& self.public_inputs == self.circuit.public_values(self.witness)
    }
}

impl View for ProofRequest {
    type V = ProofRequestView;

    closed spec fn view(&self) -> ProofRequestView {
        ProofRequestView {
            circuit: self.circuit@,
            witness: self.witness@,
            public_inputs: felts_view(self.public_inputs@),
        }
    }
}

impl ProofRequest {
    #[verifier::type_invariant]
    spec fn inv(self) -> bool {
        self@.checked()
    }

    /// The circuit to be proved.  Every request is checked.
    pub fn circuit(&self) -> (c: &Circuit)
        ensures
            c@ == self@.circuit,
            self@.checked(),
    {
        proof {
            use_type_invariant(self);
        }
        &self.circuit
    }

    /// The witness to be handed to the prover.
    pub fn witness(&self) -> (w: &Witness)
        ensures
            w@ == self@.witness,
    {
        &self.witness
    }

    /// The values of the public inputs, in registration order.
    pub fn public_inputs(&self) -> (p: &Vec<Felt>)
        ensures
            felts_view(p@) == self@.public_inputs,
    {
        &self.public_inputs
    }
}

/// The first half of proving: generates the witness and checks every
/// constraint.  A request for the outside prover is issued exactly when the
/// circuit accepts the witness; otherwise proving fails here, cleanly, with
/// the reason.
pub fn prepare_proof(circuit: Circuit, witness: Witness) -> (r: Result<ProofRequest, ProveError>)
    ensures
        r is Ok <==> circuit@.accepts(witness@),
        r matches Ok(request) ==> {
            &&& request@.circuit == circuit@
            &&& request@.witness == witness@
            &&& request@.checked()
        },
        r matches Err(e) ==> refused_with(circuit@, witness@, e),
{
    let n = circuit.num_wires();
    match circuit.generate_witness(&witness) {
        Ok(values) => {
            let public_inputs = circuit.public_input_values(&values);
            assert(felts_view(public_inputs@) =~= circuit@.public_values(witness@));
            Ok(ProofRequest { circuit, witness, public_inputs })
        },
        Err(e) => Err(e),
    }
}

/// One digest: four field elements.
pub type HashOut = [Felt; 4];

/// The part of the verifier data that only the outside proof system can
/// compute: the Merkle cap that commits to the circuit's constants and
/// wiring, with `2^cap_height` digests, and the digest of the circuit.
#[derive(Clone, Debug)]
pub struct VerifierOnlyData {
    pub constants_sigmas_cap: Vec<HashOut>,
    pub circuit_digest: HashOut,
}

/// What is needed to check a proof of one circuit.
#[derive(Clone, Debug)]
pub struct VerifierData {
    pub common: CommonData,
    pub verifier_only: VerifierOnlyData,
}

/// What the outside proof system reports when it has compiled a circuit.
#[derive(Clone, Debug)]
pub struct CompiledCircuit {
    /// The binary logarithm of the number of rows.
    pub degree_bits: usize,
    pub verifier_only: VerifierOnlyData,
}

/// A proof: the ordered values of the public inputs, the shape of the
/// commitments, and the opaque bytes of the outside proof system.
#[derive(Clone, Debug)]
pub struct Proof {
    pub public_inputs: Vec<Felt>,
    /// The height of the Merkle caps in the proof.
    pub cap_height: usize,
    /// The binary logarithm of the number of rows that were proved.
    pub degree_bits: usize,
    pub blob: Vec<u8>,
}

/// A proof together with the verifier data of the circuit that produced it.
#[derive(Clone, Debug)]
pub struct VerifiableProof {
    pub verifier_circuit_data: VerifierData,
    pub proof: Proof,
}

/// Why a proof was not accepted.
#[derive(Clone, Copy, Debug, PartialEq, Eq, Structural)]
pub enum VerifyError {
    /// The proof or the verifier data does not have the shape that the
    /// common data calls for; the outside verifier was not asked.
    ShapeMismatch,
    /// The outside verifier rejected the proof.
    Rejected,
}

/// Whether the proof has the shape that `common` calls for: as many public
/// inputs, the same cap height, and the same number of rows.
pub open spec fn proof_fits(proof: Proof, common: CommonData) -> bool {
    &&& proof.public_inputs@.len() == common.num_public_inputs
    &&& proof.cap_height == common.config.cap_height
    &&& proof.degree_bits == common.degree_bits
}

/// Whether the cap of the verifier data has the size that its own common
/// data calls for.
pub open spec fn verifier_data_fits(data: VerifierData) -> bool {
    data.verifier_only.constants_sigmas_cap@.len() == pow2(data.common.config.cap_height as nat)
}

/// Whether the proof has the shape that `common` calls for.
pub fn fits(proof: &Proof, common: &CommonData) -> (b: bool)
    ensures
        b == proof_fits(*proof, *common),
{
    proof.public_inputs.len() == common.num_public_inputs && proof.cap_height
        == common.config.cap_height && proof.degree_bits == common.degree_bits
}

/// Whether the outside verifier is to be asked about `proof`: only a proof
/// and verifier data of matching shape are handed to it.
pub fn verification_wanted(proof: &Proof, data: &VerifierData) -> (b: bool)
    ensures
        b == (proof_fits(*proof, data.common) && verifier_data_fits(*data)),
{
    let cap_len = data.verifier_only.constants_sigmas_cap.len();
    match cap_size(data.common.config.cap_height) {
        Some(size) => fits(proof, &data.common) && cap_len == size,
        None => false,
    }
}

/// The outcome of verifying `proof` against `data`, given what the outside
/// verifier answered.  A proof is accepted exactly when the shapes match
/// and the outside verifier accepts it; there is no partial success.
pub fn verify(proof: &Proof, data: &VerifierData, backend_accepts: bool) -> (r: Result<
    (),
    VerifyError,
>)
    ensures
        r is Ok <==> proof_fits(*proof, data.common) && verifier_data_fits(*data)
            && backend_accepts,
        r matches Err(e) ==> e == (if proof_fits(*proof, data.common) && verifier_data_fits(*data) {
            VerifyError::Rejected
        } else {
            VerifyError::ShapeMismatch
        }),
{
    if !verification_wanted(proof, data) {
        Err(VerifyError::ShapeMismatch)
    } else if backend_accepts {
        Ok(())
    } else {
        Err(VerifyError::Rejected)
    }
}

/// The common data of the circuit of a request that the outside proof
/// system compiled to `degree_bits` rows.
pub open spec fn sealed_common(request: ProofRequestView, degree_bits: usize) -> CommonData {
    CommonData {
        config: request.circuit.config,
        degree_bits,
        num_public_inputs: request.public_inputs.len() as usize,
    }
}

/// Whether `v` is what the outside proof system's answers to `request` are
/// packaged as: the proof carries the public inputs of the request and the
/// bytes of the outside prover, and the verifier data describes the circuit
/// of the request as it was compiled.
pub open spec fn sealed(
    v: VerifiableProof,
    request: ProofRequestView,
    compiled: CompiledCircuit,
    bytes: Vec<u8>,
) -> bool {
    &&& v.verifier_circuit_data.common == sealed_common(request, compiled.degree_bits)
    &&& v.verifier_circuit_data.verifier_only == compiled.verifier_only
    &&& felts_view(v.proof.public_inputs@) == request.public_inputs
    &&& v.proof.cap_height == request.circuit.config.cap_height
    &&& v.proof.degree_bits == compiled.degree_bits
    &&& v.proof.blob == bytes
}

/// A witness that satisfies its circuit meets no refusal: every error of
/// witness generation names a wire or a constraint that stands against it.
pub proof fn lemma_accepted_is_not_refused(
    model: CircuitModel,
    witness: Seq<Option<int>>,
    e: ProveError,
)
    requires
        model.accepts(witness),
    ensures
        !refused_with(model, witness, e),
{
    match e {
        ProveError::MissingWitness(w) => {
            if w.index < model.gates.len() {
                assert(model.wire_assigned(witness, w.index as int));
            }
        },
        ProveError::Conflict(w) => {
            if w.index < model.gates.len() {
                assert(model.wire_assigned(witness, w.index as int));
            }
        },
        ProveError::Unsatisfied(k) => {
            if k < model.copies.len() {
                assert(model.copy_holds(witness, k as int));
            }
        },
        _ => {},
    }
}

/// The second half of proving: packages what the outside proof system
/// returned for `request`.
///
/// `compiled` is what it reported on compiling the circuit, and
/// `proof_bytes` the proof it produced, or `None` where it failed.  The
/// proof carries the public inputs of the request, and the verifier data
/// describes the circuit of the request.
pub fn finish_proof(
    request: &ProofRequest,
    compiled: CompiledCircuit,
    proof_bytes: Option<Vec<u8>>,
) -> (r: Result<VerifiableProof, ProveError>)
    ensures
        r is Ok <==> proof_bytes is Some,
        r matches Err(e) ==> e == ProveError::Backend,
        r matches Ok(v) ==> sealed(v, request@, compiled, proof_bytes->0) && proof_fits(
            v.proof,
            v.verifier_circuit_data.common,
        ),
{
    match proof_bytes {
        None => Err(ProveError::Backend),
        Some(blob) => {
            let public_inputs = copy_vec(request.public_inputs());
            let config = request.circuit().config();
            let common = CommonData {
                config,
                degree_bits: compiled.degree_bits,
                num_public_inputs: public_inputs.len(),
            };
            Ok(
                VerifiableProof {
                    verifier_circuit_data: VerifierData {
                        common,
                        verifier_only: compiled.verifier_only,
                    },
                    proof: Proof {
                        public_inputs,
                        cap_height: config.cap_height,
                        degree_bits: compiled.degree_bits,
                        blob,
                    },
                },
            )
        },
    }
}

} // verus!
