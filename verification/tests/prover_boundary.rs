use poly_recursion::circuit::CircuitBuilder;
use poly_recursion::circuit::CircuitConfig;
use poly_recursion::circuit::CommonData;
use poly_recursion::circuit::Wire;
use poly_recursion::field::Felt;
use poly_recursion::prover::finish_proof;
use poly_recursion::prover::fits;
use poly_recursion::prover::prepare_proof;
use poly_recursion::prover::verification_wanted;
use poly_recursion::prover::verify;
use poly_recursion::prover::CompiledCircuit;
use poly_recursion::prover::Proof;
use poly_recursion::prover::ProveError;
use poly_recursion::prover::VerifierData;
use poly_recursion::prover::VerifierOnlyData;
use poly_recursion::prover::VerifyError;
use poly_recursion::witness::Witness;

fn felt(n: u64) -> Felt {
    Felt::from_canonical_u64(n)
}

fn config() -> CircuitConfig {
    CircuitConfig { cap_height: 2 }
}

fn verifier_only(digests: usize) -> VerifierOnlyData {
    VerifierOnlyData {
        constants_sigmas_cap: (0..digests as u64)
            .map(|j| [felt(4 * j), felt(4 * j + 1), felt(4 * j + 2), felt(4 * j + 3)])
            .collect(),
        circuit_digest: [felt(100), felt(101), felt(102), felt(103)],
    }
}

/// Wires 0 and 1 are virtual, wire 2 is the constant 3, wire 3 is
/// `w0 * w1 + 3`, and wire 3 must equal wire 4, the constant 45.
fn product_circuit() -> (CircuitBuilder, [Wire; 5]) {
    let mut builder = CircuitBuilder::new(config());
    let a = builder.add_virtual_target();
    let b = builder.add_virtual_target();
    let three = builder.constant(felt(3));
    let out = builder.mul_add(a, b, three).unwrap();
    let expected = builder.constant(felt(45));
    builder.connect(out, expected).unwrap();
    builder.register_public_inputs(&vec![b, out]).unwrap();
    (builder, [a, b, three, out, expected])
}

#[test]
fn witness_generation_computes_every_wire() {
    let (builder, wires) = product_circuit();
    let circuit = builder.build();
    let mut witness = Witness::new(circuit.num_wires());
    witness.set_target(wires[0], felt(6)).unwrap();
    witness.set_target(wires[1], felt(7)).unwrap();
    let values = circuit.generate_witness(&witness).unwrap();
    let numbers: Vec<u64> = values.iter().map(|v| v.to_canonical_u64()).collect();
    assert_eq!(numbers, vec![6, 7, 3, 45, 45]);
    let public: Vec<u64> =
        circuit.public_input_values(&values).iter().map(|v| v.to_canonical_u64()).collect();
    assert_eq!(public, vec![7, 45]);
}

#[test]
fn a_witness_of_the_wrong_size_is_refused() {
    let (builder, _) = product_circuit();
    let circuit = builder.build();
    let witness = Witness::new(circuit.num_wires() + 1);
    assert_eq!(circuit.generate_witness(&witness).unwrap_err(), ProveError::WitnessSize);
}

#[test]
fn the_first_unbound_virtual_wire_is_reported() {
    let (builder, wires) = product_circuit();
    let circuit = builder.build();
    let mut witness = Witness::new(circuit.num_wires());
    assert_eq!(
        circuit.generate_witness(&witness).unwrap_err(),
        ProveError::MissingWitness(wires[0])
    );
    witness.set_target(wires[0], felt(6)).unwrap();
    assert_eq!(
        circuit.generate_witness(&witness).unwrap_err(),
        ProveError::MissingWitness(wires[1])
    );
}

#[test]
fn a_binding_that_contradicts_a_gate_is_a_conflict() {
    let (builder, wires) = product_circuit();
    let circuit = builder.build();
    let mut witness = Witness::new(circuit.num_wires());
    witness.set_target(wires[0], felt(6)).unwrap();
    witness.set_target(wires[1], felt(7)).unwrap();
    witness.set_target(wires[3], felt(46)).unwrap();
    assert_eq!(circuit.generate_witness(&witness).unwrap_err(), ProveError::Conflict(wires[3]));

    let (builder, wires) = product_circuit();
    let circuit = builder.build();
    let mut witness = Witness::new(circuit.num_wires());
    witness.set_target(wires[0], felt(6)).unwrap();
    witness.set_target(wires[1], felt(7)).unwrap();
    witness.set_target(wires[2], felt(4)).unwrap();
    assert_eq!(circuit.generate_witness(&witness).unwrap_err(), ProveError::Conflict(wires[2]));
}

#[test]
fn a_binding_that_agrees_with_a_gate_is_accepted() {
    let (builder, wires) = product_circuit();
    let circuit = builder.build();
    let mut witness = Witness::new(circuit.num_wires());
    witness.set_target(wires[0], felt(6)).unwrap();
    witness.set_target(wires[1], felt(7)).unwrap();
    witness.set_target(wires[3], felt(45)).unwrap();
    assert!(circuit.generate_witness(&witness).is_ok());
}

#[test]
fn a_violated_constraint_fails_proving_cleanly() {
    let (builder, wires) = product_circuit();
    let circuit = builder.build();
    let mut witness = Witness::new(circuit.num_wires());
    witness.set_target(wires[0], felt(6)).unwrap();
    witness.set_target(wires[1], felt(8)).unwrap();
    assert_eq!(circuit.generate_witness(&witness).unwrap_err(), ProveError::Unsatisfied(0));
    assert!(matches!(prepare_proof(circuit, witness), Err(ProveError::Unsatisfied(0))));
}

#[test]
fn the_first_violated_constraint_is_reported() {
    let (mut builder, wires) = product_circuit();
    builder.connect(wires[0], wires[1]).unwrap();
    builder.connect(wires[2], wires[4]).unwrap();
    let circuit = builder.build();
    let mut witness = Witness::new(circuit.num_wires());
    witness.set_target(wires[0], felt(6)).unwrap();
    witness.set_target(wires[1], felt(7)).unwrap();
    assert_eq!(circuit.generate_witness(&witness).unwrap_err(), ProveError::Unsatisfied(1));
}

#[test]
fn a_request_carries_the_public_inputs() {
    let (builder, wires) = product_circuit();
    let circuit = builder.build();
    let mut witness = Witness::new(circuit.num_wires());
    witness.set_target(wires[0], felt(6)).unwrap();
    witness.set_target(wires[1], felt(7)).unwrap();
    let request = prepare_proof(circuit, witness).ok().unwrap();
    let public: Vec<u64> = request.public_inputs().iter().map(|v| v.to_canonical_u64()).collect();
    assert_eq!(public, vec![7, 45]);
    assert_eq!(request.circuit().num_wires(), 5);
    assert_eq!(request.witness().get_target(wires[0]).unwrap().to_canonical_u64(), 6);
}

#[test]
fn a_failed_outside_prover_is_reported() {
    let (builder, wires) = product_circuit();
    let circuit = builder.build();
    let mut witness = Witness::new(circuit.num_wires());
    witness.set_target(wires[0], felt(6)).unwrap();
    witness.set_target(wires[1], felt(7)).unwrap();
    let request = prepare_proof(circuit, witness).ok().unwrap();
    let compiled = CompiledCircuit { degree_bits: 3, verifier_only: verifier_only(4) };
    assert_eq!(finish_proof(&request, compiled, None).unwrap_err(), ProveError::Backend);
}

#[test]
fn a_finished_proof_describes_its_circuit() {
    let (builder, wires) = product_circuit();
    let circuit = builder.build();
    let mut witness = Witness::new(circuit.num_wires());
    witness.set_target(wires[0], felt(6)).unwrap();
    witness.set_target(wires[1], felt(7)).unwrap();
    let request = prepare_proof(circuit, witness).ok().unwrap();
    let compiled = CompiledCircuit { degree_bits: 3, verifier_only: verifier_only(4) };
    let sealed = finish_proof(&request, compiled, Some(vec![1, 2, 3])).unwrap();
    let common = sealed.verifier_circuit_data.common;
    assert_eq!(common, CommonData { config: config(), degree_bits: 3, num_public_inputs: 2 });
    assert_eq!(sealed.verifier_circuit_data.verifier_only.constants_sigmas_cap.len(), 4);
    assert_eq!(
        sealed.verifier_circuit_data.verifier_only.circuit_digest[3].to_canonical_u64(),
        103
    );
    let public: Vec<u64> =
        sealed.proof.public_inputs.iter().map(|v| v.to_canonical_u64()).collect();
    assert_eq!(public, vec![7, 45]);
    assert_eq!(sealed.proof.cap_height, 2);
    assert_eq!(sealed.proof.degree_bits, 3);
    assert_eq!(sealed.proof.blob, vec![1, 2, 3]);
    assert!(fits(&sealed.proof, &common));
    assert!(verification_wanted(&sealed.proof, &sealed.verifier_circuit_data));
}

fn proof_of(public_inputs: usize, cap_height: usize, degree_bits: usize) -> Proof {
    Proof {
        public_inputs: (0..public_inputs as u64).map(felt).collect(),
        cap_height,
        degree_bits,
        blob: vec![9, 9],
    }
}

fn data_of(public_inputs: usize, cap_height: usize, degree_bits: usize, digests: usize) -> VerifierData {
    VerifierData {
        common: CommonData {
            config: CircuitConfig { cap_height },
            degree_bits,
            num_public_inputs: public_inputs,
        },
        verifier_only: verifier_only(digests),
    }
}

#[test]
fn verification_follows_the_outside_verifier() {
    let proof = proof_of(4, 2, 3);
    let data = data_of(4, 2, 3, 4);
    assert!(verification_wanted(&proof, &data));
    assert_eq!(verify(&proof, &data, true), Ok(()));
    assert_eq!(verify(&proof, &data, false), Err(VerifyError::Rejected));
}

#[test]
fn verifier_data_of_another_shape_never_verifies() {
    let proof = proof_of(4, 2, 3);
    let other_inputs = data_of(3, 2, 3, 4);
    let other_cap = data_of(4, 3, 3, 8);
    let other_rows = data_of(4, 2, 4, 4);
    let broken_cap = data_of(4, 2, 3, 5);
    for data in [other_inputs, other_cap, other_rows, broken_cap] {
        assert!(!verification_wanted(&proof, &data));
        assert_eq!(verify(&proof, &data, true), Err(VerifyError::ShapeMismatch));
        assert_eq!(verify(&proof, &data, false), Err(VerifyError::ShapeMismatch));
    }
}

#[test]
fn verifier_data_of_another_circuit_is_rejected_with_the_verifier() {
    // Same shape, another circuit: the shapes cannot tell them apart, so the
    // verdict is the outside verifier's, and a rejection is final.
    let proof = proof_of(4, 2, 3);
    let mut other = data_of(4, 2, 3, 4);
    other.verifier_only.circuit_digest = [felt(1), felt(2), felt(3), felt(4)];
    assert_eq!(verify(&proof, &other, false), Err(VerifyError::Rejected));
}
