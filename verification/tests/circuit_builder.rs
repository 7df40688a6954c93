use poly_recursion::circuit::cap_size;
use poly_recursion::circuit::CircuitBuilder;
use poly_recursion::circuit::CircuitConfig;
use poly_recursion::circuit::CircuitError;
use poly_recursion::circuit::CommonData;
use poly_recursion::circuit::Gate;
use poly_recursion::circuit::Wire;
use poly_recursion::field::Felt;

fn config() -> CircuitConfig {
    CircuitConfig { cap_height: 4 }
}

#[test]
fn virtual_wires_are_distinct_and_in_order() {
    let mut builder = CircuitBuilder::new(config());
    assert_eq!(builder.num_wires(), 0);
    let a = builder.add_virtual_target();
    let b = builder.add_virtual_target();
    let c = builder.add_virtual_target();
    assert_eq!((a.index, b.index, c.index), (0, 1, 2));
    assert_ne!(a, b);
    assert_eq!(builder.num_wires(), 3);
    assert!(builder.owns(c));
    assert!(!builder.owns(Wire { index: 3 }));
}

#[test]
fn gadgets_append_to_the_log() {
    let mut builder = CircuitBuilder::new(config());
    let a = builder.add_virtual_target();
    let b = builder.add_virtual_target();
    let zero = builder.zero();
    let nine = builder.constant(Felt::from_canonical_u64(9));
    let product = builder.mul_add(a, b, nine).unwrap();
    assert_eq!(product.index, 4);
    assert_eq!(builder.connect(product, zero), Ok(()));
    assert_eq!(builder.register_public_input(a), Ok(()));
    assert_eq!(builder.register_public_inputs(&vec![b, product]), Ok(()));
    let circuit = builder.build();
    assert_eq!(circuit.config(), config());
    assert_eq!(circuit.num_wires(), 5);
    let gates = circuit.gates();
    assert!(matches!(gates[0], Gate::Virtual));
    assert!(matches!(gates[1], Gate::Virtual));
    assert!(matches!(gates[2], Gate::Constant(c) if c.is_zero()));
    assert!(matches!(gates[3], Gate::Constant(c) if c.to_canonical_u64() == 9));
    assert!(matches!(gates[4], Gate::MulAdd(x, y, z) if x == a && y == b && z == nine));
    assert_eq!(circuit.copies(), &vec![(product, zero)]);
    assert_eq!(circuit.public_inputs(), &vec![a, b, product]);
    assert!(circuit.verifications().is_empty());
}

#[test]
fn foreign_wires_are_refused_and_nothing_changes() {
    let mut builder = CircuitBuilder::new(config());
    let a = builder.add_virtual_target();
    let stranger = Wire { index: 17 };
    assert_eq!(builder.mul_add(a, stranger, a), Err(CircuitError::UnknownWire));
    assert_eq!(builder.mul_add(stranger, a, a), Err(CircuitError::UnknownWire));
    assert_eq!(builder.mul_add(a, a, stranger), Err(CircuitError::UnknownWire));
    assert_eq!(builder.connect(a, stranger), Err(CircuitError::UnknownWire));
    assert_eq!(builder.connect(stranger, a), Err(CircuitError::UnknownWire));
    assert_eq!(builder.register_public_input(stranger), Err(CircuitError::UnknownWire));
    assert_eq!(builder.register_public_inputs(&vec![a, stranger]), Err(CircuitError::UnknownWire));
    let circuit = builder.build();
    assert_eq!(circuit.num_wires(), 1);
    assert!(circuit.copies().is_empty());
    assert!(circuit.public_inputs().is_empty());
}

#[test]
fn cap_size_is_two_to_the_height() {
    assert_eq!(cap_size(0), Some(1));
    assert_eq!(cap_size(1), Some(2));
    assert_eq!(cap_size(4), Some(16));
    assert_eq!(cap_size(10), Some(1024));
    assert_eq!(cap_size((usize::BITS - 1) as usize), Some(1usize << (usize::BITS - 1)));
    assert_eq!(cap_size(usize::BITS as usize), None);
    assert_eq!(cap_size(1000), None);
}

#[test]
fn proof_bundle_has_one_wire_per_public_input() {
    let mut builder = CircuitBuilder::new(config());
    builder.add_virtual_target();
    let common = CommonData { config: config(), degree_bits: 3, num_public_inputs: 4 };
    let target = builder.add_virtual_proof_with_pis(&common);
    assert_eq!(target.common, common);
    let indices: Vec<usize> = target.public_inputs.iter().map(|w| w.index).collect();
    assert_eq!(indices, vec![1, 2, 3, 4]);
    assert_eq!(builder.num_wires(), 5);
}

#[test]
fn verifier_data_bundle_is_sized_by_the_cap_height() {
    let mut builder = CircuitBuilder::new(config());
    let target = builder.add_virtual_verifier_data(2).unwrap();
    assert_eq!(target.constants_sigmas_cap.len(), 4);
    assert_eq!(builder.num_wires(), 4 * 4 + 4);
    for (j, hash) in target.constants_sigmas_cap.iter().enumerate() {
        for (e, wire) in hash.iter().enumerate() {
            assert_eq!(wire.index, 4 * j + e);
        }
    }
    for (e, wire) in target.circuit_digest.iter().enumerate() {
        assert_eq!(wire.index, 16 + e);
    }
}

#[test]
fn verifier_data_bundle_too_large_is_refused() {
    let mut builder = CircuitBuilder::new(config());
    builder.add_virtual_target();
    let refused = builder.add_virtual_verifier_data(usize::BITS as usize);
    assert!(matches!(refused, Err(CircuitError::TooLarge)));
    assert_eq!(builder.num_wires(), 1);
}

#[test]
fn verify_proof_gadget_is_recorded() {
    let mut builder = CircuitBuilder::new(config());
    let common = CommonData { config: config(), degree_bits: 3, num_public_inputs: 2 };
    let proof = builder.add_virtual_proof_with_pis(&common);
    let data = builder.add_virtual_verifier_data(4).unwrap();
    assert_eq!(builder.verify_proof(&proof, &data, &common), Ok(()));
    let circuit = builder.build();
    let gadgets = circuit.verifications();
    assert_eq!(gadgets.len(), 1);
    assert_eq!(gadgets[0].common, common);
    assert_eq!(gadgets[0].proof.public_inputs, proof.public_inputs);
    assert_eq!(gadgets[0].verifier_data.constants_sigmas_cap, data.constants_sigmas_cap);
    assert_eq!(gadgets[0].verifier_data.circuit_digest, data.circuit_digest);
}

#[test]
fn verify_proof_gadget_refuses_wrong_shapes() {
    let mut builder = CircuitBuilder::new(config());
    let common = CommonData { config: config(), degree_bits: 3, num_public_inputs: 2 };
    let proof = builder.add_virtual_proof_with_pis(&common);
    let small_cap = builder.add_virtual_verifier_data(3).unwrap();
    assert_eq!(builder.verify_proof(&proof, &small_cap, &common), Err(CircuitError::ShapeMismatch));
    let data = builder.add_virtual_verifier_data(4).unwrap();
    let other = CommonData { config: config(), degree_bits: 3, num_public_inputs: 3 };
    assert_eq!(builder.verify_proof(&proof, &data, &other), Err(CircuitError::ShapeMismatch));
    let more_rows = CommonData { config: config(), degree_bits: 4, num_public_inputs: 2 };
    assert_eq!(builder.verify_proof(&proof, &data, &more_rows), Err(CircuitError::ShapeMismatch));
    assert!(builder.build().verifications().is_empty());
}

#[test]
fn verify_proof_gadget_refuses_foreign_bundles() {
    let common = CommonData { config: config(), degree_bits: 3, num_public_inputs: 2 };
    let mut other = CircuitBuilder::new(config());
    let proof = other.add_virtual_proof_with_pis(&common);
    let data = other.add_virtual_verifier_data(4).unwrap();
    let mut builder = CircuitBuilder::new(config());
    builder.add_virtual_target();
    assert_eq!(builder.verify_proof(&proof, &data, &common), Err(CircuitError::UnknownWire));
}
