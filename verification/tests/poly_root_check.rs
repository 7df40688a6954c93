use poly_recursion::circuit::CircuitConfig;
use poly_recursion::circuit::Gate;
use poly_recursion::circuit::Wire;
use poly_recursion::field::Felt;
use poly_recursion::field::ORDER;
use poly_recursion::poly::assign_root_witness;
use poly_recursion::poly::build_root_check;
use poly_recursion::poly::gen_poly_proof;
use poly_recursion::prover::finish_proof;
use poly_recursion::prover::verify;
use poly_recursion::prover::CompiledCircuit;
use poly_recursion::prover::ProveError;
use poly_recursion::prover::VerifierOnlyData;
use poly_recursion::witness::WitnessError;

fn config() -> CircuitConfig {
    CircuitConfig { cap_height: 4 }
}

fn felt(n: u64) -> Felt {
    Felt::from_canonical_u64(n)
}

fn compiled() -> CompiledCircuit {
    CompiledCircuit {
        degree_bits: 3,
        verifier_only: VerifierOnlyData {
            constants_sigmas_cap: (0..16).map(|j| [felt(j), felt(j), felt(j), felt(j)]).collect(),
            circuit_digest: [felt(1), felt(2), felt(3), felt(4)],
        },
    }
}

#[test]
fn test_poly() {
    // x^2 + x - 30 vanishes at 5.
    let request = gen_poly_proof(config(), &vec![-30, 1, 1], 5).unwrap();
    let vpp = finish_proof(&request, compiled(), Some(vec![0xAB])).unwrap();
    let proof = vpp.proof;
    let verifier_data = vpp.verifier_circuit_data;
    assert_eq!(verify(&proof, &verifier_data, true), Ok(()));
}

#[test]
fn a_point_that_is_no_root_fails_at_proving_time() {
    // 36 + 6 - 30 = 12.
    assert!(gen_poly_proof(config(), &vec![-30, 1, 1], 6).is_none());
    let check = build_root_check(config(), 3);
    let witness = assign_root_witness(&check, &vec![-30, 1, 1], 6).unwrap();
    assert_eq!(
        check.circuit.generate_witness(&witness).unwrap_err(),
        ProveError::Unsatisfied(0)
    );
}

#[test]
fn the_other_root_is_accepted_too() {
    // x^2 + x - 30 = (x - 5)(x + 6), and -6 is ORDER - 6 in the field.
    assert!(gen_poly_proof(config(), &vec![-30, 1, 1], ORDER - 6).is_some());
    assert!(gen_poly_proof(config(), &vec![-30, 1, 1], ORDER - 5).is_none());
}

#[test]
fn the_zero_constant_vanishes_everywhere() {
    for x in [0, 1, 5, 6, 1 << 40, ORDER - 1] {
        assert!(gen_poly_proof(config(), &vec![0], x).is_some());
    }
}

#[test]
fn a_non_zero_constant_vanishes_nowhere() {
    for c in [1, -1, 30, -30, i64::MAX, i64::MIN] {
        for x in [0, 1, 5, ORDER - 1] {
            assert!(gen_poly_proof(config(), &vec![c], x).is_none());
        }
    }
}

#[test]
fn no_coefficients_is_the_zero_polynomial() {
    assert!(gen_poly_proof(config(), &vec![], 7).is_some());
}

#[test]
fn roots_are_taken_in_the_field() {
    // x - 1 at 1, x + 1 at ORDER - 1, and 2x - 1 at the inverse of 2.
    assert!(gen_poly_proof(config(), &vec![-1, 1], 1).is_some());
    assert!(gen_poly_proof(config(), &vec![1, 1], ORDER - 1).is_some());
    assert!(gen_poly_proof(config(), &vec![-1, 2], (ORDER + 1) / 2).is_some());
    assert!(gen_poly_proof(config(), &vec![-1, 2], 2).is_none());
    // x^3 - 8 at 2, and x^4 - 1 at 2^48, a fourth root of unity.
    assert!(gen_poly_proof(config(), &vec![-8, 0, 0, 1], 2).is_some());
    assert!(gen_poly_proof(config(), &vec![-1, 0, 0, 0, 1], 1 << 48).is_some());
    assert!(gen_poly_proof(config(), &vec![-1, 0, 0, 0, 1], 1 << 47).is_none());
}

#[test]
fn the_circuit_is_horner_s_method() {
    let check = build_root_check(config(), 3);
    assert_eq!(check.coeffs, vec![Wire { index: 0 }, Wire { index: 1 }, Wire { index: 2 }]);
    assert_eq!(check.x, Wire { index: 3 });
    let circuit = &check.circuit;
    assert_eq!(circuit.config(), config());
    assert_eq!(circuit.num_wires(), 8);
    let gates = circuit.gates();
    for i in 0..4 {
        assert!(matches!(gates[i], Gate::Virtual));
    }
    assert!(matches!(gates[4], Gate::Constant(c) if c.is_zero()));
    // The highest coefficient comes first.
    assert!(matches!(gates[5], Gate::MulAdd(a, b, c) if (a.index, b.index, c.index) == (4, 3, 2)));
    assert!(matches!(gates[6], Gate::MulAdd(a, b, c) if (a.index, b.index, c.index) == (5, 3, 1)));
    assert!(matches!(gates[7], Gate::MulAdd(a, b, c) if (a.index, b.index, c.index) == (6, 3, 0)));
    assert_eq!(circuit.copies(), &vec![(Wire { index: 7 }, Wire { index: 4 })]);
    assert!(circuit.verifications().is_empty());
}

#[test]
fn public_inputs_are_the_coefficients_in_ascending_degree_then_x() {
    let check = build_root_check(config(), 3);
    let indices: Vec<usize> = check.circuit.public_inputs().iter().map(|w| w.index).collect();
    assert_eq!(indices, vec![0, 1, 2, 3]);
    let request = gen_poly_proof(config(), &vec![-30, 1, 1], 5).unwrap();
    let values: Vec<u64> = request.public_inputs().iter().map(|v| v.to_canonical_u64()).collect();
    assert_eq!(values, vec![ORDER - 30, 1, 1, 5]);
}

#[test]
fn degree_zero_needs_one_gadget_and_no_more() {
    let check = build_root_check(config(), 1);
    assert_eq!(check.circuit.num_wires(), 4);
    assert_eq!(check.circuit.copies(), &vec![(Wire { index: 3 }, Wire { index: 2 })]);
    let empty = build_root_check(config(), 0);
    assert_eq!(empty.circuit.num_wires(), 2);
    assert_eq!(empty.circuit.copies(), &vec![(Wire { index: 1 }, Wire { index: 1 })]);
}

#[test]
fn the_witness_binds_coefficients_and_point_only() {
    let check = build_root_check(config(), 3);
    let witness = assign_root_witness(&check, &vec![-30, 1, 1], 5).unwrap();
    assert_eq!(witness.len(), 8);
    let bound: Vec<Option<u64>> = (0..8)
        .map(|index| witness.get_target(Wire { index }).map(|v| v.to_canonical_u64()))
        .collect();
    assert_eq!(
        bound,
        vec![Some(ORDER - 30), Some(1), Some(1), Some(5), None, None, None, None]
    );
    let values = check.circuit.generate_witness(&witness).unwrap();
    let accumulators: Vec<u64> = values[4..].iter().map(|v| v.to_canonical_u64()).collect();
    assert_eq!(accumulators, vec![0, 1, 6, 0]);
}

#[test]
fn a_witness_for_another_degree_is_refused() {
    let check = build_root_check(config(), 3);
    assert!(matches!(
        assign_root_witness(&check, &vec![-30, 1], 5),
        Err(WitnessError::ShapeMismatch)
    ));
    assert!(matches!(
        assign_root_witness(&check, &vec![-30, 1, 1, 0], 5),
        Err(WitnessError::ShapeMismatch)
    ));
}

#[test]
fn a_long_polynomial_is_checked() {
    // (x - 1)(1 + x + ... + x^199) = x^200 - 1, so 1 + x + ... + x^199
    // vanishes at every 200th root of unity but 1; at 1 it is 200.
    let ones = vec![1i64; 200];
    assert!(gen_poly_proof(config(), &ones, 1).is_none());
    // 1 - x + x^2 - ... - x^199 vanishes at 1.
    let alternating: Vec<i64> = (0..200).map(|i| if i % 2 == 0 { 1 } else { -1 }).collect();
    assert!(gen_poly_proof(config(), &alternating, 1).is_some());
    assert!(gen_poly_proof(config(), &alternating, 2).is_none());
}
