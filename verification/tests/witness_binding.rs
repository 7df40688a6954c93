use poly_recursion::circuit::Wire;
use poly_recursion::field::Felt;
use poly_recursion::witness::Witness;
use poly_recursion::witness::WitnessError;

fn felt(n: u64) -> Felt {
    Felt::from_canonical_u64(n)
}

#[test]
fn a_new_witness_binds_nothing() {
    let witness = Witness::new(3);
    assert_eq!(witness.len(), 3);
    for index in 0..4 {
        assert!(witness.get_target(Wire { index }).is_none());
    }
}

#[test]
fn binding_a_wire_makes_its_value_readable() {
    let mut witness = Witness::new(3);
    assert_eq!(witness.set_target(Wire { index: 1 }, felt(7)), Ok(()));
    assert_eq!(witness.get_target(Wire { index: 1 }).unwrap().to_canonical_u64(), 7);
    assert!(witness.get_target(Wire { index: 0 }).is_none());
    assert!(witness.get_target(Wire { index: 2 }).is_none());
}

#[test]
fn binding_twice_with_the_same_value_is_accepted() {
    let mut witness = Witness::new(2);
    assert_eq!(witness.set_target(Wire { index: 0 }, felt(7)), Ok(()));
    assert_eq!(witness.set_target(Wire { index: 0 }, felt(7)), Ok(()));
    assert_eq!(witness.get_target(Wire { index: 0 }).unwrap().to_canonical_u64(), 7);
}

#[test]
fn binding_twice_with_different_values_is_a_conflict() {
    let mut witness = Witness::new(2);
    assert_eq!(witness.set_target(Wire { index: 0 }, felt(7)), Ok(()));
    assert_eq!(witness.set_target(Wire { index: 0 }, felt(8)), Err(WitnessError::Conflict));
    assert_eq!(witness.get_target(Wire { index: 0 }).unwrap().to_canonical_u64(), 7);
}

#[test]
fn binding_a_wire_of_another_circuit_is_refused() {
    let mut witness = Witness::new(2);
    assert_eq!(witness.set_target(Wire { index: 2 }, felt(1)), Err(WitnessError::UnknownWire));
    assert_eq!(witness.set_target(Wire { index: 99 }, felt(1)), Err(WitnessError::UnknownWire));
    assert!(witness.get_target(Wire { index: 0 }).is_none());
    assert!(witness.get_target(Wire { index: 1 }).is_none());
}

#[test]
fn set_targets_binds_in_order() {
    let mut witness = Witness::new(4);
    let wires = vec![Wire { index: 3 }, Wire { index: 0 }];
    assert_eq!(witness.set_targets(&wires, &vec![felt(30), felt(40)]), Ok(()));
    assert_eq!(witness.get_target(Wire { index: 3 }).unwrap().to_canonical_u64(), 30);
    assert_eq!(witness.get_target(Wire { index: 0 }).unwrap().to_canonical_u64(), 40);
    assert!(witness.get_target(Wire { index: 1 }).is_none());
}

#[test]
fn set_targets_refuses_a_different_number_of_values() {
    let mut witness = Witness::new(4);
    let wires = vec![Wire { index: 0 }, Wire { index: 1 }];
    assert_eq!(witness.set_targets(&wires, &vec![felt(1)]), Err(WitnessError::ShapeMismatch));
    assert!(witness.get_target(Wire { index: 0 }).is_none());
}

#[test]
fn set_targets_stops_at_the_first_refusal() {
    let mut witness = Witness::new(3);
    let wires = vec![Wire { index: 0 }, Wire { index: 0 }, Wire { index: 1 }];
    let values = vec![felt(1), felt(2), felt(3)];
    assert_eq!(witness.set_targets(&wires, &values), Err(WitnessError::Conflict));
    assert_eq!(witness.get_target(Wire { index: 0 }).unwrap().to_canonical_u64(), 1);
    assert!(witness.get_target(Wire { index: 1 }).is_none());
    let mut second = Witness::new(1);
    let far = vec![Wire { index: 0 }, Wire { index: 5 }];
    assert_eq!(second.set_targets(&far, &vec![felt(1), felt(2)]), Err(WitnessError::UnknownWire));
    assert_eq!(second.get_target(Wire { index: 0 }).unwrap().to_canonical_u64(), 1);
}
