//! The polynomial root check: a circuit that is satisfied exactly when a
//! polynomial with public coefficients vanishes at a public point.
//!
//! Coefficients are given in ascending degree: `coeffs[i]` belongs to `x^i`.
//! The public inputs of the circuit are the coefficients in that same order,
//! followed by `x`.

use vstd::prelude::*;
use vstd::arithmetic::div_mod::lemma_add_mod_noop;
use vstd::arithmetic::div_mod::lemma_mod_twice;
use vstd::arithmetic::div_mod::lemma_mul_mod_noop_left;
use vstd::arithmetic::div_mod::lemma_small_mod;
use vstd::arithmetic::power::lemma_pow0;
use vstd::arithmetic::power::pow;
use crate::circuit::Circuit;
use crate::circuit::CircuitBuilder;
use crate::circuit::CircuitConfig;
use crate::circuit::CircuitModel;
use crate::circuit::Gate;
use crate::circuit::Wire;
use crate::field::modulus;
use crate::field::reduce;
use crate::field::Felt;
use crate::field::ORDER;
use crate::prover::prepare_proof;
use crate::prover::ProofRequest;
use crate::prover::VerifiableProof;
use crate::witness::Witness;
use crate::witness::WitnessError;

verus! {

/// The value of the polynomial with coefficients `coeffs` at `x`, over the
/// integers: the sum of `coeffs[i] * x^i`.
pub open spec fn poly_eval(coeffs: Seq<int>, x: int) -> int
    decreases coeffs.len(),
{
    if coeffs.len() == 0 {
        0
    } else {
        poly_eval(coeffs.drop_last(), x) + coeffs.last() * pow(x, (coeffs.len() - 1) as nat)
    }
}

/// Horner's accumulator after `k` steps, taking the coefficients from the
/// highest degree down: it starts at zero, and each step multiplies by `x`
/// and adds the next coefficient.
pub open spec fn horner(coeffs: Seq<int>, x: int, k: nat) -> int
    decreases k,
{
    if k == 0 {
        0
    } else {
        horner(coeffs, x, (k - 1) as nat) * x + coeffs[coeffs.len() - k]
    }
}

/// A polynomial is its constant term plus `x` times the polynomial of the
/// remaining coefficients.
proof fn lemma_poly_eval_front(coeffs: Seq<int>, x: int)
    requires
        coeffs.len() > 0,
    ensures
        poly_eval(coeffs, x) == coeffs[0] + x * poly_eval(coeffs.skip(1), x),
    decreases coeffs.len(),
{
    let m = coeffs.len();
    let init = coeffs.drop_last();
    let rest = coeffs.skip(1);
    if m == 1 {
        lemma_pow0(x);
        assert(poly_eval(init, x) == 0);
        assert(poly_eval(rest, x) == 0);
    } else {
        lemma_poly_eval_front(init, x);
        assert(rest.drop_last() =~= init.skip(1));
        assert(rest.last() == coeffs.last());
        let top = coeffs.last();
        let low = pow(x, (m - 2) as nat);
        assert(pow(x, (m - 1) as nat) == x * low) by {
            reveal(pow);
        }
        let tail = poly_eval(init.skip(1), x);
        assert(poly_eval(rest, x) == tail + top * low);
        assert(x * (tail + top * low) == x * tail + top * (x * low)) by (nonlinear_arith);
    }
}

/// After `k` steps Horner's accumulator holds the polynomial of the `k`
/// highest coefficients.
proof fn lemma_horner_suffix(coeffs: Seq<int>, x: int, k: nat)
    requires
        k <= coeffs.len(),
    ensures
        horner(coeffs, x, k) == poly_eval(coeffs.skip(coeffs.len() - k), x),
    decreases k,
{
    let n = coeffs.len();
    if k == 0 {
        assert(coeffs.skip(n as int).len() == 0);
    } else {
        lemma_horner_suffix(coeffs, x, (k - 1) as nat);
        let suffix = coeffs.skip(n - k);
        lemma_poly_eval_front(suffix, x);
        assert(suffix.skip(1) =~= coeffs.skip(n - k + 1));
        let inner = poly_eval(coeffs.skip(n - k + 1), x);
        assert(inner * x == x * inner) by (nonlinear_arith);
    }
}

/// Horner's method computes the polynomial: after as many steps as there are
/// coefficients, the accumulator holds `poly_eval(coeffs, x)`.
pub proof fn lemma_horner_is_poly_eval(coeffs: Seq<int>, x: int)
    ensures
        horner(coeffs, x, coeffs.len()) == poly_eval(coeffs, x),
{
    lemma_horner_suffix(coeffs, x, coeffs.len());
    assert(coeffs.skip(0) =~= coeffs);
}

/// One step of Horner's method commutes with reduction into the field.
proof fn lemma_horner_step_reduces(acc: int, x: int, c: int)
    ensures
        reduce(reduce(acc) * x + reduce(c)) == reduce(acc * x + c),
{
    let p = modulus();
    lemma_add_mod_noop(reduce(acc) * x, reduce(c), p);
    lemma_mul_mod_noop_left(acc, x, p);
    lemma_mod_twice(c, p);
    lemma_add_mod_noop(acc * x, c, p);
}

/// The integers that a vector of machine coefficients stands for.
pub open spec fn as_ints(coeffs: Seq<i64>) -> Seq<int> {
    Seq::new(coeffs.len(), |i: int| coeffs[i] as int)
}

/// The root-check circuit for `n` coefficients.
///
/// Wires `0..n` are the coefficients, in ascending degree, and wire `n` is
/// the evaluation point; all of them are virtual.  Wire `n + 1` is the
/// constant zero, which is Horner's accumulator before the first step, and
/// wire `n + 1 + k` is the accumulator after step `k`: the accumulator
/// before that step times `x`, plus the coefficient of degree `n - k`.  The
/// one equality constraint ties the last accumulator to the constant zero.
/// The public inputs are the coefficients in ascending degree, then `x`.
pub open spec fn is_root_check(model: CircuitModel, n: int) -> bool {
    &&& model.gates.len() == 2 * n + 2
    &&& forall|i: int| 0 <= i <= n ==> #[trigger] model.gates[i] is Virtual
    &&& model.gates[n + 1] matches Gate::Constant(c) && c@ == 0
    &&& forall|k: int|
        1 <= k <= n ==> (#[trigger] model.gates[n + 1 + k] matches Gate::MulAdd(a, b, c) && a.index
            == n + k && b.index == n && c.index == n - k)
    &&& model.copies.len() == 1
    &&& model.copies[0].0.index == 2 * n + 1
    &&& model.copies[0].1.index == n + 1
    &&& model.public_inputs.len() == n + 1
    &&& forall|i: int| 0 <= i <= n ==> (#[trigger] model.public_inputs[i]).index == i
    &&& model.verifications.len() == 0
}

/// The witness of the root check: coefficient `i`, reduced into the field,
/// on wire `i`, and `x` on wire `n`.  No other wire is bound.
pub open spec fn root_witness(coeffs: Seq<int>, x: int) -> Seq<Option<int>> {
    Seq::new(
        2 * coeffs.len() + 2,
        |i: int|
            if i < coeffs.len() {
                Some(reduce(coeffs[i]))
            } else if i == coeffs.len() {
                Some(x)
            } else {
                None
            },
    )
}

/// In the root-check circuit the accumulator wire after `k` steps holds
/// Horner's accumulator, reduced into the field.
proof fn lemma_accumulator_value(model: CircuitModel, coeffs: Seq<int>, x: int, k: int)
    requires
        is_root_check(model, coeffs.len() as int),
        0 <= x < modulus(),
        0 <= k <= coeffs.len(),
    ensures
        model.value(root_witness(coeffs, x), coeffs.len() as int + 1 + k) == reduce(
            horner(coeffs, x, k as nat),
        ),
    decreases k,
{
    let n = coeffs.len() as int;
    let w = root_witness(coeffs, x);
    if k == 0 {
        lemma_small_mod(0, modulus() as nat);
    } else {
        lemma_accumulator_value(model, coeffs, x, k - 1);
        let gate = model.gates[n + 1 + k];
        assert(gate matches Gate::MulAdd(a, b, c) && a.index == n + k && b.index == n && c.index
            == n - k);
        assert(model.gates[n] is Virtual);
        assert(model.gates[n - k] is Virtual);
        assert(model.value(w, n) == x);
        assert(model.value(w, n - k) == reduce(coeffs[n - k]));
        lemma_horner_step_reduces(horner(coeffs, x, (k - 1) as nat), x, coeffs[n - k]);
    }
}

/// The root-check circuit accepts the witness made from `coeffs` and `x`
/// exactly when `x` is a root of the polynomial in the field.
pub proof fn theorem_root_check(model: CircuitModel, coeffs: Seq<int>, x: int)
    requires
        is_root_check(model, coeffs.len() as int),
        0 <= x < modulus(),
    ensures
        model.accepts(root_witness(coeffs, x)) <==> reduce(poly_eval(coeffs, x)) == 0,
{
    let n = coeffs.len() as int;
    let w = root_witness(coeffs, x);
    assert forall|i: int| 0 <= i < model.gates.len() implies #[trigger] model.wire_assigned(
        w,
        i,
    ) by {
        if i <= n {
            assert(model.gates[i] is Virtual);
        } else if i == n + 1 {
        } else {
            let k = i - n - 1;
            assert(model.gates[n + 1 + k] is MulAdd);
        }
    }
    assert(model.covered_by(w));
    lemma_accumulator_value(model, coeffs, x, n);
    lemma_accumulator_value(model, coeffs, x, 0);
    lemma_horner_is_poly_eval(coeffs, x);
    lemma_small_mod(0, modulus() as nat);
    assert(model.value(w, 2 * n + 1) == reduce(poly_eval(coeffs, x)));
    assert(model.value(w, n + 1) == 0);
    assert(model.copy_holds(w, 0) <==> reduce(poly_eval(coeffs, x)) == 0);
    if model.accepts(w) {
        assert(model.copy_holds(w, 0));
    }
}

/// A proof of a root check, with the verifier data of its circuit.
pub type VerifiablePolyProof = VerifiableProof;

/// A finalized root-check circuit, with the wires that its witness binds.
pub struct RootCheck {
    pub circuit: Circuit,
    /// The coefficient wires, in ascending degree.
    pub coeffs: Vec<Wire>,
    /// The wire of the evaluation point.
    pub x: Wire,
}

impl RootCheck {
    /// The circuit is the root check for as many coefficients as there are
    /// coefficient wires, and the wires are the ones that it names.
    pub open spec fn wf(&self) -> bool {
        &&& self.circuit@.well_formed()
        &&& is_root_check(self.circuit@, self.coeffs@.len() as int)
        &&& forall|i: int| 0 <= i < self.coeffs@.len() ==> (#[trigger] self.coeffs@[i]).index == i
        &&& self.x.index == self.coeffs@.len()
    }
}

/// Builds the root-check circuit for a polynomial of `num_coeffs`
/// coefficients, that is of degree `num_coeffs - 1`.
///
/// Horner's method takes one multiply-accumulate gadget per coefficient and
/// never divides, so a single coefficient, or none at all, needs no special
/// case.
pub fn build_root_check(config: CircuitConfig, num_coeffs: usize) -> (r: RootCheck)
    ensures
        r.wf(),
        r.coeffs@.len() == num_coeffs,
        r.circuit@.config == config,
{
    let n = num_coeffs;
    let mut builder = CircuitBuilder::new(config);
    let mut coeffs: Vec<Wire> = Vec::new();
    let mut i: usize = 0;
    while i < n
        invariant
            i <= n,
            builder@.well_formed(),
            builder@.config == config,
            builder@.gates.len() == i,
            forall|j: int| 0 <= j < i ==> #[trigger] builder@.gates[j] is Virtual,
            builder@.copies.len() == 0,
            builder@.public_inputs.len() == 0,
            builder@.verifications.len() == 0,
            coeffs@.len() == i,
            forall|j: int| 0 <= j < i ==> (#[trigger] coeffs@[j]).index == j,
        decreases n - i,
    {
        let wire = builder.add_virtual_target();
        coeffs.push(wire);
        i = i + 1;
    }
    let x = builder.add_virtual_target();
    let zero = builder.zero();
    let mut acc = zero;
    let mut k: usize = 0;
    while k < n
        invariant
            k <= n,
            builder@.well_formed(),
            builder@.config == config,
            builder@.gates.len() == n + 2 + k,
            forall|j: int| 0 <= j <= n ==> #[trigger] builder@.gates[j] is Virtual,
            builder@.gates[n + 1] matches Gate::Constant(c) && c@ == 0,
            forall|q: int|
                1 <= q <= k ==> (#[trigger] builder@.gates[n + 1 + q] matches Gate::MulAdd(a, b, c)
                    && a.index == n + q && b.index == n && c.index == n - q),
            builder@.copies.len() == 0,
            builder@.public_inputs.len() == 0,
            builder@.verifications.len() == 0,
            coeffs@.len() == n,
            forall|j: int| 0 <= j < n ==> (#[trigger] coeffs@[j]).index == j,
            x.index == n,
            zero.index == n + 1,
            acc.index == n + 1 + k,
        decreases n - k,
    {
        let coeff = coeffs[n - 1 - k];
        let next = builder.mul_add(acc, x, coeff);
        acc = next.unwrap();
        k = k + 1;
    }
    let connected = builder.connect(acc, zero);
    connected.unwrap();
    let registered = builder.register_public_inputs(&coeffs);
    registered.unwrap();
    let registered = builder.register_public_input(x);
    registered.unwrap();
    let circuit = builder.build();
    RootCheck { circuit, coeffs, x }
}

/// Binds the witness of a root check: coefficient `i`, reduced into the
/// field, to the wire of degree `i`, and `x` to the wire of the evaluation
/// point.
///
/// Fails with `ShapeMismatch`, before anything is bound, when the number of
/// coefficients is not the one that the circuit was built for.
pub fn assign_root_witness(check: &RootCheck, coeffs: &Vec<i64>, x: u64) -> (r: Result<
    Witness,
    WitnessError,
>)
    requires
        check.wf(),
        x < ORDER,
    ensures
        r is Ok <==> coeffs@.len() == check.coeffs@.len(),
        r matches Ok(w) ==> w@ == root_witness(as_ints(coeffs@), x as int),
        r matches Err(e) ==> e == WitnessError::ShapeMismatch,
{
    let n = coeffs.len();
    if check.coeffs.len() != n {
        return Err(WitnessError::ShapeMismatch);
    }
    let ghost ints = as_ints(coeffs@);
    let mut witness = Witness::new(check.circuit.num_wires());
    let mut i: usize = 0;
    while i < n
        invariant
            i <= n,
            n == coeffs@.len(),
            n == check.coeffs@.len(),
            ints == as_ints(coeffs@),
            forall|j: int| 0 <= j < n ==> (#[trigger] check.coeffs@[j]).index == j,
            witness@.len() == 2 * n + 2,
            forall|j: int| 0 <= j < i ==> #[trigger] witness@[j] == Some(reduce(ints[j])),
            forall|j: int| i <= j < 2 * n + 2 ==> #[trigger] witness@[j] is None,
        decreases n - i,
    {
        let value = Felt::from_noncanonical_i64(coeffs[i]);
        let bound = witness.set_target(check.coeffs[i], value);
        assert(bound is Ok);
        i = i + 1;
    }
    let bound = witness.set_target(check.x, Felt::from_canonical_u64(x));
    assert(bound is Ok);
    assert(witness@ =~= root_witness(ints, x as int));
    Ok(witness)
}

/// Builds the root-check circuit for `coeffs`, binds its witness, and checks
/// it: the first half of proving that `x` is a root of the polynomial.
///
/// A request for the outside prover is returned exactly when the polynomial
/// vanishes at `x` in the field.  When it does not, the witness cannot
/// satisfy the circuit and no proof is attempted.
pub fn gen_poly_proof(config: CircuitConfig, coeffs: &Vec<i64>, x: u64) -> (r: Option<ProofRequest>)
    requires
        x < ORDER,
    ensures
        r is Some <==> reduce(poly_eval(as_ints(coeffs@), x as int)) == 0,
        r matches Some(request) ==> {
            &&& is_root_check(request@.circuit, coeffs@.len() as int)
            &&& request@.circuit.config == config
            &&& request@.witness == root_witness(as_ints(coeffs@), x as int)
            &&& request@.checked()
        },
{
    let check = build_root_check(config, coeffs.len());
    let assigned = assign_root_witness(&check, coeffs, x);
    let witness = assigned.unwrap();
    proof {
        theorem_root_check(check.circuit@, as_ints(coeffs@), x as int);
    }
    match prepare_proof(check.circuit, witness) {
        Ok(request) => Some(request),
        Err(_) => None,
    }
}

/// A constant polynomial vanishes, at any point, exactly when its one
/// coefficient is zero: no machine coefficient other than zero reduces to
/// zero in the field.
pub proof fn lemma_constant_polynomial(coeffs: Seq<i64>, x: int)
    requires
        coeffs.len() == 1,
    ensures
        reduce(poly_eval(as_ints(coeffs), x)) == 0 <==> coeffs[0] == 0,
{
    let ints = as_ints(coeffs);
    lemma_pow0(x);
    assert(ints.drop_last().len() == 0);
    assert(poly_eval(ints.drop_last(), x) == 0);
    assert(poly_eval(ints, x) == coeffs[0] as int);
    let c = coeffs[0] as int;
    if c > 0 {
        lemma_small_mod(c as nat, modulus() as nat);
    } else if c < 0 {
        lemma_small_mod((c + modulus()) as nat, modulus() as nat);
        vstd::arithmetic::div_mod::lemma_mod_add_multiples_vanish(c, modulus());
    } else {
        lemma_small_mod(0, modulus() as nat);
    }
}

} // verus!
