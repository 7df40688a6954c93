//! Circuits as an append-only log of gates and constraints.
//!
//! A [`CircuitBuilder`] is the open phase: gates, equality constraints and
//! public inputs can only be appended.  [`CircuitBuilder::build`] consumes the
//! builder and yields the finalized, immutable [`Circuit`].  Both phases are
//! described by the same mathematical model, [`CircuitModel`], which also
//! gives every wire its value under a witness.

use vstd::prelude::*;
use vstd::arithmetic::power2::lemma_pow2_strictly_increases;
use vstd::arithmetic::power2::lemma_pow2_unfold;
use vstd::arithmetic::power2::pow2;
use crate::field::Felt;
use crate::field::reduce;

verus! {

/// An opaque handle to a circuit variable.  A wire carries no value; values
/// are bound by a witness.
#[derive(Clone, Copy, Debug, PartialEq, Eq, Structural)]
pub struct Wire {
    pub index: usize,
}

/// How a wire gets its value.
#[derive(Clone, Copy, Debug)]
pub enum Gate {
    /// A virtual wire: allocated by the circuit author, bound by the witness.
    Virtual,
    /// A wire whose value is fixed by construction.
    Constant(Felt),
    /// A derived wire, constrained to `a * b + c`.
    MulAdd(Wire, Wire, Wire),
}

/// Configuration supplied once by the caller and handed to every circuit.
#[derive(Clone, Copy, Debug, PartialEq, Eq, Structural)]
pub struct CircuitConfig {
    /// Height of the Merkle caps of the commitment scheme; a cap holds
    /// `2^cap_height` digests.
    pub cap_height: usize,
}

/// Why a construction step was refused.
#[derive(Clone, Copy, Debug, PartialEq, Eq, Structural)]
pub enum CircuitError {
    /// A wire that this circuit never allocated was used.
    UnknownWire,
    /// A bundle does not have the shape that the circuit data calls for.
    ShapeMismatch,
    /// A bundle of the requested size cannot be allocated on this machine.
    TooLarge,
}

/// The wires of one digest: four field elements.
pub type HashTarget = [Wire; 4];

/// The part of a finalized circuit's public description that decides the
/// shape of its proofs.
#[derive(Clone, Copy, Debug, PartialEq, Eq, Structural)]
pub struct CommonData {
    pub config: CircuitConfig,
    /// The binary logarithm of the number of rows of the compiled circuit.
    pub degree_bits: usize,
    /// The number of public inputs.
    pub num_public_inputs: usize,
}

/// The wire bundle that stands for a proof with its public inputs inside
/// another circuit.  The public inputs are wires of that circuit; the wires
/// of the commitments and opening arguments are laid out by the outside
/// proof system from `common`.
#[derive(Clone, Debug)]
pub struct ProofTarget {
    pub public_inputs: Vec<Wire>,
    pub common: CommonData,
}

/// The wire bundle that stands for verifier data inside another circuit: a
/// Merkle cap of `2^cap_height` digests, and the digest of the circuit.
#[derive(Clone, Debug)]
pub struct VerifierDataTarget {
    pub constants_sigmas_cap: Vec<HashTarget>,
    pub circuit_digest: HashTarget,
}

/// One use of the verify-proof gadget: the wired proof must be a valid proof
/// against the wired verifier data and the common data of the inner circuit.
/// The constraints behind it are those of the outside proof system.
#[derive(Clone, Debug)]
pub struct VerifyGadget {
    pub proof: ProofTarget,
    pub verifier_data: VerifierDataTarget,
    pub common: CommonData,
}

/// The mathematical content of a circuit.
pub struct CircuitModel {
    pub config: CircuitConfig,
    /// Gate `i` defines wire `i`.
    pub gates: Seq<Gate>,
    /// Pairs of wires that must hold equal values.
    pub copies: Seq<(Wire, Wire)>,
    /// The wires exposed outside the circuit, in registration order.
    pub public_inputs: Seq<Wire>,
    /// The uses of the verify-proof gadget, in the order in which they were
    /// emitted.
    pub verifications: Seq<VerifyGadget>,
}

/// The number of digests in a Merkle cap of height `cap_height`, where the
/// machine can hold that number.
pub fn cap_size(cap_height: usize) -> (r: Option<usize>)
    ensures
        r matches Some(n) ==> n == pow2(cap_height as nat),
        r is None <==> pow2(cap_height as nat) > usize::MAX,
{
    let mut size: usize = 1;
    let mut i: usize = 0;
    proof {
        assert(pow2(0) == 1) by {
            reveal(pow2);
            vstd::arithmetic::power::lemma_pow0(2);
        }
    }
    while i < cap_height
        invariant
            i <= cap_height,
            size == pow2(i as nat),
        decreases cap_height - i,
    {
        proof {
            lemma_pow2_unfold((i + 1) as nat);
        }
        if size > usize::MAX / 2 {
            proof {
                if i + 1 < cap_height {
                    lemma_pow2_strictly_increases((i + 1) as nat, cap_height as nat);
                }
            }
            return None;
        }
        size = size * 2;
        i = i + 1;
    }
    Some(size)
}

impl CircuitModel {
    /// Whether `w` was allocated by this circuit.
    pub open spec fn owns(self, w: Wire) -> bool {
        w.index < self.gates.len()
    }

    /// Whether every wire of `wires` was allocated by this circuit.
    pub open spec fn owns_all(self, wires: Seq<Wire>) -> bool {
        forall|i: int| 0 <= i < wires.len() ==> self.owns(#[trigger] wires[i])
    }

    /// Whether every wire of the bundle was allocated by this circuit.
    pub open spec fn owns_verifier_target(self, target: VerifierDataTarget) -> bool {
        &&& forall|j: int|
            0 <= j < target.constants_sigmas_cap@.len() ==> self.owns_all(
                (#[trigger] target.constants_sigmas_cap@[j])@,
            )
        &&& self.owns_all(target.circuit_digest@)
    }

    /// Whether every wire that the gadget reads was allocated by this circuit.
    pub open spec fn owns_gadget(self, gadget: VerifyGadget) -> bool {
        self.owns_all(gadget.proof.public_inputs@) && self.owns_verifier_target(
            gadget.verifier_data,
        )
    }

    /// Gates only refer to earlier wires, and constraints, public inputs and
    /// gadgets only to wires of this circuit.
    pub open spec fn well_formed(self) -> bool {
        &&& forall|k: int|
            0 <= k < self.verifications.len() ==> self.owns_gadget(#[trigger] self.verifications[k])
        &&& forall|i: int|
            0 <= i < self.gates.len() ==> (#[trigger] self.gates[i] matches Gate::MulAdd(a, b, c)
                ==> a.index < i && b.index < i && c.index < i)
        &&& forall|k: int|
            0 <= k < self.copies.len() ==> self.owns((#[trigger] self.copies[k]).0) && self.owns(
                self.copies[k].1,
            )
        &&& forall|k: int|
            0 <= k < self.public_inputs.len() ==> self.owns(#[trigger] self.public_inputs[k])
    }

    /// The value of wire `i` when the virtual wires hold what `witness` binds
    /// them to.  An unbound virtual wire counts as zero here; whether a
    /// witness binds every virtual wire is stated by [`Self::covered_by`].
    pub open spec fn value(self, witness: Seq<Option<int>>, i: int) -> int
        decreases i,
    {
        if i < 0 || i >= self.gates.len() {
            0
        } else {
            match self.gates[i] {
                Gate::Virtual => if i < witness.len() && witness[i] is Some {
                    witness[i]->0
                } else {
                    0
                },
                Gate::Constant(c) => c@,
                Gate::MulAdd(a, b, c) => if a.index < i && b.index < i && c.index < i {
                    reduce(
                        self.value(witness, a.index as int) * self.value(witness, b.index as int)
                            + self.value(witness, c.index as int),
                    )
                } else {
                    0
                },
            }
        }
    }

    /// Wire `i` has exactly one value under `witness`: a virtual wire is
    /// bound, and a binding of any other wire agrees with the value that the
    /// gate gives it.
    pub open spec fn wire_assigned(self, witness: Seq<Option<int>>, i: int) -> bool {
        match self.gates[i] {
            Gate::Virtual => witness[i] is Some,
            _ => witness[i] is Some ==> witness[i]->0 == self.value(witness, i),
        }
    }

    /// Every wire of the circuit has exactly one value under `witness`.
    pub open spec fn covered_by(self, witness: Seq<Option<int>>) -> bool {
        &&& witness.len() == self.gates.len()
        &&& forall|i: int| 0 <= i < self.gates.len() ==> #[trigger] self.wire_assigned(witness, i)
    }

    /// Equality constraint `k` holds under `witness`.
    pub open spec fn copy_holds(self, witness: Seq<Option<int>>, k: int) -> bool {
        self.value(witness, self.copies[k].0.index as int) == self.value(
            witness,
            self.copies[k].1.index as int,
        )
    }

    /// Every equality constraint holds under `witness`.
    pub open spec fn satisfied_by(self, witness: Seq<Option<int>>) -> bool {
        forall|k: int| 0 <= k < self.copies.len() ==> #[trigger] self.copy_holds(witness, k)
    }

    /// The witness is complete and satisfies every constraint that is stated
    /// over wire values.  What the verify-proof gadgets demand is decided by
    /// the outside proof system.
    pub open spec fn accepts(self, witness: Seq<Option<int>>) -> bool {
        self.covered_by(witness) && self.satisfied_by(witness)
    }

    /// The values of the public inputs, in registration order.
    pub open spec fn public_values(self, witness: Seq<Option<int>>) -> Seq<int> {
        Seq::new(
            self.public_inputs.len(),
            |k: int| self.value(witness, self.public_inputs[k].index as int),
        )
    }
}

/// Whether the bundles have the shape that `common` calls for.
pub open spec fn gadget_fits(
    proof: ProofTarget,
    verifier_data: VerifierDataTarget,
    common: CommonData,
) -> bool {
    &&& proof.common == common
    &&& proof.public_inputs@.len() == common.num_public_inputs
    &&& verifier_data.constants_sigmas_cap@.len() == pow2(common.config.cap_height as nat)
}

/// Whether `gadget` reads exactly the wires of the two bundles, in the same
/// order, and refers to `common`.
pub open spec fn same_gadget(
    gadget: VerifyGadget,
    proof: ProofTarget,
    verifier_data: VerifierDataTarget,
    common: CommonData,
) -> bool {
    &&& gadget.proof.public_inputs@ == proof.public_inputs@
    &&& gadget.proof.common == common
    &&& gadget.verifier_data.constants_sigmas_cap@ == verifier_data.constants_sigmas_cap@
    &&& gadget.verifier_data.circuit_digest == verifier_data.circuit_digest
    &&& gadget.common == common
}

/// A copy of a vector of plain values.
pub(crate) fn copy_vec<T: Copy>(values: &Vec<T>) -> (r: Vec<T>)
    ensures
        r@ == values@,
{
    let mut r: Vec<T> = Vec::new();
    let mut i: usize = 0;
    while i < values.len()
        invariant
            i <= values@.len(),
            r@ == values@.take(i as int),
        decreases values@.len() - i,
    {
        r.push(values[i]);
        assert(values@.take(i + 1) =~= values@.take(i as int).push(values@[i as int]));
        i = i + 1;
    }
    assert(values@.take(values@.len() as int) =~= values@);
    r
}

/// The open phase of a circuit: an append-only log.
pub struct CircuitBuilder {
    config: CircuitConfig,
    gates: Vec<Gate>,
    copies: Vec<(Wire, Wire)>,
    public_inputs: Vec<Wire>,
    verifications: Vec<VerifyGadget>,
}

impl View for CircuitBuilder {
    type V = CircuitModel;

    closed spec fn view(&self) -> CircuitModel {
        CircuitModel {
            config: self.config,
            gates: self.gates@,
            copies: self.copies@,
            public_inputs: self.public_inputs@,
            verifications: self.verifications@,
        }
    }
}

impl CircuitBuilder {
    /// An empty circuit.
    pub fn new(config: CircuitConfig) -> (b: CircuitBuilder)
        ensures
            b@.config == config,
            b@.gates.len() == 0,
            b@.copies.len() == 0,
            b@.public_inputs.len() == 0,
            b@.verifications.len() == 0,
            b@.well_formed(),
    {
        CircuitBuilder {
            config,
            gates: Vec::new(),
            copies: Vec::new(),
            public_inputs: Vec::new(),
            verifications: Vec::new(),
        }
    }

    /// The number of wires allocated so far.
    pub fn num_wires(&self) -> (n: usize)
        ensures
            n == self@.gates.len(),
    {
        self.gates.len()
    }

    /// Whether `w` was allocated by this builder.
    pub fn owns(&self, w: Wire) -> (b: bool)
        ensures
            b == self@.owns(w),
    {
        w.index < self.gates.len()
    }

    fn push_gate(&mut self, gate: Gate) -> (w: Wire)
        requires
            old(self)@.well_formed(),
            gate matches Gate::MulAdd(a, b, c) ==> old(self)@.owns(a) && old(self)@.owns(b) && old(
                self,
            )@.owns(c),
        ensures
            w.index == old(self)@.gates.len(),
            final(self)@ == (CircuitModel { gates: old(self)@.gates.push(gate), ..old(self)@ }),
            final(self)@.well_formed(),
    {
        let w = Wire { index: self.gates.len() };
        self.gates.push(gate);
        w
    }

    /// Allocates a fresh virtual wire, with no constraint attached.
    pub fn add_virtual_target(&mut self) -> (w: Wire)
        requires
            old(self)@.well_formed(),
        ensures
            w.index == old(self)@.gates.len(),
            final(self)@ == (CircuitModel {
                gates: old(self)@.gates.push(Gate::Virtual),
                ..old(self)@
            }),
            final(self)@.well_formed(),
    {
        self.push_gate(Gate::Virtual)
    }

    /// Allocates a wire whose value is fixed to `c`.
    pub fn constant(&mut self, c: Felt) -> (w: Wire)
        requires
            old(self)@.well_formed(),
        ensures
            w.index == old(self)@.gates.len(),
            final(self)@ == (CircuitModel {
                gates: old(self)@.gates.push(Gate::Constant(c)),
                ..old(self)@
            }),
            final(self)@.well_formed(),
    {
        self.push_gate(Gate::Constant(c))
    }

    /// Allocates a wire whose value is fixed to zero.
    pub fn zero(&mut self) -> (w: Wire)
        requires
            old(self)@.well_formed(),
        ensures
            w.index == old(self)@.gates.len(),
            final(self)@.gates.len() == old(self)@.gates.len() + 1,
            final(self)@.gates[w.index as int] matches Gate::Constant(c) && c@ == 0,
            forall|j: int| 0 <= j < old(self)@.gates.len() ==> final(self)@.gates[j] == old(self)@.gates[j],
            final(self)@.copies == old(self)@.copies,
            final(self)@.public_inputs == old(self)@.public_inputs,
            final(self)@.verifications == old(self)@.verifications,
            final(self)@.config == old(self)@.config,
            final(self)@.well_formed(),
    {
        self.push_gate(Gate::Constant(Felt::zero()))
    }

    /// The multiply-accumulate gadget: allocates a wire constrained to
    /// `a * b + c`.  Refused, with the builder unchanged, when one of the
    /// operands is not a wire of this circuit.
    pub fn mul_add(&mut self, a: Wire, b: Wire, c: Wire) -> (r: Result<Wire, CircuitError>)
        requires
            old(self)@.well_formed(),
        ensures
            r is Ok <==> old(self)@.owns(a) && old(self)@.owns(b) && old(self)@.owns(c),
            r matches Ok(w) ==> w.index == old(self)@.gates.len() && final(self)@ == (CircuitModel {
                gates: old(self)@.gates.push(Gate::MulAdd(a, b, c)),
                ..old(self)@
            }),
            r matches Err(e) ==> e == CircuitError::UnknownWire && final(self)@ == old(self)@,
            final(self)@.well_formed(),
    {
        if self.owns(a) && self.owns(b) && self.owns(c) {
            Ok(self.push_gate(Gate::MulAdd(a, b, c)))
        } else {
            Err(CircuitError::UnknownWire)
        }
    }

    /// The equality constraint: `a` and `b` must hold equal values in every
    /// valid witness.  Refused, with the builder unchanged, when one of them
    /// is not a wire of this circuit.
    pub fn connect(&mut self, a: Wire, b: Wire) -> (r: Result<(), CircuitError>)
        requires
            old(self)@.well_formed(),
        ensures
            r is Ok <==> old(self)@.owns(a) && old(self)@.owns(b),
            r is Ok ==> final(self)@ == (CircuitModel {
                copies: old(self)@.copies.push((a, b)),
                ..old(self)@
            }),
            r matches Err(e) ==> e == CircuitError::UnknownWire && final(self)@ == old(self)@,
            final(self)@.well_formed(),
    {
        if self.owns(a) && self.owns(b) {
            self.copies.push((a, b));
            Ok(())
        } else {
            Err(CircuitError::UnknownWire)
        }
    }

    /// Marks `w` as externally visible, after the public inputs registered so
    /// far.  Refused, with the builder unchanged, when `w` is not a wire of
    /// this circuit.
    pub fn register_public_input(&mut self, w: Wire) -> (r: Result<(), CircuitError>)
        requires
            old(self)@.well_formed(),
        ensures
            r is Ok <==> old(self)@.owns(w),
            r is Ok ==> final(self)@ == (CircuitModel {
                public_inputs: old(self)@.public_inputs.push(w),
                ..old(self)@
            }),
            r matches Err(e) ==> e == CircuitError::UnknownWire && final(self)@ == old(self)@,
            final(self)@.well_formed(),
    {
        if self.owns(w) {
            self.public_inputs.push(w);
            Ok(())
        } else {
            Err(CircuitError::UnknownWire)
        }
    }

    /// Marks every wire of `wires` as externally visible, in order.  Refused,
    /// with the builder unchanged, when one of them is not a wire of this
    /// circuit.
    pub fn register_public_inputs(&mut self, wires: &Vec<Wire>) -> (r: Result<(), CircuitError>)
        requires
            old(self)@.well_formed(),
        ensures
            r is Ok <==> forall|k: int| 0 <= k < wires@.len() ==> old(self)@.owns(#[trigger] wires@[k]),
            r is Ok ==> final(self)@ == (CircuitModel {
                public_inputs: old(self)@.public_inputs + wires@,
                ..old(self)@
            }),
            r matches Err(e) ==> e == CircuitError::UnknownWire && final(self)@ == old(self)@,
            final(self)@.well_formed(),
    {
        let mut k: usize = 0;
        while k < wires.len()
            invariant
                k <= wires@.len(),
                *self == *old(self),
                old(self)@.well_formed(),
                forall|j: int| 0 <= j < k ==> old(self)@.owns(#[trigger] wires@[j]),
            decreases wires@.len() - k,
        {
            if !self.owns(wires[k]) {
                return Err(CircuitError::UnknownWire);
            }
            k = k + 1;
        }
        let mut k: usize = 0;
        while k < wires.len()
            invariant
                k <= wires@.len(),
                forall|j: int| 0 <= j < wires@.len() ==> old(self)@.owns(#[trigger] wires@[j]),
                self@ == (CircuitModel {
                    public_inputs: old(self)@.public_inputs + wires@.take(k as int),
                    ..old(self)@
                }),
                self@.well_formed(),
            decreases wires@.len() - k,
        {
            let ghost before = self@;
            assert(before.owns(wires@[k as int]));
            self.public_inputs.push(wires[k]);
            assert(self@.public_inputs == before.public_inputs.push(wires@[k as int]));
            assert forall|q: int| 0 <= q < self@.public_inputs.len() implies self@.owns(
                #[trigger] self@.public_inputs[q],
            ) by {
                if q < before.public_inputs.len() {
                    assert(self@.public_inputs[q] == before.public_inputs[q]);
                }
            }
            assert(self@.gates == before.gates && self@.copies == before.copies
                && self@.verifications == before.verifications);
            assert(wires@.take(k + 1) =~= wires@.take(k as int).push(wires@[k as int]));
            assert(old(self)@.public_inputs + wires@.take(k + 1) =~= (old(self)@.public_inputs
                + wires@.take(k as int)).push(wires@[k as int]));
            k = k + 1;
        }
        assert(wires@.take(wires@.len() as int) =~= wires@);
        Ok(())
    }

    /// Allocates `count` fresh virtual wires, in order.
    pub fn add_virtual_targets(&mut self, count: usize) -> (wires: Vec<Wire>)
        requires
            old(self)@.well_formed(),
        ensures
            wires@.len() == count,
            forall|i: int| 0 <= i < count ==> (#[trigger] wires@[i]).index == old(self)@.gates.len() + i,
            final(self)@ == (CircuitModel {
                gates: old(self)@.gates + Seq::new(count as nat, |i: int| Gate::Virtual),
                ..old(self)@
            }),
            final(self)@.well_formed(),
    {
        let mut wires: Vec<Wire> = Vec::new();
        let mut i: usize = 0;
        while i < count
            invariant
                i <= count,
                wires@.len() == i,
                forall|j: int| 0 <= j < i ==> (#[trigger] wires@[j]).index == old(self)@.gates.len() + j,
                self@ == (CircuitModel {
                    gates: old(self)@.gates + Seq::new(i as nat, |q: int| Gate::Virtual),
                    ..old(self)@
                }),
                self@.well_formed(),
            decreases count - i,
        {
            let ghost before = self@;
            let wire = self.add_virtual_target();
            wires.push(wire);
            assert(before.gates.push(Gate::Virtual) =~= old(self)@.gates + Seq::new(
                (i + 1) as nat,
                |q: int| Gate::Virtual,
            ));
            i = i + 1;
        }
        wires
    }

    /// Allocates the bundle that stands for a proof of the circuit described
    /// by `common`: one fresh virtual wire for each of its public inputs.
    pub fn add_virtual_proof_with_pis(&mut self, common: &CommonData) -> (target: ProofTarget)
        requires
            old(self)@.well_formed(),
        ensures
            target.common == *common,
            target.public_inputs@.len() == common.num_public_inputs,
            forall|i: int|
                0 <= i < common.num_public_inputs ==> (#[trigger] target.public_inputs@[i]).index
                    == old(self)@.gates.len() + i,
            final(self)@ == (CircuitModel {
                gates: old(self)@.gates + Seq::new(
                    common.num_public_inputs as nat,
                    |i: int| Gate::Virtual,
                ),
                ..old(self)@
            }),
            final(self)@.well_formed(),
    {
        let public_inputs = self.add_virtual_targets(common.num_public_inputs);
        ProofTarget { public_inputs, common: *common }
    }

    /// Allocates the bundle that stands for verifier data with Merkle caps of
    /// height `cap_height`: four fresh virtual wires for each of the
    /// `2^cap_height` digests of the cap, in order, then four for the digest
    /// of the circuit.
    ///
    /// Refused with `TooLarge`, and the builder unchanged, when the machine
    /// cannot count the digests of such a cap.
    pub fn add_virtual_verifier_data(&mut self, cap_height: usize) -> (r: Result<
        VerifierDataTarget,
        CircuitError,
    >)
        requires
            old(self)@.well_formed(),
        ensures
            r is Ok <==> pow2(cap_height as nat) <= usize::MAX,
            r matches Err(e) ==> e == CircuitError::TooLarge && final(self)@ == old(self)@,
            r matches Ok(target) ==> {
                &&& target.constants_sigmas_cap@.len() == pow2(cap_height as nat)
                &&& forall|j: int, e: int|
                    0 <= j < target.constants_sigmas_cap@.len() && 0 <= e < 4 ==> (
                    #[trigger] target.constants_sigmas_cap@[j]@[e]).index == old(self)@.gates.len()
                        + 4 * j + e
                &&& forall|e: int|
                    0 <= e < 4 ==> (#[trigger] target.circuit_digest@[e]).index == old(
                        self,
                    )@.gates.len() + 4 * pow2(cap_height as nat) + e
                &&& final(self)@ == (CircuitModel {
                    gates: old(self)@.gates + Seq::new(
                        4 * pow2(cap_height as nat) + 4,
                        |i: int| Gate::Virtual,
                    ),
                    ..old(self)@
                })
            },
            final(self)@.well_formed(),
    {
        let size = match cap_size(cap_height) {
            Some(size) => size,
            None => {
                return Err(CircuitError::TooLarge);
            },
        };
        let mut cap: Vec<HashTarget> = Vec::new();
        let mut j: usize = 0;
        while j < size
            invariant
                j <= size,
                cap@.len() == j,
                forall|q: int, e: int|
                    0 <= q < j && 0 <= e < 4 ==> (#[trigger] cap@[q]@[e]).index == old(
                        self,
                    )@.gates.len() + 4 * q + e,
                self@ == (CircuitModel {
                    gates: old(self)@.gates + Seq::new((4 * j) as nat, |i: int| Gate::Virtual),
                    ..old(self)@
                }),
                self@.well_formed(),
            decreases size - j,
        {
            let ghost before = self@;
            let hash = self.add_virtual_hash();
            cap.push(hash);
            assert(before.gates + Seq::new(4, |i: int| Gate::Virtual) =~= old(self)@.gates
                + Seq::new((4 * (j + 1)) as nat, |i: int| Gate::Virtual));
            j = j + 1;
        }
        let ghost before = self@;
        let circuit_digest = self.add_virtual_hash();
        assert(before.gates + Seq::new(4, |i: int| Gate::Virtual) =~= old(self)@.gates + Seq::new(
            (4 * size + 4) as nat,
            |i: int| Gate::Virtual,
        ));
        Ok(VerifierDataTarget { constants_sigmas_cap: cap, circuit_digest })
    }

    fn add_virtual_hash(&mut self) -> (hash: HashTarget)
        requires
            old(self)@.well_formed(),
        ensures
            forall|e: int| 0 <= e < 4 ==> (#[trigger] hash@[e]).index == old(self)@.gates.len() + e,
            final(self)@ == (CircuitModel {
                gates: old(self)@.gates + Seq::new(4, |i: int| Gate::Virtual),
                ..old(self)@
            }),
            final(self)@.well_formed(),
    {
        let a = self.add_virtual_target();
        let b = self.add_virtual_target();
        let c = self.add_virtual_target();
        let d = self.add_virtual_target();
        assert(self@.gates =~= old(self)@.gates + Seq::new(4, |i: int| Gate::Virtual));
        [a, b, c, d]
    }

    fn owns_each(&self, wires: &Vec<Wire>) -> (b: bool)
        ensures
            b == self@.owns_all(wires@),
    {
        let mut i: usize = 0;
        while i < wires.len()
            invariant
                i <= wires@.len(),
                forall|j: int| 0 <= j < i ==> self@.owns(#[trigger] wires@[j]),
            decreases wires@.len() - i,
        {
            if !self.owns(wires[i]) {
                return false;
            }
            i = i + 1;
        }
        true
    }

    fn owns_hash(&self, hash: &HashTarget) -> (b: bool)
        ensures
            b == self@.owns_all(hash@),
    {
        let b = self.owns(hash[0]) && self.owns(hash[1]) && self.owns(hash[2]) && self.owns(
            hash[3],
        );
        assert(b ==> self@.owns_all(hash@)) by {
            if b {
                assert forall|i: int| 0 <= i < hash@.len() implies self@.owns(#[trigger] hash@[i]) by {
                    assert(i == 0 || i == 1 || i == 2 || i == 3);
                }
            }
        }
        b
    }

    fn owns_bundle(&self, target: &VerifierDataTarget) -> (b: bool)
        ensures
            b == self@.owns_verifier_target(*target),
    {
        let mut j: usize = 0;
        while j < target.constants_sigmas_cap.len()
            invariant
                j <= target.constants_sigmas_cap@.len(),
                forall|q: int|
                    0 <= q < j ==> self@.owns_all((#[trigger] target.constants_sigmas_cap@[q])@),
            decreases target.constants_sigmas_cap@.len() - j,
        {
            if !self.owns_hash(&target.constants_sigmas_cap[j]) {
                return false;
            }
            j = j + 1;
        }
        self.owns_hash(&target.circuit_digest)
    }

    /// Emits the verify-proof gadget: the wired proof must verify against the
    /// wired verifier data and `common`, the common data of the inner circuit.
    ///
    /// The bundles must have the shape that `common` calls for: the proof
    /// bundle was allocated for `common`, with one wire for each of its
    /// public inputs, and the cap of the verifier data has
    /// `2^common.config.cap_height` digests.  Otherwise the gadget is
    /// refused with `ShapeMismatch`.  Bundles of the right shape that hold a
    /// wire of another circuit are refused with `UnknownWire`.  A refusal
    /// leaves the builder unchanged.
    pub fn verify_proof(
        &mut self,
        proof: &ProofTarget,
        verifier_data: &VerifierDataTarget,
        common: &CommonData,
    ) -> (r: Result<(), CircuitError>)
        requires
            old(self)@.well_formed(),
        ensures
            r is Ok <==> gadget_fits(*proof, *verifier_data, *common) && old(self)@.owns_all(
                proof.public_inputs@,
            ) && old(self)@.owns_verifier_target(*verifier_data),
            r matches Err(e) ==> final(self)@ == old(self)@ && e == (if gadget_fits(
                *proof,
                *verifier_data,
                *common,
            ) {
                CircuitError::UnknownWire
            } else {
                CircuitError::ShapeMismatch
            }),
            r is Ok ==> {
                &&& final(self)@.verifications.len() == old(self)@.verifications.len() + 1
                &&& final(self)@.verifications.drop_last() == old(self)@.verifications
                &&& same_gadget(
                    final(self)@.verifications.last(),
                    *proof,
                    *verifier_data,
                    *common,
                )
                &&& final(self)@.gates == old(self)@.gates
                &&& final(self)@.copies == old(self)@.copies
                &&& final(self)@.public_inputs == old(self)@.public_inputs
                &&& final(self)@.config == old(self)@.config
            },
            final(self)@.well_formed(),
    {
        let cap_len = verifier_data.constants_sigmas_cap.len();
        let fits = match cap_size(common.config.cap_height) {
            Some(size) => proof.common == *common && proof.public_inputs.len()
                == common.num_public_inputs && cap_len == size,
            None => false,
        };
        if !fits {
            return Err(CircuitError::ShapeMismatch);
        }
        if !self.owns_each(&proof.public_inputs) || !self.owns_bundle(verifier_data) {
            return Err(CircuitError::UnknownWire);
        }
        let gadget = VerifyGadget {
            proof: ProofTarget { public_inputs: copy_vec(&proof.public_inputs), common: *common },
            verifier_data: VerifierDataTarget {
                constants_sigmas_cap: copy_vec(&verifier_data.constants_sigmas_cap),
                circuit_digest: verifier_data.circuit_digest,
            },
            common: *common,
        };
        let ghost before = self@;
        assert(before.owns_gadget(gadget));
        self.verifications.push(gadget);
        assert(self@.verifications.drop_last() =~= before.verifications);
        assert forall|k: int| 0 <= k < self@.verifications.len() implies self@.owns_gadget(
            #[trigger] self@.verifications[k],
        ) by {
            if k < before.verifications.len() {
                assert(before.owns_gadget(before.verifications[k]));
            }
        }
        assert(self@.gates == before.gates && self@.copies == before.copies
            && self@.public_inputs == before.public_inputs);
        Ok(())
    }

    /// Finalizes the circuit.  The builder is consumed: nothing can be added
    /// to a circuit once it is built, and no builder is built twice.
    pub fn build(self) -> (c: Circuit)
        requires
            self@.well_formed(),
        ensures
            c@ == self@,
            c@.well_formed(),
    {
        Circuit {
            config: self.config,
            gates: self.gates,
            copies: self.copies,
            public_inputs: self.public_inputs,
            verifications: self.verifications,
        }
    }
}

/// A finalized circuit: the public, witness-independent description of all
/// gates, constraints and public-input positions.
pub struct Circuit {
    config: CircuitConfig,
    gates: Vec<Gate>,
    copies: Vec<(Wire, Wire)>,
    public_inputs: Vec<Wire>,
    verifications: Vec<VerifyGadget>,
}

impl View for Circuit {
    type V = CircuitModel;

    closed spec fn view(&self) -> CircuitModel {
        CircuitModel {
            config: self.config,
            gates: self.gates@,
            copies: self.copies@,
            public_inputs: self.public_inputs@,
            verifications: self.verifications@,
        }
    }
}

impl Circuit {
    #[verifier::type_invariant]
    spec fn inv(self) -> bool {
        self@.well_formed()
    }

    /// The configuration that the circuit was built with.
    pub fn config(&self) -> (c: CircuitConfig)
        ensures
            c == self@.config,
    {
        self.config
    }

    /// The number of wires.  Every finalized circuit is well formed.
    pub fn num_wires(&self) -> (n: usize)
        ensures
            n == self@.gates.len(),
            self@.well_formed(),
    {
        proof {
            use_type_invariant(self);
        }
        self.gates.len()
    }

    /// The gates: gate `i` defines wire `i`.
    pub fn gates(&self) -> (g: &Vec<Gate>)
        ensures
            g@ == self@.gates,
    {
        &self.gates
    }

    /// The equality constraints, in the order in which they were added.
    pub fn copies(&self) -> (c: &Vec<(Wire, Wire)>)
        ensures
            c@ == self@.copies,
    {
        &self.copies
    }

    /// The public-input wires, in registration order.
    pub fn public_inputs(&self) -> (p: &Vec<Wire>)
        ensures
            p@ == self@.public_inputs,
    {
        &self.public_inputs
    }

    /// The uses of the verify-proof gadget, in the order in which they were
    /// emitted.
    pub fn verifications(&self) -> (v: &Vec<VerifyGadget>)
        ensures
            v@ == self@.verifications,
    {
        &self.verifications
    }
}

} // verus!
