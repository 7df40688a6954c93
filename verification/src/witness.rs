//! Witnesses: the values that a prover binds to the wires of one circuit.

use vstd::prelude::*;
use crate::circuit::Wire;
use crate::field::felts_view;
use crate::field::Felt;

verus! {

/// Why a binding was refused.
#[derive(Clone, Copy, Debug, PartialEq, Eq, Structural)]
pub enum WitnessError {
    /// The wire does not belong to the circuit that the witness was made for.
    UnknownWire,
    /// The wire is already bound to a different value.
    Conflict,
    /// A bundle of values does not have the shape of the wires it is bound to.
    ShapeMismatch,
}

/// A partial assignment of field elements to the wires of one circuit.
///
/// Its view is a sequence with one entry per wire: `Some(v)` where the wire is
/// bound to the element with canonical representative `v`, `None` where it is
/// not bound.
pub struct Witness {
    values: Vec<Option<Felt>>,
}

/// The view of one slot of a witness.
pub open spec fn slot_view(slot: Option<Felt>) -> Option<int> {
    match slot {
        Some(f) => Some(f@),
        None => None,
    }
}

/// The outcome of binding `wire` to `value` in the witness `w`: the new
/// witness, or why the binding is refused.
pub open spec fn bind_one(w: Seq<Option<int>>, wire: Wire, value: int) -> Result<
    Seq<Option<int>>,
    WitnessError,
> {
    if wire.index >= w.len() {
        Err(WitnessError::UnknownWire)
    } else if w[wire.index as int] is Some && w[wire.index as int] != Some(value) {
        Err(WitnessError::Conflict)
    } else {
        Ok(w.update(wire.index as int, Some(value)))
    }
}

/// The outcome of binding `wires[0]` to `values[0]`, then `wires[1]` to
/// `values[1]`, and so on, stopping at the first binding that is refused:
/// the witness reached, and that refusal if there was one.
pub open spec fn bind_each(w: Seq<Option<int>>, wires: Seq<Wire>, values: Seq<int>) -> (
    Seq<Option<int>>,
    Option<WitnessError>,
)
    decreases wires.len(),
{
    if wires.len() == 0 || values.len() == 0 {
        (w, None)
    } else {
        match bind_one(w, wires[0], values[0]) {
            Ok(next) => bind_each(next, wires.skip(1), values.skip(1)),
            Err(e) => (w, Some(e)),
        }
    }
}

/// Binding fresh wires always succeeds: when the wires are distinct wires of
/// the circuit and none of them is bound yet, `bind_each` refuses nothing and
/// binds each wire to its value, leaving every other wire as it was.
pub proof fn lemma_bind_each_fresh(w: Seq<Option<int>>, wires: Seq<Wire>, values: Seq<int>)
    requires
        wires.len() == values.len(),
        forall|i: int| 0 <= i < wires.len() ==> (#[trigger] wires[i]).index < w.len(),
        forall|i: int| 0 <= i < wires.len() ==> w[(#[trigger] wires[i]).index as int] is None,
        forall|i: int, j: int|
            0 <= i < j < wires.len() ==> (#[trigger] wires[i]).index != (#[trigger] wires[j]).index,
    ensures
        bind_each(w, wires, values).1 is None,
        bind_each(w, wires, values).0.len() == w.len(),
        forall|i: int|
            0 <= i < wires.len() ==> bind_each(w, wires, values).0[(#[trigger] wires[i]).index as int]
                == Some(values[i]),
        forall|q: int|
            0 <= q < w.len() && (forall|i: int| 0 <= i < wires.len() ==> (#[trigger] wires[i]).index
                != q) ==> bind_each(w, wires, values).0[q] == w[q],
    decreases wires.len(),
{
    if wires.len() > 0 {
        let next = w.update(wires[0].index as int, Some(values[0]));
        let rest_w = wires.skip(1);
        let rest_v = values.skip(1);
        assert forall|i: int| 0 <= i < rest_w.len() implies next[(#[trigger] rest_w[i]).index as int] is None by {
            assert(rest_w[i] == wires[i + 1]);
            assert(wires[0].index != wires[i + 1].index);
        }
        assert forall|i: int, j: int| 0 <= i < j < rest_w.len() implies (#[trigger] rest_w[i]).index != (
        #[trigger] rest_w[j]).index by {
            assert(rest_w[i] == wires[i + 1]);
            assert(rest_w[j] == wires[j + 1]);
        }
        assert forall|i: int| 0 <= i < rest_w.len() implies (#[trigger] rest_w[i]).index
            < next.len() by {
            assert(rest_w[i] == wires[i + 1]);
        }
        lemma_bind_each_fresh(next, rest_w, rest_v);
        let inner = bind_each(next, rest_w, rest_v).0;
        assert(bind_one(w, wires[0], values[0]) == Ok::<Seq<Option<int>>, WitnessError>(next));
        assert(bind_each(w, wires, values) == bind_each(next, rest_w, rest_v));
        let first = wires[0].index as int;
        assert forall|j: int| 0 <= j < rest_w.len() implies (#[trigger] rest_w[j]).index != first by {
            assert(rest_w[j] == wires[j + 1]);
        }
        assert(inner[first] == next[first]);
        assert forall|i: int| 0 <= i < wires.len() implies inner[(#[trigger] wires[i]).index as int]
            == Some(values[i]) by {
            if i > 0 {
                assert(rest_w[i - 1] == wires[i]);
                assert(rest_v[i - 1] == values[i]);
                assert(inner[rest_w[i - 1].index as int] == Some(rest_v[i - 1]));
            }
        }
        assert forall|q: int|
            0 <= q < w.len() && (forall|i: int| 0 <= i < wires.len() ==> (#[trigger] wires[i]).index
                != q) implies inner[q] == w[q] by {
            assert(wires[0].index != q);
            assert forall|j: int| 0 <= j < rest_w.len() implies (#[trigger] rest_w[j]).index != q by {
                assert(rest_w[j] == wires[j + 1]);
            }
            assert(inner[q] == next[q]);
        }
    }
}

impl View for Witness {
    type V = Seq<Option<int>>;

    closed spec fn view(&self) -> Seq<Option<int>> {
        Seq::new(self.values@.len(), |i: int| slot_view(self.values@[i]))
    }
}

impl Witness {
    /// A witness for a circuit of `num_wires` wires, with no wire bound.
    pub fn new(num_wires: usize) -> (w: Witness)
        ensures
            w@.len() == num_wires,
            forall|i: int| 0 <= i < num_wires ==> w@[i] is None,
    {
        let mut values: Vec<Option<Felt>> = Vec::new();
        let mut i: usize = 0;
        while i < num_wires
            invariant
                i <= num_wires,
                values@.len() == i,
                forall|j: int| 0 <= j < i ==> values@[j] is None,
            decreases num_wires - i,
        {
            values.push(None);
            i = i + 1;
        }
        Witness { values }
    }

    /// The number of wires of the circuit that this witness was made for.
    pub fn len(&self) -> (n: usize)
        ensures
            n == self@.len(),
    {
        self.values.len()
    }

    /// The value bound to `wire`, if there is one.
    pub fn get_target(&self, wire: Wire) -> (r: Option<Felt>)
        ensures
            wire.index < self@.len() ==> slot_view(r) == self@[wire.index as int],
            wire.index >= self@.len() ==> r is None,
    {
        if wire.index < self.values.len() {
            self.values[wire.index]
        } else {
            None
        }
    }

    /// Binds `wire` to `value`.
    ///
    /// Binding a wire again to the value it already holds changes nothing and
    /// succeeds.  Binding it to a different value is a conflict, and a wire
    /// outside the circuit is unknown; either way the witness is left as it
    /// was.
    pub fn set_target(&mut self, wire: Wire, value: Felt) -> (r: Result<(), WitnessError>)
        ensures
            final(self)@.len() == old(self)@.len(),
            r is Ok <==> wire.index < old(self)@.len() && (old(self)@[wire.index as int] is None
                || old(self)@[wire.index as int] == Some(value@)),
            r is Ok ==> final(self)@ == old(self)@.update(wire.index as int, Some(value@)),
            r is Err ==> final(self)@ == old(self)@,
            r matches Err(e) ==> e == (if wire.index < old(self)@.len() {
                WitnessError::Conflict
            } else {
                WitnessError::UnknownWire
            }),
    {
        if wire.index >= self.values.len() {
            return Err(WitnessError::UnknownWire);
        }
        match self.values[wire.index] {
            Some(bound) => {
                if bound.equals(value) {
                    assert(self@ =~= old(self)@.update(wire.index as int, Some(value@)));
                    Ok(())
                } else {
                    Err(WitnessError::Conflict)
                }
            },
            None => {
                self.values.set(wire.index, Some(value));
                assert(self@ =~= old(self)@.update(wire.index as int, Some(value@)));
                Ok(())
            },
        }
    }

    /// Binds `wires[i]` to `values[i]` for every `i`, in order, and stops at
    /// the first binding that is refused.
    ///
    /// Refused with `ShapeMismatch`, before anything is bound, when there are
    /// not as many values as wires.
    pub fn set_targets(&mut self, wires: &Vec<Wire>, values: &Vec<Felt>) -> (r: Result<
        (),
        WitnessError,
    >)
        ensures
            final(self)@.len() == old(self)@.len(),
            wires@.len() != values@.len() ==> r == Err::<(), WitnessError>(
                WitnessError::ShapeMismatch,
            ) && final(self)@ == old(self)@,
            wires@.len() == values@.len() ==> {
                &&& final(self)@ == bind_each(old(self)@, wires@, felts_view(values@)).0
                &&& match bind_each(old(self)@, wires@, felts_view(values@)).1 {
                    Some(e) => r == Err::<(), WitnessError>(e),
                    None => r is Ok,
                }
            },
    {
        if wires.len() != values.len() {
            return Err(WitnessError::ShapeMismatch);
        }
        let ghost all = felts_view(values@);
        assert(wires@.skip(0) =~= wires@);
        assert(all.skip(0) =~= all);
        let mut i: usize = 0;
        while i < wires.len()
            invariant
                i <= wires@.len(),
                wires@.len() == values@.len(),
                all == felts_view(values@),
                self@.len() == old(self)@.len(),
                bind_each(old(self)@, wires@, all) == bind_each(
                    self@,
                    wires@.skip(i as int),
                    all.skip(i as int),
                ),
            decreases wires@.len() - i,
        {
            let ghost before = self@;
            assert(wires@.skip(i as int)[0] == wires@[i as int]);
            assert(all.skip(i as int)[0] == values@[i as int]@);
            assert(wires@.skip(i as int).skip(1) =~= wires@.skip(i + 1));
            assert(all.skip(i as int).skip(1) =~= all.skip(i + 1));
            match self.set_target(wires[i], values[i]) {
                Ok(()) => {},
                Err(e) => {
                    return Err(e);
                },
            }
            i = i + 1;
        }
        Ok(())
    }
}

} // verus!
