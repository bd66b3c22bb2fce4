//! The simulator capability contract.
//!
//! A simulator computes state evolution for a fixed set of gates, measures
//! and resets qubits, and may opt into postselection and state dumping. Every
//! implementation carries a mathematical model (its [`View`]) and a single
//! spec-level transition per capability; the executable methods are pinned to
//! those transitions, so a simulator's whole behaviour is a function of its
//! model.

use vstd::prelude::*;

use crate::errors::EmuError;
use crate::utils::MetricValue;

verus! {

/// A gate or reset request, as a simulator receives it. Angles are opaque
/// 64-bit encodings.
#[derive(Debug, Clone, Copy, PartialEq, Eq, Structural)]
pub enum GateOp {
    Rxy { qubit: u64, theta: u64, phi: u64 },
    Rz { qubit: u64, theta: u64 },
    Rzz { qubit_1: u64, qubit_2: u64, theta: u64 },
    Tk2 { qubit_1: u64, qubit_2: u64, alpha: u64, beta: u64, gamma: u64 },
    TwinRxy { qubit_1: u64, qubit_2: u64, theta: u64, phi: u64 },
    Rpp { qubit_1: u64, qubit_2: u64, theta: u64, phi: u64 },
    Reset { qubit: u64 },
}

impl GateOp {
    /// Whether every qubit id the request touches lies below `width`.
    pub open spec fn in_bounds(self, width: u64) -> bool {
        match self {
            GateOp::Rxy { qubit, .. } => qubit < width,
            GateOp::Rz { qubit, .. } => qubit < width,
            GateOp::Rzz { qubit_1, qubit_2, .. } => qubit_1 < width && qubit_2 < width,
            GateOp::Tk2 { qubit_1, qubit_2, .. } => qubit_1 < width && qubit_2 < width,
            GateOp::TwinRxy { qubit_1, qubit_2, .. } => qubit_1 < width && qubit_2 < width,
            GateOp::Rpp { qubit_1, qubit_2, .. } => qubit_1 < width && qubit_2 < width,
            GateOp::Reset { qubit } => qubit < width,
        }
    }
}

/// A simulator backend. Qubit indices are bounds-checked against the
/// allocated width: an out-of-range index fails `QubitOutOfBounds` and leaves
/// the state unchanged.
pub trait SimulatorInterface: View + Sized {
    /// Well-formedness of the running instance.
    spec fn inv(&self) -> bool;

    /// Well-formedness of a model.
    spec fn v_inv(m: Self::V) -> bool;

    /// The allocated width of a model: how many qubits it simulates.
    spec fn width_of(m: Self::V) -> u64;

    /// What a gate or reset request does to the model, or why it fails.
    spec fn gate_res(pre: Self::V, g: GateOp) -> Result<Self::V, EmuError>;

    /// What measuring a qubit does to the model and what it returns, or why
    /// it fails.
    spec fn measure_res(pre: Self::V, qubit: u64) -> Result<(Self::V, bool), EmuError>;

    /// What postselecting a qubit to a target value does to the model, or why
    /// it fails (`Unsupported` where the capability is opted out).
    spec fn postselect_res(pre: Self::V, qubit: u64, target: bool) -> Result<Self::V, EmuError>;

    /// What starting a shot does to the model, or why it fails.
    spec fn shot_start_res(pre: Self::V, shot_id: u64, seed: u64) -> Result<Self::V, EmuError>;

    /// What ending a shot does to the model, or why it fails.
    spec fn shot_end_res(pre: Self::V) -> Result<Self::V, EmuError>;

    /// The metric table: the name and value of the `nth` diagnostic, or
    /// `None` once the enumeration is exhausted.
    spec fn metric_res(pre: Self::V, nth_metric: u8) -> Option<(Seq<char>, MetricValue)>;

    /// What a state-dump request returns (`Unsupported` where the capability
    /// is opted out). The model never changes.
    spec fn dump_res(pre: Self::V) -> Result<(), EmuError>;

    /// What shutting the instance down returns. The model never changes.
    spec fn exit_res(pre: Self::V) -> Result<(), EmuError>;

    /// A well-formed instance has a well-formed model.
    proof fn lemma_inv_model(&self)
        requires
            self.inv(),
        ensures
            Self::v_inv(self@),
    ;

    /// Bounds rejection: any request naming a qubit id at or above the
    /// allocated width fails `QubitOutOfBounds`.
    proof fn lemma_bounds_rejection(pre: Self::V, g: GateOp, q: u64, target: bool)
        requires
            Self::v_inv(pre),
        ensures
            !g.in_bounds(Self::width_of(pre)) ==> Self::gate_res(pre, g) == Err::<
                Self::V,
                EmuError,
            >(EmuError::QubitOutOfBounds),
            q >= Self::width_of(pre) ==> Self::measure_res(pre, q) == Err::<
                (Self::V, bool),
                EmuError,
            >(EmuError::QubitOutOfBounds),
            q >= Self::width_of(pre) ==> Self::postselect_res(pre, q, target) == Err::<
                Self::V,
                EmuError,
            >(EmuError::QubitOutOfBounds),
    ;

    /// Gates and resets are total on in-range qubits: the request fails
    /// exactly when it names a qubit at or above the width.
    proof fn lemma_gate_total(pre: Self::V, g: GateOp)
        requires
            Self::v_inv(pre),
        ensures
            Self::gate_res(pre, g) is Ok <==> g.in_bounds(Self::width_of(pre)),
    ;

    /// No transition changes the allocated width, and every transition keeps
    /// the model well-formed.
    proof fn lemma_step_wf(pre: Self::V, g: GateOp, q: u64, target: bool, shot_id: u64, seed: u64)
        requires
            Self::v_inv(pre),
        ensures
            Self::gate_res(pre, g) matches Ok(m) ==> Self::width_of(m) == Self::width_of(pre)
                && Self::v_inv(m),
            Self::measure_res(pre, q) matches Ok((m, v)) ==> Self::width_of(m) == Self::width_of(
                pre,
            ) && Self::v_inv(m),
            Self::postselect_res(pre, q, target) matches Ok(m) ==> Self::width_of(m)
                == Self::width_of(pre) && Self::v_inv(m),
            Self::shot_start_res(pre, shot_id, seed) matches Ok(m) ==> Self::width_of(m)
                == Self::width_of(pre) && Self::v_inv(m),
            Self::shot_end_res(pre) matches Ok(m) ==> Self::width_of(m) == Self::width_of(pre)
                && Self::v_inv(m),
    ;

    /// The default decomposition law: a `TwinRxy` request behaves exactly as
    /// the `Rxy` request on the first qubit followed, on success, by the
    /// `Rxy` request on the second, with identical angles.
    proof fn lemma_twin_rxy_decomposition(pre: Self::V, q0: u64, q1: u64, theta: u64, phi: u64)
        requires
            Self::v_inv(pre),
        ensures
            Self::gate_res(pre, GateOp::TwinRxy { qubit_1: q0, qubit_2: q1, theta, phi }) == (
            match Self::gate_res(pre, GateOp::Rxy { qubit: q0, theta, phi }) {
                Ok(m0) => Self::gate_res(m0, GateOp::Rxy { qubit: q1, theta, phi }),
                Err(e) => Err(e),
            }),
    ;

    /// Prepare to begin a shot, seeding any randomness the simulator uses.
    fn shot_start(&mut self, shot_id: u64, seed: u64) -> (r: Result<(), EmuError>)
        requires
            old(self).inv(),
        ensures
            final(self).inv(),
            match Self::shot_start_res(old(self)@, shot_id, seed) {
                Ok(m) => r is Ok && final(self)@ == m,
                Err(e) => r == Err::<(), EmuError>(e) && final(self)@ == old(self)@,
            },
    ;

    /// End the current shot.
    fn shot_end(&mut self) -> (r: Result<(), EmuError>)
        requires
            old(self).inv(),
        ensures
            final(self).inv(),
            match Self::shot_end_res(old(self)@) {
                Ok(m) => r is Ok && final(self)@ == m,
                Err(e) => r == Err::<(), EmuError>(e) && final(self)@ == old(self)@,
            },
    ;

    /// Apply an RXY rotation (also known as phased-X) to a qubit.
    fn rxy(&mut self, qubit: u64, theta: u64, phi: u64) -> (r: Result<(), EmuError>)
        requires
            old(self).inv(),
        ensures
            final(self).inv(),
            match Self::gate_res(old(self)@, GateOp::Rxy { qubit, theta, phi }) {
                Ok(m) => r is Ok && final(self)@ == m,
                Err(e) => r == Err::<(), EmuError>(e) && final(self)@ == old(self)@,
            },
    ;

    /// Apply a Z rotation to a qubit.
    fn rz(&mut self, qubit: u64, theta: u64) -> (r: Result<(), EmuError>)
        requires
            old(self).inv(),
        ensures
            final(self).inv(),
            match Self::gate_res(old(self)@, GateOp::Rz { qubit, theta }) {
                Ok(m) => r is Ok && final(self)@ == m,
                Err(e) => r == Err::<(), EmuError>(e) && final(self)@ == old(self)@,
            },
    ;

    /// Apply a ZZ rotation between two qubits.
    fn rzz(&mut self, qubit_1: u64, qubit_2: u64, theta: u64) -> (r: Result<(), EmuError>)
        requires
            old(self).inv(),
        ensures
            final(self).inv(),
            match Self::gate_res(old(self)@, GateOp::Rzz { qubit_1, qubit_2, theta }) {
                Ok(m) => r is Ok && final(self)@ == m,
                Err(e) => r == Err::<(), EmuError>(e) && final(self)@ == old(self)@,
            },
    ;

    /// Apply a TK2 (general SU(4)) gate between two qubits.
    fn tk2(&mut self, qubit_1: u64, qubit_2: u64, alpha: u64, beta: u64, gamma: u64) -> (r: Result<
        (),
        EmuError,
    >)
        requires
            old(self).inv(),
        ensures
            final(self).inv(),
            match Self::gate_res(old(self)@, GateOp::Tk2 { qubit_1, qubit_2, alpha, beta, gamma }) {
                Ok(m) => r is Ok && final(self)@ == m,
                Err(e) => r == Err::<(), EmuError>(e) && final(self)@ == old(self)@,
            },
    ;

    /// Apply an RPP gate between two qubits.
    fn rpp(&mut self, qubit_1: u64, qubit_2: u64, theta: u64, phi: u64) -> (r: Result<
        (),
        EmuError,
    >)
        requires
            old(self).inv(),
        ensures
            final(self).inv(),
            match Self::gate_res(old(self)@, GateOp::Rpp { qubit_1, qubit_2, theta, phi }) {
                Ok(m) => r is Ok && final(self)@ == m,
                Err(e) => r == Err::<(), EmuError>(e) && final(self)@ == old(self)@,
            },
    ;

    /// Apply an RXY rotation to both qubits with identical angles. A
    /// simulator without direct support inherits the default decomposition
    /// into two independent RXY applications.
    fn twin_rxy(&mut self, qubit_1: u64, qubit_2: u64, theta: u64, phi: u64) -> (r: Result<
        (),
        EmuError,
    >)
        requires
            old(self).inv(),
        ensures
            final(self).inv(),
            match Self::gate_res(old(self)@, GateOp::TwinRxy { qubit_1, qubit_2, theta, phi }) {
                Ok(m) => r is Ok && final(self)@ == m,
                Err(e) => r == Err::<(), EmuError>(e) && final(self)@ == old(self)@,
            },
    ;

    /// Measure a qubit, collapsing it and returning the outcome.
    fn measure(&mut self, qubit: u64) -> (r: Result<bool, EmuError>)
        requires
            old(self).inv(),
        ensures
            final(self).inv(),
            match Self::measure_res(old(self)@, qubit) {
                Ok((m, v)) => r == Ok::<bool, EmuError>(v) && final(self)@ == m,
                Err(e) => r == Err::<bool, EmuError>(e) && final(self)@ == old(self)@,
            },
    ;

    /// Force a qubit's measured outcome to a target value; fails where that
    /// outcome has no probability, or where the capability is opted out.
    fn postselect(&mut self, qubit: u64, target: bool) -> (r: Result<(), EmuError>)
        requires
            old(self).inv(),
        ensures
            final(self).inv(),
            match Self::postselect_res(old(self)@, qubit, target) {
                Ok(m) => r is Ok && final(self)@ == m,
                Err(e) => r == Err::<(), EmuError>(e) && final(self)@ == old(self)@,
            },
    ;

    /// Reset a qubit to the zero state.
    fn reset(&mut self, qubit: u64) -> (r: Result<(), EmuError>)
        requires
            old(self).inv(),
        ensures
            final(self).inv(),
            match Self::gate_res(old(self)@, GateOp::Reset { qubit }) {
                Ok(m) => r is Ok && final(self)@ == m,
                Err(e) => r == Err::<(), EmuError>(e) && final(self)@ == old(self)@,
            },
    ;

    /// Dump the simulator's internal state for the given qubit ordering to
    /// the named artifact, where the capability is supported.
    fn dump_state(&mut self, path: &String, qubits: &Vec<u64>) -> (r: Result<(), EmuError>)
        requires
            old(self).inv(),
        ensures
            final(self).inv(),
            final(self)@ == old(self)@,
            r == Self::dump_res(old(self)@),
    ;

    /// Enumerate diagnostics: called with 0, 1, 2, ... until it yields
    /// nothing — exactly the model's metric table.
    fn get_metric(&mut self, nth_metric: u8) -> (r: Result<Option<(String, MetricValue)>, EmuError>)
        requires
            old(self).inv(),
        ensures
            final(self).inv(),
            final(self)@ == old(self)@,
            match (r, Self::metric_res(old(self)@, nth_metric)) {
                (Ok(Some((tag, v))), Some((stag, sv))) => tag@ == stag && v == sv,
                (Ok(None), None) => true,
                _ => false,
            },
    ;

    /// Signal that the instance should clean up; no call may follow.
    fn exit(&mut self) -> (r: Result<(), EmuError>)
        requires
            old(self).inv(),
        ensures
            final(self).inv(),
            final(self)@ == old(self)@,
            r == Self::exit_res(old(self)@),
    ;
}

/// The default decomposition, for a simulator without direct `TwinRxy`
/// support: two independent RXY applications with identical angles. By the
/// decomposition law this computes exactly what `twin_rxy` computes; the one
/// difference is that when the second application fails, the first stays
/// applied.
pub fn twin_rxy_via_decomposition<S: SimulatorInterface>(
    sim: &mut S,
    qubit_1: u64,
    qubit_2: u64,
    theta: u64,
    phi: u64,
) -> (r: Result<(), EmuError>)
    requires
        old(sim).inv(),
    ensures
        final(sim).inv(),
        match S::gate_res(old(sim)@, GateOp::TwinRxy { qubit_1, qubit_2, theta, phi }) {
            Ok(m) => r is Ok && final(sim)@ == m,
            Err(e) => r == Err::<(), EmuError>(e),
        },
{
    proof {
        sim.lemma_inv_model();
        S::lemma_twin_rxy_decomposition(old(sim)@, qubit_1, qubit_2, theta, phi);
    }
    sim.rxy(qubit_1, theta, phi)?;
    sim.rxy(qubit_2, theta, phi)
}

} // verus!
