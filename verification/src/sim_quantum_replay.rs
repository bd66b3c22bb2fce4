//! A simulator that replays a recorded run on top of a real simulator:
//! gates are forwarded, and each measurement postselects the wrapped
//! simulator to the next recorded outcome. Once the recorded outcomes of a
//! shot are consumed, further measurements either fall through to real
//! measurement or fail, as configured.

use vstd::prelude::*;

use crate::errors::EmuError;
use crate::simulator::{GateOp, SimulatorInterface};
use crate::utils::{bump, bumped, MetricValue};

verus! {

/// The mathematical model of a quantum replay simulator over a wrapped
/// simulator model `W`.
pub struct QuantumReplayModel<W> {
    pub width: u64,
    /// Whether measurements after the recorded outcomes are real
    /// measurements (`true`) or failures (`false`).
    pub resume_with_measurement: bool,
    pub current_shot: u64,
    /// How many of the current shot's recorded outcomes have been consumed.
    pub next_index: nat,
    /// How many real measurements have been performed after the recording.
    pub measurements_performed: u64,
    /// The recorded outcomes of the current shot.
    pub current: Seq<bool>,
    /// The recorded outcomes of every shot.
    pub all: Seq<Seq<bool>>,
    /// The wrapped simulator's model.
    pub wrapped: W,
}

/// A simulator that drives a wrapped simulator with postselection from a
/// recorded outcome list, one list per shot.
pub struct QuantumReplaySimulator<S> {
    wrapped: S,
    n_qubits: u64,
    resume_with_measurement: bool,
    current_shot: u64,
    next_postselection_index: usize,
    measurements_performed: u64,
    current_shot_postselections: Vec<bool>,
    all_shot_postselections: Vec<Vec<bool>>,
}

impl<S: SimulatorInterface> View for QuantumReplaySimulator<S> {
    type V = QuantumReplayModel<S::V>;

    closed spec fn view(&self) -> QuantumReplayModel<S::V> {
        QuantumReplayModel {
            width: self.n_qubits,
            resume_with_measurement: self.resume_with_measurement,
            current_shot: self.current_shot,
            next_index: self.next_postselection_index as nat,
            measurements_performed: self.measurements_performed,
            current: self.current_shot_postselections@,
            all: self.all_shot_postselections@.map_values(|v: Vec<bool>| v@),
            wrapped: self.wrapped@,
        }
    }
}

/// Copy a recorded outcome list.
fn copy_outcomes(v: &Vec<bool>) -> (r: Vec<bool>)
    ensures
        r@ == v@,
{
    let mut r: Vec<bool> = Vec::new();
    let mut i: usize = 0;
    while i < v.len()
        invariant
            i <= v.len(),
            r@ == v@.take(i as int),
        decreases v.len() - i,
    {
        r.push(v[i]);
        i = i + 1;
        proof {
            assert(v@.take(i as int) == v@.take(i - 1).push(v@[i - 1]));
        }
    }
    proof {
        assert(v@.take(v@.len() as int) == v@);
    }
    r
}

impl<S: SimulatorInterface> SimulatorInterface for QuantumReplaySimulator<S> {
    closed spec fn inv(&self) -> bool {
        self.wrapped.inv() && S::width_of(self.wrapped@) == self.n_qubits
    }

    open spec fn v_inv(m: QuantumReplayModel<S::V>) -> bool {
        S::v_inv(m.wrapped) && S::width_of(m.wrapped) == m.width
    }

    open spec fn width_of(m: QuantumReplayModel<S::V>) -> u64 {
        m.width
    }

    open spec fn gate_res(pre: QuantumReplayModel<S::V>, g: GateOp) -> Result<
        QuantumReplayModel<S::V>,
        EmuError,
    > {
        if !g.in_bounds(pre.width) {
            Err(EmuError::QubitOutOfBounds)
        } else {
            match S::gate_res(pre.wrapped, g) {
                Ok(w) => Ok(QuantumReplayModel { wrapped: w, ..pre }),
                Err(e) => Err(e),
            }
        }
    }

    open spec fn measure_res(pre: QuantumReplayModel<S::V>, qubit: u64) -> Result<
        (QuantumReplayModel<S::V>, bool),
        EmuError,
    > {
        if qubit >= pre.width {
            Err(EmuError::QubitOutOfBounds)
        } else if pre.next_index < pre.current.len() {
            let target = pre.current[pre.next_index as int];
            match S::postselect_res(pre.wrapped, qubit, target) {
                Ok(w) => Ok(
                    (
                        QuantumReplayModel { next_index: pre.next_index + 1, wrapped: w, ..pre },
                        target,
                    ),
                ),
                Err(e) => Err(e),
            }
        } else if pre.resume_with_measurement {
            match S::measure_res(pre.wrapped, qubit) {
                Ok((w, v)) => Ok(
                    (
                        QuantumReplayModel {
                            measurements_performed: bumped(pre.measurements_performed),
                            wrapped: w,
                            ..pre
                        },
                        v,
                    ),
                ),
                Err(e) => Err(e),
            }
        } else {
            Err(EmuError::MeasurementsExhausted)
        }
    }

    open spec fn postselect_res(pre: QuantumReplayModel<S::V>, qubit: u64, target: bool) -> Result<
        QuantumReplayModel<S::V>,
        EmuError,
    > {
        if qubit >= pre.width {
            Err(EmuError::QubitOutOfBounds)
        } else {
            match S::postselect_res(pre.wrapped, qubit, target) {
                Ok(w) => Ok(QuantumReplayModel { wrapped: w, ..pre }),
                Err(e) => Err(e),
            }
        }
    }

    open spec fn shot_start_res(pre: QuantumReplayModel<S::V>, shot_id: u64, seed: u64) -> Result<
        QuantumReplayModel<S::V>,
        EmuError,
    > {
        if shot_id >= pre.all.len() {
            Err(EmuError::ShotOutOfRange)
        } else {
            match S::shot_start_res(pre.wrapped, shot_id, seed) {
                Ok(w) => Ok(
                    QuantumReplayModel {
                        current_shot: shot_id,
                        next_index: 0,
                        measurements_performed: 0,
                        current: pre.all[shot_id as int],
                        wrapped: w,
                        ..pre
                    },
                ),
                Err(e) => Err(e),
            }
        }
    }

    open spec fn shot_end_res(pre: QuantumReplayModel<S::V>) -> Result<
        QuantumReplayModel<S::V>,
        EmuError,
    > {
        if pre.next_index < pre.current.len() {
            Err(EmuError::UnconsumedMeasurements)
        } else {
            match S::shot_end_res(pre.wrapped) {
                Ok(w) => Ok(
                    QuantumReplayModel {
                        next_index: 0,
                        measurements_performed: 0,
                        current: Seq::empty(),
                        wrapped: w,
                        ..pre
                    },
                ),
                Err(e) => Err(e),
            }
        }
    }

    open spec fn metric_res(pre: QuantumReplayModel<S::V>, nth_metric: u8) -> Option<
        (Seq<char>, MetricValue),
    > {
        if nth_metric == 0 {
            Some(("postselections_performed"@, MetricValue::U64(pre.next_index as u64)))
        } else if nth_metric == 1 {
            Some(("measurements_performed"@, MetricValue::U64(pre.measurements_performed)))
        } else {
            S::metric_res(pre.wrapped, (nth_metric - 2) as u8)
        }
    }

    open spec fn dump_res(pre: QuantumReplayModel<S::V>) -> Result<(), EmuError> {
        S::dump_res(pre.wrapped)
    }

    open spec fn exit_res(pre: QuantumReplayModel<S::V>) -> Result<(), EmuError> {
        S::exit_res(pre.wrapped)
    }

    proof fn lemma_inv_model(&self) {
        self.wrapped.lemma_inv_model();
    }

    proof fn lemma_bounds_rejection(
        pre: QuantumReplayModel<S::V>,
        g: GateOp,
        q: u64,
        target: bool,
    ) {
    }

    proof fn lemma_gate_total(pre: QuantumReplayModel<S::V>, g: GateOp) {
        S::lemma_gate_total(pre.wrapped, g);
    }

    proof fn lemma_step_wf(
        pre: QuantumReplayModel<S::V>,
        g: GateOp,
        q: u64,
        target: bool,
        shot_id: u64,
        seed: u64,
    ) {
        S::lemma_step_wf(pre.wrapped, g, q, target, shot_id, seed);
        if pre.next_index < pre.current.len() {
            S::lemma_step_wf(
                pre.wrapped,
                g,
                q,
                pre.current[pre.next_index as int],
                shot_id,
                seed,
            );
        }
    }

    proof fn lemma_twin_rxy_decomposition(
        pre: QuantumReplayModel<S::V>,
        q0: u64,
        q1: u64,
        theta: u64,
        phi: u64,
    ) {
        let rxy0 = GateOp::Rxy { qubit: q0, theta, phi };
        let rxy1 = GateOp::Rxy { qubit: q1, theta, phi };
        S::lemma_twin_rxy_decomposition(pre.wrapped, q0, q1, theta, phi);
        S::lemma_gate_total(pre.wrapped, rxy0);
        if q0 < pre.width {
            match S::gate_res(pre.wrapped, rxy0) {
                Ok(w0) => {
                    S::lemma_step_wf(pre.wrapped, rxy0, q0, false, 0, 0);
                    S::lemma_gate_total(w0, rxy1);
                },
                Err(e) => {
                },
            }
        }
    }

    fn shot_start(&mut self, shot_id: u64, seed: u64) -> (r: Result<(), EmuError>) {
        if shot_id >= self.all_shot_postselections.len() as u64 {
            return Err(EmuError::ShotOutOfRange);
        }
        proof {
            self.wrapped.lemma_inv_model();
            S::lemma_step_wf(
                self.wrapped@,
                GateOp::Reset { qubit: 0 },
                0,
                false,
                shot_id,
                seed,
            );
        }
        self.wrapped.shot_start(shot_id, seed)?;
        self.current_shot = shot_id;
        self.current_shot_postselections = copy_outcomes(
            &self.all_shot_postselections[shot_id as usize],
        );
        self.next_postselection_index = 0;
        self.measurements_performed = 0;
        Ok(())
    }

    fn shot_end(&mut self) -> (r: Result<(), EmuError>) {
        if self.next_postselection_index < self.current_shot_postselections.len() {
            return Err(EmuError::UnconsumedMeasurements);
        }
        proof {
            self.wrapped.lemma_inv_model();
            S::lemma_step_wf(self.wrapped@, GateOp::Reset { qubit: 0 }, 0, false, 0, 0);
        }
        self.wrapped.shot_end()?;
        self.current_shot_postselections = Vec::new();
        self.next_postselection_index = 0;
        self.measurements_performed = 0;
        Ok(())
    }

    fn rxy(&mut self, qubit: u64, theta: u64, phi: u64) -> (r: Result<(), EmuError>) {
        if qubit >= self.n_qubits {
            return Err(EmuError::QubitOutOfBounds);
        }
        proof {
            self.wrapped.lemma_inv_model();
            S::lemma_step_wf(self.wrapped@, GateOp::Rxy { qubit, theta, phi }, 0, false, 0, 0);
        }
        self.wrapped.rxy(qubit, theta, phi)
    }

    fn rz(&mut self, qubit: u64, theta: u64) -> (r: Result<(), EmuError>) {
        if qubit >= self.n_qubits {
            return Err(EmuError::QubitOutOfBounds);
        }
        proof {
            self.wrapped.lemma_inv_model();
            S::lemma_step_wf(self.wrapped@, GateOp::Rz { qubit, theta }, 0, false, 0, 0);
        }
        self.wrapped.rz(qubit, theta)
    }

    fn rzz(&mut self, qubit_1: u64, qubit_2: u64, theta: u64) -> (r: Result<(), EmuError>) {
        if qubit_1 >= self.n_qubits || qubit_2 >= self.n_qubits {
            return Err(EmuError::QubitOutOfBounds);
        }
        proof {
            self.wrapped.lemma_inv_model();
            S::lemma_step_wf(self.wrapped@, GateOp::Rzz { qubit_1, qubit_2, theta }, 0, false, 0, 0);
        }
        self.wrapped.rzz(qubit_1, qubit_2, theta)
    }

    fn tk2(&mut self, qubit_1: u64, qubit_2: u64, alpha: u64, beta: u64, gamma: u64) -> (r: Result<
        (),
        EmuError,
    >) {
        if qubit_1 >= self.n_qubits || qubit_2 >= self.n_qubits {
            return Err(EmuError::QubitOutOfBounds);
        }
        proof {
            self.wrapped.lemma_inv_model();
            S::lemma_step_wf(self.wrapped@, GateOp::Tk2 { qubit_1, qubit_2, alpha, beta, gamma }, 0, false, 0, 0);
        }
        self.wrapped.tk2(qubit_1, qubit_2, alpha, beta, gamma)
    }

    fn rpp(&mut self, qubit_1: u64, qubit_2: u64, theta: u64, phi: u64) -> (r: Result<
        (),
        EmuError,
    >) {
        if qubit_1 >= self.n_qubits || qubit_2 >= self.n_qubits {
            return Err(EmuError::QubitOutOfBounds);
        }
        proof {
            self.wrapped.lemma_inv_model();
            S::lemma_step_wf(self.wrapped@, GateOp::Rpp { qubit_1, qubit_2, theta, phi }, 0, false, 0, 0);
        }
        self.wrapped.rpp(qubit_1, qubit_2, theta, phi)
    }

    fn twin_rxy(&mut self, qubit_1: u64, qubit_2: u64, theta: u64, phi: u64) -> (r: Result<
        (),
        EmuError,
    >) {
        if qubit_1 >= self.n_qubits || qubit_2 >= self.n_qubits {
            return Err(EmuError::QubitOutOfBounds);
        }
        proof {
            self.wrapped.lemma_inv_model();
            S::lemma_step_wf(self.wrapped@, GateOp::TwinRxy { qubit_1, qubit_2, theta, phi }, 0, false, 0, 0);
        }
        self.wrapped.twin_rxy(qubit_1, qubit_2, theta, phi)
    }

    fn measure(&mut self, qubit: u64) -> (r: Result<bool, EmuError>) {
        if qubit >= self.n_qubits {
            return Err(EmuError::QubitOutOfBounds);
        }
        if self.next_postselection_index < self.current_shot_postselections.len() {
            let target = self.current_shot_postselections[self.next_postselection_index];
            proof {
                self.wrapped.lemma_inv_model();
                S::lemma_step_wf(self.wrapped@, GateOp::Reset { qubit: 0 }, qubit, target, 0, 0);
            }
            self.wrapped.postselect(qubit, target)?;
            self.next_postselection_index = self.next_postselection_index + 1;
            Ok(target)
        } else if self.resume_with_measurement {
            proof {
                self.wrapped.lemma_inv_model();
                S::lemma_step_wf(self.wrapped@, GateOp::Reset { qubit: 0 }, qubit, false, 0, 0);
            }
            let v = self.wrapped.measure(qubit)?;
            self.measurements_performed = bump(self.measurements_performed);
            Ok(v)
        } else {
            Err(EmuError::MeasurementsExhausted)
        }
    }

    fn postselect(&mut self, qubit: u64, target: bool) -> (r: Result<(), EmuError>) {
        proof {
            self.wrapped.lemma_inv_model();
            S::lemma_step_wf(self.wrapped@, GateOp::Reset { qubit: 0 }, qubit, target, 0, 0);
        }
        if qubit >= self.n_qubits {
            return Err(EmuError::QubitOutOfBounds);
        }
        self.wrapped.postselect(qubit, target)
    }

    fn reset(&mut self, qubit: u64) -> (r: Result<(), EmuError>) {
        if qubit >= self.n_qubits {
            return Err(EmuError::QubitOutOfBounds);
        }
        proof {
            self.wrapped.lemma_inv_model();
            S::lemma_step_wf(self.wrapped@, GateOp::Reset { qubit }, 0, false, 0, 0);
        }
        self.wrapped.reset(qubit)
    }

    fn dump_state(&mut self, path: &String, qubits: &Vec<u64>) -> (r: Result<(), EmuError>) {
        self.wrapped.dump_state(path, qubits)
    }

    fn get_metric(&mut self, nth_metric: u8) -> (r: Result<
        Option<(String, MetricValue)>,
        EmuError,
    >) {
        match nth_metric {
            0u8 => Ok(
                Some(
                    (
                        "postselections_performed".to_string(),
                        MetricValue::U64(self.next_postselection_index as u64),
                    ),
                ),
            ),
            1u8 => Ok(
                Some(
                    (
                        "measurements_performed".to_string(),
                        MetricValue::U64(self.measurements_performed),
                    ),
                ),
            ),
            n => self.wrapped.get_metric(n - 2),
        }
    }

    fn exit(&mut self) -> (r: Result<(), EmuError>) {
        self.wrapped.exit()
    }
}

/// Build a quantum replay simulator over `n_qubits` qubits that drives
/// `wrapped` with postselection from the recorded outcomes of every shot.
pub struct QuantumReplaySimulatorFactory;

impl QuantumReplaySimulatorFactory {
    pub fn init<S: SimulatorInterface>(
        n_qubits: u64,
        wrapped: S,
        measurements: Vec<Vec<bool>>,
        resume_with_measurement: bool,
    ) -> (r: QuantumReplaySimulator<S>)
        requires
            wrapped.inv(),
            S::width_of(wrapped@) == n_qubits,
        ensures
            r@ == (QuantumReplayModel {
                width: n_qubits,
                resume_with_measurement,
                current_shot: 0,
                next_index: 0,
                measurements_performed: 0,
                current: Seq::empty(),
                all: measurements@.map_values(|v: Vec<bool>| v@),
                wrapped: wrapped@,
            }),
            r.inv(),
    {
        QuantumReplaySimulator {
            wrapped,
            n_qubits,
            resume_with_measurement,
            current_shot: 0,
            next_postselection_index: 0,
            measurements_performed: 0,
            current_shot_postselections: Vec::new(),
            all_shot_postselections: measurements,
        }
    }
}

} // verus!
