//! A simulator that replays a recorded run: gates are ignored and each
//! measurement yields the next recorded outcome of the current shot.

use vstd::prelude::*;

use crate::errors::EmuError;
use crate::simulator::{GateOp, SimulatorInterface};
use crate::utils::MetricValue;

verus! {

/// The mathematical model of a classical replay simulator.
pub struct ClassicalReplayModel {
    pub width: u64,
    pub current_shot: u64,
    /// How many of the current shot's recorded outcomes have been consumed.
    pub next_index: nat,
    /// The recorded outcomes of the current shot.
    pub current: Seq<bool>,
    /// The recorded outcomes of every shot.
    pub all: Seq<Seq<bool>>,
}

/// A simulator that answers measurements from a recorded outcome list, one
/// list per shot.
pub struct ClassicalReplaySimulator {
    n_qubits: u64,
    current_shot: u64,
    next_measurement_index: usize,
    current_shot_measurements: Vec<bool>,
    all_shot_measurements: Vec<Vec<bool>>,
}

impl View for ClassicalReplaySimulator {
    type V = ClassicalReplayModel;

    closed spec fn view(&self) -> ClassicalReplayModel {
        ClassicalReplayModel {
            width: self.n_qubits,
            current_shot: self.current_shot,
            next_index: self.next_measurement_index as nat,
            current: self.current_shot_measurements@,
            all: self.all_shot_measurements@.map_values(|v: Vec<bool>| v@),
        }
    }
}

/// Copy a recorded outcome list.
fn copy_outcomes(v: &Vec<bool>) -> (r: Vec<bool>)
    ensures
        r@ == v@,
{
    let mut r: Vec<bool> = Vec::new();
    let mut i: usize = 0;
    while i < v.len()
        invariant
            i <= v.len(),
            r@ == v@.take(i as int),
        decreases v.len() - i,
    {
        r.push(v[i]);
        i = i + 1;
        proof {
            assert(v@.take(i as int) == v@.take(i - 1).push(v@[i - 1]));
        }
    }
    proof {
        assert(v@.take(v@.len() as int) == v@);
    }
    r
}

impl ClassicalReplaySimulator {
    /// The metric table: how many recorded outcomes the current shot has
    /// consumed.
    pub fn metric_entry(&self, nth_metric: u8) -> (r: Option<(String, MetricValue)>)
        ensures
            r is None <==> nth_metric >= 1,
            nth_metric == 0 ==> (r matches Some((tag, value)) && tag@ == "measurements_performed"@
                && value == MetricValue::U64(self@.next_index as u64)),
    {
        match nth_metric {
            0u8 => Some(
                (
                    "measurements_performed".to_owned(),
                    MetricValue::U64(self.next_measurement_index as u64),
                ),
            ),
            _ => None,
        }
    }
}

impl SimulatorInterface for ClassicalReplaySimulator {
    open spec fn inv(&self) -> bool {
        self@.next_index <= self@.current.len()
    }

    open spec fn v_inv(m: ClassicalReplayModel) -> bool {
        true
    }

    open spec fn width_of(m: ClassicalReplayModel) -> u64 {
        m.width
    }

    open spec fn gate_res(pre: ClassicalReplayModel, g: GateOp) -> Result<
        ClassicalReplayModel,
        EmuError,
    > {
        if g.in_bounds(pre.width) {
            Ok(pre)
        } else {
            Err(EmuError::QubitOutOfBounds)
        }
    }

    open spec fn measure_res(pre: ClassicalReplayModel, qubit: u64) -> Result<
        (ClassicalReplayModel, bool),
        EmuError,
    > {
        if qubit >= pre.width {
            Err(EmuError::QubitOutOfBounds)
        } else if pre.next_index < pre.current.len() {
            Ok(
                (
                    ClassicalReplayModel { next_index: pre.next_index + 1, ..pre },
                    pre.current[pre.next_index as int],
                ),
            )
        } else {
            Err(EmuError::MeasurementsExhausted)
        }
    }

    open spec fn postselect_res(pre: ClassicalReplayModel, qubit: u64, target: bool) -> Result<
        ClassicalReplayModel,
        EmuError,
    > {
        if qubit >= pre.width {
            Err(EmuError::QubitOutOfBounds)
        } else {
            Err(EmuError::Unsupported)
        }
    }

    open spec fn shot_start_res(pre: ClassicalReplayModel, shot_id: u64, seed: u64) -> Result<
        ClassicalReplayModel,
        EmuError,
    > {
        if shot_id < pre.all.len() {
            Ok(
                ClassicalReplayModel {
                    current_shot: shot_id,
                    next_index: 0,
                    current: pre.all[shot_id as int],
                    ..pre
                },
            )
        } else {
            Err(EmuError::ShotOutOfRange)
        }
    }

    open spec fn shot_end_res(pre: ClassicalReplayModel) -> Result<
        ClassicalReplayModel,
        EmuError,
    > {
        if pre.next_index < pre.current.len() {
            Err(EmuError::UnconsumedMeasurements)
        } else {
            Ok(ClassicalReplayModel { next_index: 0, current: Seq::empty(), ..pre })
        }
    }

    open spec fn metric_res(pre: ClassicalReplayModel, nth_metric: u8) -> Option<
        (Seq<char>, MetricValue),
    > {
        if nth_metric == 0 {
            Some(("measurements_performed"@, MetricValue::U64(pre.next_index as u64)))
        } else {
            None
        }
    }

    open spec fn dump_res(pre: ClassicalReplayModel) -> Result<(), EmuError> {
        Err(EmuError::Unsupported)
    }

    open spec fn exit_res(pre: ClassicalReplayModel) -> Result<(), EmuError> {
        Ok(())
    }

    proof fn lemma_inv_model(&self) {
    }

    proof fn lemma_bounds_rejection(pre: ClassicalReplayModel, g: GateOp, q: u64, target: bool) {
    }

    proof fn lemma_gate_total(pre: ClassicalReplayModel, g: GateOp) {
    }

    proof fn lemma_step_wf(
        pre: ClassicalReplayModel,
        g: GateOp,
        q: u64,
        target: bool,
        shot_id: u64,
        seed: u64,
    ) {
    }

    proof fn lemma_twin_rxy_decomposition(
        pre: ClassicalReplayModel,
        q0: u64,
        q1: u64,
        theta: u64,
        phi: u64,
    ) {
    }

    fn shot_start(&mut self, shot_id: u64, seed: u64) -> (r: Result<(), EmuError>) {
        if shot_id >= self.all_shot_measurements.len() as u64 {
            return Err(EmuError::ShotOutOfRange);
        }
        self.current_shot = shot_id;
        self.current_shot_measurements = copy_outcomes(
            &self.all_shot_measurements[shot_id as usize],
        );
        self.next_measurement_index = 0;
        Ok(())
    }

    fn shot_end(&mut self) -> (r: Result<(), EmuError>) {
        if self.next_measurement_index < self.current_shot_measurements.len() {
            return Err(EmuError::UnconsumedMeasurements);
        }
        self.current_shot_measurements = Vec::new();
        self.next_measurement_index = 0;
        Ok(())
    }

    fn rxy(&mut self, qubit: u64, theta: u64, phi: u64) -> (r: Result<(), EmuError>) {
        if qubit < self.n_qubits {
            Ok(())
        } else {
            Err(EmuError::QubitOutOfBounds)
        }
    }

    fn rz(&mut self, qubit: u64, theta: u64) -> (r: Result<(), EmuError>) {
        if qubit < self.n_qubits {
            Ok(())
        } else {
            Err(EmuError::QubitOutOfBounds)
        }
    }

    fn rzz(&mut self, qubit_1: u64, qubit_2: u64, theta: u64) -> (r: Result<(), EmuError>) {
        if qubit_1 < self.n_qubits && qubit_2 < self.n_qubits {
            Ok(())
        } else {
            Err(EmuError::QubitOutOfBounds)
        }
    }

    fn tk2(&mut self, qubit_1: u64, qubit_2: u64, alpha: u64, beta: u64, gamma: u64) -> (r: Result<
        (),
        EmuError,
    >) {
        if qubit_1 < self.n_qubits && qubit_2 < self.n_qubits {
            Ok(())
        } else {
            Err(EmuError::QubitOutOfBounds)
        }
    }

    fn rpp(&mut self, qubit_1: u64, qubit_2: u64, theta: u64, phi: u64) -> (r: Result<
        (),
        EmuError,
    >) {
        if qubit_1 < self.n_qubits && qubit_2 < self.n_qubits {
            Ok(())
        } else {
            Err(EmuError::QubitOutOfBounds)
        }
    }

    fn twin_rxy(&mut self, qubit_1: u64, qubit_2: u64, theta: u64, phi: u64) -> (r: Result<
        (),
        EmuError,
    >) {
        if qubit_1 < self.n_qubits && qubit_2 < self.n_qubits {
            Ok(())
        } else {
            Err(EmuError::QubitOutOfBounds)
        }
    }

    fn measure(&mut self, qubit: u64) -> (r: Result<bool, EmuError>) {
        if qubit >= self.n_qubits {
            Err(EmuError::QubitOutOfBounds)
        } else if self.next_measurement_index < self.current_shot_measurements.len() {
            let measurement = self.current_shot_measurements[self.next_measurement_index];
            self.next_measurement_index = self.next_measurement_index + 1;
            Ok(measurement)
        } else {
            Err(EmuError::MeasurementsExhausted)
        }
    }

    fn postselect(&mut self, qubit: u64, target: bool) -> (r: Result<(), EmuError>) {
        if qubit >= self.n_qubits {
            Err(EmuError::QubitOutOfBounds)
        } else {
            Err(EmuError::Unsupported)
        }
    }

    fn reset(&mut self, qubit: u64) -> (r: Result<(), EmuError>) {
        if qubit < self.n_qubits {
            Ok(())
        } else {
            Err(EmuError::QubitOutOfBounds)
        }
    }

    fn dump_state(&mut self, path: &String, qubits: &Vec<u64>) -> (r: Result<(), EmuError>) {
        Err(EmuError::Unsupported)
    }

    fn get_metric(&mut self, nth_metric: u8) -> (r: Result<
        Option<(String, MetricValue)>,
        EmuError,
    >) {
        Ok(self.metric_entry(nth_metric))
    }

    fn exit(&mut self) -> (r: Result<(), EmuError>) {
        Ok(())
    }
}

/// Build a classical replay simulator over `n_qubits` qubits from the
/// recorded outcomes of every shot.
pub struct ClassicalReplaySimulatorFactory;

impl ClassicalReplaySimulatorFactory {
    pub fn init(n_qubits: u64, measurements: Vec<Vec<bool>>) -> (r: ClassicalReplaySimulator)
        ensures
            r@ == (ClassicalReplayModel {
                width: n_qubits,
                current_shot: 0,
                next_index: 0,
                current: Seq::empty(),
                all: measurements@.map_values(|v: Vec<bool>| v@),
            }),
            r.inv(),
    {
        ClassicalReplaySimulator {
            n_qubits,
            current_shot: 0,
            next_measurement_index: 0,
            current_shot_measurements: Vec::new(),
            all_shot_measurements: measurements,
        }
    }
}

} // verus!
