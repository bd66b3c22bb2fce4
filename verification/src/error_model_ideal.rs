//! The ideal error model: it injects no noise, forwarding every operation of
//! a batch unmodified to the inner simulator and collecting one result per
//! measurement.

use vstd::prelude::*;

use crate::batch_result::{BatchResult, BoolResult64, U64Result64};
use crate::error_model::ErrorModelInterface;
use crate::errors::EmuError;
use crate::ops::{measure_ids, measure_leaked_ids, BatchOperation, Operation};
use crate::simulator::{GateOp, SimulatorInterface};
use crate::utils::MetricValue;

verus! {

/// The rotation or reset request an operation forwards to the simulator,
/// for the operations that are plain gates or resets.
pub open spec fn gate_of(op: Operation) -> GateOp {
    match op {
        Operation::RXYGate { qubit_id, theta, phi } => GateOp::Rxy { qubit: qubit_id, theta, phi },
        Operation::RZGate { qubit_id, theta } => GateOp::Rz { qubit: qubit_id, theta },
        Operation::RZZGate { qubit_id_1, qubit_id_2, theta } => GateOp::Rzz {
            qubit_1: qubit_id_1,
            qubit_2: qubit_id_2,
            theta,
        },
        Operation::TK2Gate { qubit_id_1, qubit_id_2, alpha, beta, gamma } => GateOp::Tk2 {
            qubit_1: qubit_id_1,
            qubit_2: qubit_id_2,
            alpha,
            beta,
            gamma,
        },
        Operation::TwinRXYGate { qubit_id_1, qubit_id_2, theta, phi } => GateOp::TwinRxy {
            qubit_1: qubit_id_1,
            qubit_2: qubit_id_2,
            theta,
            phi,
        },
        Operation::RPPGate { qubit_id_1, qubit_id_2, theta, phi } => GateOp::Rpp {
            qubit_1: qubit_id_1,
            qubit_2: qubit_id_2,
            theta,
            phi,
        },
        Operation::Reset { qubit_id } => GateOp::Reset { qubit: qubit_id },
        _ => GateOp::Reset { qubit: 0 },
    }
}

/// What one operation does under the ideal model: gates forward, `Measure`
/// yields a boolean result, `MeasureLeaked` yields a 64-bit result in
/// {0, 1} (no leakage is modelled), and `Custom` is ignored.
pub open spec fn ideal_step<S: SimulatorInterface>(
    pre: S::V,
    bs: Seq<BoolResult64>,
    us: Seq<U64Result64>,
    op: Operation,
) -> Result<(S::V, Seq<BoolResult64>, Seq<U64Result64>), (S::V, EmuError)> {
    match op {
        Operation::Measure { qubit_id, result_id } => match S::measure_res(pre, qubit_id) {
            Ok((w, v)) => Ok((w, bs.push(BoolResult64 { result_id, value: v }), us)),
            Err(e) => Err((pre, e)),
        },
        Operation::MeasureLeaked { qubit_id, result_id } => match S::measure_res(pre, qubit_id) {
            Ok((w, v)) => Ok(
                (
                    w,
                    bs,
                    us.push(
                        U64Result64 {
                            result_id,
                            value: if v {
                                1
                            } else {
                                0
                            },
                        },
                    ),
                ),
            ),
            Err(e) => Err((pre, e)),
        },
        Operation::Custom { .. } => Ok((pre, bs, us)),
        _ => match S::gate_res(pre, gate_of(op)) {
            Ok(w) => Ok((w, bs, us)),
            Err(e) => Err((pre, e)),
        },
    }
}

/// What a whole batch does under the ideal model, operation by operation in
/// order, starting from empty result lists.
pub open spec fn ideal_run<S: SimulatorInterface>(pre: S::V, ops: Seq<Operation>) -> Result<
    (S::V, Seq<BoolResult64>, Seq<U64Result64>),
    (S::V, EmuError),
>
    decreases ops.len(),
{
    if ops.len() == 0 {
        Ok((pre, Seq::empty(), Seq::empty()))
    } else {
        match ideal_run::<S>(pre, ops.drop_last()) {
            Ok((w, bs, us)) => ideal_step::<S>(w, bs, us, ops.last()),
            Err(t) => Err(t),
        }
    }
}

/// A failing prefix decides the whole run: once some operation fails, the
/// batch fails with that error.
pub proof fn lemma_ideal_run_err_prefix<S: SimulatorInterface>(pre: S::V, ops: Seq<Operation>, i: int)
    requires
        0 <= i <= ops.len(),
        ideal_run::<S>(pre, ops.take(i)) is Err,
    ensures
        ideal_run::<S>(pre, ops) == ideal_run::<S>(pre, ops.take(i)),
    decreases ops.len(),
{
    if i == ops.len() {
        assert(ops.take(i) =~= ops);
    } else {
        assert(ops.drop_last().take(i) =~= ops.take(i));
        lemma_ideal_run_err_prefix::<S>(pre, ops.drop_last(), i);
    }
}

/// A successful run yields exactly one boolean result per `Measure` and one
/// 64-bit result per `MeasureLeaked`, under the same handles and in the same
/// order, and keeps the simulator model well-formed with its width
/// unchanged.
pub proof fn lemma_ideal_run_results<S: SimulatorInterface>(pre: S::V, ops: Seq<Operation>)
    requires
        S::v_inv(pre),
    ensures
        ideal_run::<S>(pre, ops) matches Ok((m, bs, us)) ==> {
            &&& bs.map_values(|e: BoolResult64| e.result_id) == measure_ids(ops)
            &&& us.map_values(|e: U64Result64| e.result_id) == measure_leaked_ids(ops)
            &&& S::v_inv(m)
            &&& S::width_of(m) == S::width_of(pre)
        },
    decreases ops.len(),
{
    if ops.len() == 0 {
        assert(Seq::<BoolResult64>::empty().map_values(|e: BoolResult64| e.result_id)
            =~= Seq::<u64>::empty());
        assert(Seq::<U64Result64>::empty().map_values(|e: U64Result64| e.result_id)
            =~= Seq::<u64>::empty());
    } else {
        lemma_ideal_run_results::<S>(pre, ops.drop_last());
        if let Ok((w, bs, us)) = ideal_run::<S>(pre, ops.drop_last()) {
            let op = ops.last();
            match op {
                Operation::Measure { qubit_id, result_id } => {
                    S::lemma_step_wf(w, gate_of(op), qubit_id, false, 0, 0);
                    if let Ok((w2, v)) = S::measure_res(w, qubit_id) {
                        assert(bs.push(BoolResult64 { result_id, value: v }).map_values(
                            |e: BoolResult64| e.result_id,
                        ) =~= bs.map_values(|e: BoolResult64| e.result_id).push(result_id));
                        assert(measure_ids(ops) == measure_ids(ops.drop_last()) + seq![result_id]);
                        assert(measure_leaked_ids(ops) == measure_leaked_ids(ops.drop_last())
                            + Seq::<u64>::empty());
                        assert(measure_ids(ops.drop_last()).push(result_id) =~= measure_ids(
                            ops.drop_last(),
                        ) + seq![result_id]);
                        assert(measure_leaked_ids(ops.drop_last()) + Seq::<u64>::empty()
                            =~= measure_leaked_ids(ops.drop_last()));
                    }
                },
                Operation::MeasureLeaked { qubit_id, result_id } => {
                    S::lemma_step_wf(w, gate_of(op), qubit_id, false, 0, 0);
                    if let Ok((w2, v)) = S::measure_res(w, qubit_id) {
                        assert(us.push(
                            U64Result64 {
                                result_id,
                                value: if v {
                                    1
                                } else {
                                    0
                                },
                            },
                        ).map_values(|e: U64Result64| e.result_id) =~= us.map_values(
                            |e: U64Result64| e.result_id,
                        ).push(result_id));
                        assert(measure_leaked_ids(ops) == measure_leaked_ids(ops.drop_last())
                            + seq![result_id]);
                        assert(measure_leaked_ids(ops.drop_last()).push(result_id)
                            =~= measure_leaked_ids(ops.drop_last()) + seq![result_id]);
                        assert(measure_ids(ops) == measure_ids(ops.drop_last())
                            + Seq::<u64>::empty());
                        assert(measure_ids(ops.drop_last()) + Seq::<u64>::empty() =~= measure_ids(
                            ops.drop_last(),
                        ));
                    }
                },
                Operation::Custom { .. } => {
                    assert(measure_ids(ops) =~= measure_ids(ops.drop_last()));
                    assert(measure_leaked_ids(ops) =~= measure_leaked_ids(ops.drop_last()));
                },
                _ => {
                    S::lemma_step_wf(w, gate_of(op), 0, false, 0, 0);
                    assert(measure_ids(ops) =~= measure_ids(ops.drop_last()));
                    assert(measure_leaked_ids(ops) =~= measure_leaked_ids(ops.drop_last()));
                },
            }
        }
    }
}

/// The error model that injects no noise: every operation reaches the inner
/// simulator unmodified.
pub struct IdealErrorModel<S> {
    simulator: S,
}

impl<S: SimulatorInterface> View for IdealErrorModel<S> {
    type V = S::V;

    closed spec fn view(&self) -> S::V {
        self.simulator@
    }
}

impl<S: SimulatorInterface> ErrorModelInterface for IdealErrorModel<S> {
    closed spec fn inv(&self) -> bool {
        self.simulator.inv()
    }

    open spec fn v_inv(m: S::V) -> bool {
        S::v_inv(m)
    }

    open spec fn width_of(m: S::V) -> u64 {
        S::width_of(m)
    }

    open spec fn handle_res(pre: S::V, ops: Seq<Operation>) -> Result<
        (S::V, Seq<BoolResult64>, Seq<U64Result64>),
        (S::V, EmuError),
    > {
        ideal_run::<S>(pre, ops)
    }

    open spec fn shot_start_res(pre: S::V, shot_id: u64, seed: u64, simulator_seed: u64) -> Result<
        S::V,
        EmuError,
    > {
        S::shot_start_res(pre, shot_id, simulator_seed)
    }

    open spec fn shot_end_res(pre: S::V) -> Result<S::V, EmuError> {
        S::shot_end_res(pre)
    }

    open spec fn metric_res(pre: S::V, nth_metric: u8) -> Option<(Seq<char>, MetricValue)> {
        None
    }

    open spec fn sim_metric_res(pre: S::V, nth_metric: u8) -> Option<(Seq<char>, MetricValue)> {
        S::metric_res(pre, nth_metric)
    }

    open spec fn dump_res(pre: S::V) -> Result<(), EmuError> {
        S::dump_res(pre)
    }

    open spec fn exit_res(pre: S::V) -> Result<(), EmuError> {
        S::exit_res(pre)
    }

    proof fn lemma_inv_model(&self) {
        self.simulator.lemma_inv_model();
    }

    proof fn lemma_results_match(pre: S::V, ops: Seq<Operation>) {
        lemma_ideal_run_results::<S>(pre, ops);
    }

    proof fn lemma_shot_wf(pre: S::V, shot_id: u64, seed: u64, simulator_seed: u64) {
        S::lemma_step_wf(pre, GateOp::Reset { qubit: 0 }, 0, false, shot_id, simulator_seed);
    }

    fn handle_operations(&mut self, operations: BatchOperation) -> (r: Result<
        BatchResult,
        EmuError,
    >) {
        let ghost pre0 = old(self)@;
        let ghost all_ops = operations.ops_spec();
        proof {
            self.simulator.lemma_inv_model();
        }
        let ops = operations.into_ops();
        let mut results = BatchResult::new();
        let mut i: usize = 0;
        while i < ops.len()
            invariant
                i <= ops.len(),
                ops@ == all_ops,
                pre0 == old(self)@,
                all_ops == operations.ops_spec(),
                self.simulator.inv(),
                ideal_run::<S>(pre0, all_ops.take(i as int)) == Ok::<
                    (S::V, Seq<BoolResult64>, Seq<U64Result64>),
                    (S::V, EmuError),
                >((self.simulator@, results.bool_results@, results.u64_results@)),
            decreases ops.len() - i,
        {
            let ghost w_pre = self.simulator@;
            let ghost bs_pre = results.bool_results@;
            let ghost us_pre = results.u64_results@;
            proof {
                assert(all_ops.take(i + 1).drop_last() =~= all_ops.take(i as int));
                assert(all_ops.take(i + 1).last() == all_ops[i as int]);
            }
            let step_result: Result<(), EmuError> = match &ops[i] {
                Operation::Measure { qubit_id, result_id } => {
                    match self.simulator.measure(*qubit_id) {
                        Ok(v) => {
                            results.set_bool_result(*result_id, v);
                            Ok(())
                        },
                        Err(e) => Err(e),
                    }
                },
                Operation::MeasureLeaked { qubit_id, result_id } => {
                    match self.simulator.measure(*qubit_id) {
                        Ok(v) => {
                            results.set_u64_result(
                                *result_id,
                                if v {
                                    1
                                } else {
                                    0
                                },
                            );
                            Ok(())
                        },
                        Err(e) => Err(e),
                    }
                },
                Operation::Custom { .. } => Ok(()),
                Operation::RXYGate { qubit_id, theta, phi } => self.simulator.rxy(
                    *qubit_id,
                    *theta,
                    *phi,
                ),
                Operation::RZGate { qubit_id, theta } => self.simulator.rz(*qubit_id, *theta),
                Operation::RZZGate { qubit_id_1, qubit_id_2, theta } => self.simulator.rzz(
                    *qubit_id_1,
                    *qubit_id_2,
                    *theta,
                ),
                Operation::TK2Gate { qubit_id_1, qubit_id_2, alpha, beta, gamma } => self
                    .simulator
                    .tk2(*qubit_id_1, *qubit_id_2, *alpha, *beta, *gamma),
                Operation::TwinRXYGate { qubit_id_1, qubit_id_2, theta, phi } => self
                    .simulator
                    .twin_rxy(*qubit_id_1, *qubit_id_2, *theta, *phi),
                Operation::RPPGate { qubit_id_1, qubit_id_2, theta, phi } => self.simulator.rpp(
                    *qubit_id_1,
                    *qubit_id_2,
                    *theta,
                    *phi,
                ),
                Operation::Reset { qubit_id } => self.simulator.reset(*qubit_id),
            };
            match step_result {
                Ok(()) => {
                    proof {
                        assert(ideal_step::<S>(w_pre, bs_pre, us_pre, all_ops[i as int]) == Ok::<
                            (S::V, Seq<BoolResult64>, Seq<U64Result64>),
                            (S::V, EmuError),
                        >((self.simulator@, results.bool_results@, results.u64_results@)));
                    }
                },
                Err(e) => {
                    proof {
                        assert(ideal_run::<S>(pre0, all_ops.take(i + 1)) == Err::<
                            (S::V, Seq<BoolResult64>, Seq<U64Result64>),
                            (S::V, EmuError),
                        >((self@, e)));
                        lemma_ideal_run_err_prefix::<S>(pre0, all_ops, i + 1);
                    }
                    return Err(e);
                },
            }
            i = i + 1;
        }
        proof {
            assert(all_ops.take(ops@.len() as int) =~= all_ops);
        }
        Ok(results)
    }

    fn shot_start(&mut self, shot_id: u64, seed: u64, simulator_seed: u64) -> (r: Result<
        (),
        EmuError,
    >) {
        self.simulator.shot_start(shot_id, simulator_seed)
    }

    fn shot_end(&mut self) -> (r: Result<(), EmuError>) {
        self.simulator.shot_end()
    }

    fn get_metric(&mut self, nth_metric: u8) -> (r: Result<
        Option<(String, MetricValue)>,
        EmuError,
    >) {
        Ok(None)
    }

    fn get_simulator_metric(&mut self, nth_metric: u8) -> (r: Result<
        Option<(String, MetricValue)>,
        EmuError,
    >) {
        self.simulator.get_metric(nth_metric)
    }

    fn dump_simulator_state(&mut self, path: &String, qubits: &Vec<u64>) -> (r: Result<
        (),
        EmuError,
    >) {
        self.simulator.dump_state(path, qubits)
    }

    fn exit(&mut self) -> (r: Result<(), EmuError>) {
        self.simulator.exit()
    }
}

/// Build the ideal error model around an inner simulator.
pub struct IdealErrorModelFactory;

impl IdealErrorModelFactory {
    pub fn init<S: SimulatorInterface>(simulator: S) -> (r: IdealErrorModel<S>)
        requires
            simulator.inv(),
        ensures
            r@ == simulator@,
            r.inv(),
    {
        IdealErrorModel { simulator }
    }
}

} // verus!
