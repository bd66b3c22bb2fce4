//! A leakage error model: each operation may spontaneously leak a qubit out
//! of the computational subspace, two-qubit interactions spread leakage, a
//! leaked qubit measures with a configured bias, and a leakage-detecting
//! measurement reports a leaked qubit as the out-of-subspace value 2. A reset
//! returns a qubit to the subspace.

use vstd::prelude::*;

use crate::batch_result::{BatchResult, BoolResult64, U64Result64};
use crate::error_model::ErrorModelInterface;
use crate::errors::EmuError;
use crate::ops::{measure_ids, measure_leaked_ids, BatchOperation, Operation};
use crate::rng::{pcg_draw, ShotRng};
use crate::simulator::{GateOp, SimulatorInterface};
use crate::utils::{bump, bumped, MetricValue};

verus! {

/// The mathematical model of the leakage error model over a wrapped
/// simulator model `W`.
#[verifier::ext_equal]
pub struct LeakageModel<W> {
    pub width: u64,
    /// The seed of the current shot's stream.
    pub seed: u64,
    /// How many words the current shot has drawn.
    pub drawn: nat,
    /// An operation leaks an unleaked qubit when the drawn word is below
    /// this threshold: the leak probability as a fraction of 2^64.
    pub p_leak: u64,
    /// A leaked qubit measures true when the drawn word is below this
    /// threshold: the measurement bias as a fraction of 2^64.
    pub leak_bias: u64,
    /// Which qubits are currently leaked.
    pub leaks: Seq<bool>,
    pub spontaneous_leaks: u64,
    pub interaction_leaks: u64,
    /// The inner simulator's model.
    pub sim: W,
}

impl<W> LeakageModel<W> {
    /// The model after possibly leaking one qubit: an already-leaked qubit
    /// is left alone and draws nothing; otherwise one word decides.
    pub open spec fn maybe_leak(self, q: u64) -> LeakageModel<W> {
        if self.leaks[q as int] {
            self
        } else if pcg_draw(self.seed, self.drawn) < self.p_leak {
            LeakageModel {
                drawn: self.drawn + 1,
                leaks: self.leaks.update(q as int, true),
                spontaneous_leaks: bumped(self.spontaneous_leaks),
                ..self
            }
        } else {
            LeakageModel { drawn: self.drawn + 1, ..self }
        }
    }

    /// The model after a two-qubit interaction spreads leakage: when exactly
    /// one of the two is leaked, both end up leaked.
    pub open spec fn spread(self, q1: u64, q2: u64) -> LeakageModel<W> {
        if self.leaks[q1 as int] != self.leaks[q2 as int] {
            LeakageModel {
                leaks: self.leaks.update(q1 as int, true).update(q2 as int, true),
                interaction_leaks: bumped(self.interaction_leaks),
                ..self
            }
        } else {
            self
        }
    }
}

/// What one operation does under the leakage model.
pub open spec fn leak_step<S: SimulatorInterface>(
    pre: LeakageModel<S::V>,
    bs: Seq<BoolResult64>,
    us: Seq<U64Result64>,
    op: Operation,
) -> Result<(LeakageModel<S::V>, Seq<BoolResult64>, Seq<U64Result64>), (LeakageModel<S::V>, EmuError)> {
    match op {
        Operation::Measure { qubit_id, result_id } => if qubit_id >= pre.width {
            Err((pre, EmuError::QubitOutOfBounds))
        } else if pre.leaks[qubit_id as int] {
            let v = pcg_draw(pre.seed, pre.drawn) < pre.leak_bias;
            Ok(
                (
                    LeakageModel { drawn: pre.drawn + 1, ..pre },
                    bs.push(BoolResult64 { result_id, value: v }),
                    us,
                ),
            )
        } else {
            match S::measure_res(pre.sim, qubit_id) {
                Ok((w, v)) => Ok(
                    (
                        LeakageModel { sim: w, ..pre },
                        bs.push(BoolResult64 { result_id, value: v }),
                        us,
                    ),
                ),
                Err(e) => Err((pre, e)),
            }
        },
        Operation::MeasureLeaked { qubit_id, result_id } => if qubit_id >= pre.width {
            Err((pre, EmuError::QubitOutOfBounds))
        } else if pre.leaks[qubit_id as int] {
            Ok((pre, bs, us.push(U64Result64 { result_id, value: 2 })))
        } else {
            match S::measure_res(pre.sim, qubit_id) {
                Ok((w, v)) => Ok(
                    (
                        LeakageModel { sim: w, ..pre },
                        bs,
                        us.push(
                            U64Result64 {
                                result_id,
                                value: if v {
                                    1
                                } else {
                                    0
                                },
                            },
                        ),
                    ),
                ),
                Err(e) => Err((pre, e)),
            }
        },
        Operation::Reset { qubit_id } => match S::gate_res(
            pre.sim,
            GateOp::Reset { qubit: qubit_id },
        ) {
            Ok(w) => if qubit_id < pre.width {
                Ok(
                    (
                        LeakageModel { sim: w, leaks: pre.leaks.update(qubit_id as int, false), ..pre },
                        bs,
                        us,
                    ),
                )
            } else {
                Err((LeakageModel { sim: w, ..pre }, EmuError::QubitOutOfBounds))
            },
            Err(e) => Err((pre, e)),
        },
        Operation::Custom { .. } => Ok((pre, bs, us)),
        Operation::RXYGate { qubit_id, theta, phi } => if qubit_id >= pre.width {
            Err((pre, EmuError::QubitOutOfBounds))
        } else {
            let m1 = pre.maybe_leak(qubit_id);
            match S::gate_res(m1.sim, GateOp::Rxy { qubit: qubit_id, theta, phi }) {
                Ok(w) => Ok((LeakageModel { sim: w, ..m1 }, bs, us)),
                Err(e) => Err((m1, e)),
            }
        },
        Operation::RZGate { qubit_id, theta } => if qubit_id >= pre.width {
            Err((pre, EmuError::QubitOutOfBounds))
        } else {
            let m1 = pre.maybe_leak(qubit_id);
            match S::gate_res(m1.sim, GateOp::Rz { qubit: qubit_id, theta }) {
                Ok(w) => Ok((LeakageModel { sim: w, ..m1 }, bs, us)),
                Err(e) => Err((m1, e)),
            }
        },
        Operation::RZZGate { qubit_id_1, qubit_id_2, theta } => if qubit_id_1 >= pre.width
            || qubit_id_2 >= pre.width {
            Err((pre, EmuError::QubitOutOfBounds))
        } else {
            let m1 = pre.maybe_leak(qubit_id_1).maybe_leak(qubit_id_2).spread(
                qubit_id_1,
                qubit_id_2,
            );
            match S::gate_res(
                m1.sim,
                GateOp::Rzz { qubit_1: qubit_id_1, qubit_2: qubit_id_2, theta },
            ) {
                Ok(w) => Ok((LeakageModel { sim: w, ..m1 }, bs, us)),
                Err(e) => Err((m1, e)),
            }
        },
        Operation::TK2Gate { qubit_id_1, qubit_id_2, alpha, beta, gamma } => if qubit_id_1
            >= pre.width || qubit_id_2 >= pre.width {
            Err((pre, EmuError::QubitOutOfBounds))
        } else {
            let m1 = pre.maybe_leak(qubit_id_1).maybe_leak(qubit_id_2).spread(
                qubit_id_1,
                qubit_id_2,
            );
            match S::gate_res(
                m1.sim,
                GateOp::Tk2 { qubit_1: qubit_id_1, qubit_2: qubit_id_2, alpha, beta, gamma },
            ) {
                Ok(w) => Ok((LeakageModel { sim: w, ..m1 }, bs, us)),
                Err(e) => Err((m1, e)),
            }
        },
        Operation::TwinRXYGate { qubit_id_1, qubit_id_2, theta, phi } => if qubit_id_1 >= pre.width
            || qubit_id_2 >= pre.width {
            Err((pre, EmuError::QubitOutOfBounds))
        } else {
            let m1 = pre.maybe_leak(qubit_id_1).maybe_leak(qubit_id_2).spread(
                qubit_id_1,
                qubit_id_2,
            );
            match S::gate_res(
                m1.sim,
                GateOp::TwinRxy { qubit_1: qubit_id_1, qubit_2: qubit_id_2, theta, phi },
            ) {
                Ok(w) => Ok((LeakageModel { sim: w, ..m1 }, bs, us)),
                Err(e) => Err((m1, e)),
            }
        },
        Operation::RPPGate { qubit_id_1, qubit_id_2, theta, phi } => if qubit_id_1 >= pre.width
            || qubit_id_2 >= pre.width {
            Err((pre, EmuError::QubitOutOfBounds))
        } else {
            let m1 = pre.maybe_leak(qubit_id_1).maybe_leak(qubit_id_2).spread(
                qubit_id_1,
                qubit_id_2,
            );
            match S::gate_res(
                m1.sim,
                GateOp::Rpp { qubit_1: qubit_id_1, qubit_2: qubit_id_2, theta, phi },
            ) {
                Ok(w) => Ok((LeakageModel { sim: w, ..m1 }, bs, us)),
                Err(e) => Err((m1, e)),
            }
        },
    }
}

/// What a whole batch does under the leakage model, operation by operation
/// in order, starting from empty result lists.
pub open spec fn leak_run<S: SimulatorInterface>(
    pre: LeakageModel<S::V>,
    ops: Seq<Operation>,
) -> Result<
    (LeakageModel<S::V>, Seq<BoolResult64>, Seq<U64Result64>),
    (LeakageModel<S::V>, EmuError),
>
    decreases ops.len(),
{
    if ops.len() == 0 {
        Ok((pre, Seq::empty(), Seq::empty()))
    } else {
        match leak_run::<S>(pre, ops.drop_last()) {
            Ok((w, bs, us)) => leak_step::<S>(w, bs, us, ops.last()),
            Err(t) => Err(t),
        }
    }
}

/// A failing prefix decides the whole run.
pub proof fn lemma_leak_run_err_prefix<S: SimulatorInterface>(
    pre: LeakageModel<S::V>,
    ops: Seq<Operation>,
    i: int,
)
    requires
        0 <= i <= ops.len(),
        leak_run::<S>(pre, ops.take(i)) is Err,
    ensures
        leak_run::<S>(pre, ops) == leak_run::<S>(pre, ops.take(i)),
    decreases ops.len(),
{
    if i == ops.len() {
        assert(ops.take(i) =~= ops);
    } else {
        assert(ops.drop_last().take(i) =~= ops.take(i));
        lemma_leak_run_err_prefix::<S>(pre, ops.drop_last(), i);
    }
}

/// Well-formedness of a leakage model: widths agree everywhere and the inner
/// simulator model is well-formed.
pub open spec fn leak_v_inv<S: SimulatorInterface>(m: LeakageModel<S::V>) -> bool {
    &&& S::v_inv(m.sim)
    &&& S::width_of(m.sim) == m.width
    &&& m.leaks.len() == m.width
}

/// A successful run yields exactly one boolean result per `Measure` and one
/// 64-bit result per `MeasureLeaked`, under the same handles and in the same
/// order, and keeps the model well-formed with its width unchanged.
pub proof fn lemma_leak_run_results<S: SimulatorInterface>(
    pre: LeakageModel<S::V>,
    ops: Seq<Operation>,
)
    requires
        leak_v_inv::<S>(pre),
    ensures
        leak_run::<S>(pre, ops) matches Ok((m, bs, us)) ==> {
            &&& bs.map_values(|e: BoolResult64| e.result_id) == measure_ids(ops)
            &&& us.map_values(|e: U64Result64| e.result_id) == measure_leaked_ids(ops)
            &&& leak_v_inv::<S>(m)
            &&& m.width == pre.width
        },
    decreases ops.len(),
{
    if ops.len() == 0 {
        assert(Seq::<BoolResult64>::empty().map_values(|e: BoolResult64| e.result_id)
            =~= Seq::<u64>::empty());
        assert(Seq::<U64Result64>::empty().map_values(|e: U64Result64| e.result_id)
            =~= Seq::<u64>::empty());
    } else {
        lemma_leak_run_results::<S>(pre, ops.drop_last());
        if let Ok((w, bs, us)) = leak_run::<S>(pre, ops.drop_last()) {
            let op = ops.last();
            let gq: u64 = match op {
                Operation::Measure { qubit_id, .. } => qubit_id,
                Operation::MeasureLeaked { qubit_id, .. } => qubit_id,
                Operation::Reset { qubit_id } => qubit_id,
                Operation::RXYGate { qubit_id, .. } => qubit_id,
                Operation::RZGate { qubit_id, .. } => qubit_id,
                _ => 0,
            };
            match op {
                Operation::Measure { qubit_id, result_id } => {
                    S::lemma_step_wf(
                        w.sim,
                        GateOp::Reset { qubit: qubit_id },
                        qubit_id,
                        false,
                        0,
                        0,
                    );
                    if let Ok((m, bs2, us2)) = leak_step::<S>(w, bs, us, op) {
                        assert(bs2.map_values(|e: BoolResult64| e.result_id) =~= bs.map_values(
                            |e: BoolResult64| e.result_id,
                        ).push(result_id));
                        assert(measure_ids(ops) =~= measure_ids(ops.drop_last()).push(result_id));
                        assert(measure_leaked_ids(ops) =~= measure_leaked_ids(ops.drop_last()));
                    }
                },
                Operation::MeasureLeaked { qubit_id, result_id } => {
                    S::lemma_step_wf(
                        w.sim,
                        GateOp::Reset { qubit: qubit_id },
                        qubit_id,
                        false,
                        0,
                        0,
                    );
                    if let Ok((m, bs2, us2)) = leak_step::<S>(w, bs, us, op) {
                        assert(us2.map_values(|e: U64Result64| e.result_id) =~= us.map_values(
                            |e: U64Result64| e.result_id,
                        ).push(result_id));
                        assert(measure_leaked_ids(ops) =~= measure_leaked_ids(
                            ops.drop_last(),
                        ).push(result_id));
                        assert(measure_ids(ops) =~= measure_ids(ops.drop_last()));
                    }
                },
                _ => {
                    let m1 = match op {
                        Operation::RXYGate { qubit_id, .. } => w.maybe_leak(qubit_id),
                        Operation::RZGate { qubit_id, .. } => w.maybe_leak(qubit_id),
                        Operation::RZZGate { qubit_id_1, qubit_id_2, .. } => w.maybe_leak(
                            qubit_id_1,
                        ).maybe_leak(qubit_id_2).spread(qubit_id_1, qubit_id_2),
                        Operation::TK2Gate { qubit_id_1, qubit_id_2, .. } => w.maybe_leak(
                            qubit_id_1,
                        ).maybe_leak(qubit_id_2).spread(qubit_id_1, qubit_id_2),
                        Operation::TwinRXYGate { qubit_id_1, qubit_id_2, .. } => w.maybe_leak(
                            qubit_id_1,
                        ).maybe_leak(qubit_id_2).spread(qubit_id_1, qubit_id_2),
                        Operation::RPPGate { qubit_id_1, qubit_id_2, .. } => w.maybe_leak(
                            qubit_id_1,
                        ).maybe_leak(qubit_id_2).spread(qubit_id_1, qubit_id_2),
                        _ => w,
                    };
                    S::lemma_step_wf(
                        m1.sim,
                        crate::error_model_ideal::gate_of(op),
                        gq,
                        false,
                        0,
                        0,
                    );
                    S::lemma_step_wf(w.sim, crate::error_model_ideal::gate_of(op), gq, false, 0, 0);
                    if let Ok((m, bs2, us2)) = leak_step::<S>(w, bs, us, op) {
                        assert(measure_ids(ops) =~= measure_ids(ops.drop_last()));
                        assert(measure_leaked_ids(ops) =~= measure_leaked_ids(ops.drop_last()));
                    }
                },
            }
        }
    }
}

/// The leakage error model.
pub struct SimpleLeakageErrorModel<S> {
    n_qubits: u64,
    rng: ShotRng,
    simulator: S,
    leak_register: Vec<bool>,
    p_leak: u64,
    leak_bias: u64,
    spontaneous_leaks: u64,
    interaction_leaks: u64,
}

impl<S: SimulatorInterface> View for SimpleLeakageErrorModel<S> {
    type V = LeakageModel<S::V>;

    closed spec fn view(&self) -> LeakageModel<S::V> {
        LeakageModel {
            width: self.n_qubits,
            seed: self.rng.seed(),
            drawn: self.rng.drawn(),
            p_leak: self.p_leak,
            leak_bias: self.leak_bias,
            leaks: self.leak_register@,
            spontaneous_leaks: self.spontaneous_leaks,
            interaction_leaks: self.interaction_leaks,
            sim: self.simulator@,
        }
    }
}

impl<S: SimulatorInterface> SimpleLeakageErrorModel<S> {
    /// Whether the qubit is currently leaked.
    fn is_leaked(&self, qubit: u64) -> (r: Result<bool, EmuError>)
        requires
            self.inv(),
        ensures
            qubit < self@.width ==> r == Ok::<bool, EmuError>(self@.leaks[qubit as int]),
            qubit >= self@.width ==> r == Err::<bool, EmuError>(EmuError::QubitOutOfBounds),
    {
        if qubit >= self.leak_register.len() as u64 {
            return Err(EmuError::QubitOutOfBounds);
        }
        Ok(self.leak_register[qubit as usize])
    }

    /// Possibly leak one qubit: an already-leaked qubit is left alone and
    /// draws nothing; otherwise one word of the shot's stream decides.
    fn maybe_leak(&mut self, qubit: u64) -> (r: Result<(), EmuError>)
        requires
            old(self).inv(),
        ensures
            final(self).inv(),
            qubit < old(self)@.width ==> r is Ok && final(self)@ == old(self)@.maybe_leak(qubit),
            qubit >= old(self)@.width ==> r == Err::<(), EmuError>(EmuError::QubitOutOfBounds)
                && final(self)@ == old(self)@,
    {
        if qubit >= self.leak_register.len() as u64 {
            return Err(EmuError::QubitOutOfBounds);
        }
        if self.leak_register[qubit as usize] {
            return Ok(());
        }
        if self.rng.bernoulli(self.p_leak) {
            self.leak_register.set(qubit as usize, true);
            self.spontaneous_leaks = bump(self.spontaneous_leaks);
        }
        Ok(())
    }

    /// Spread leakage across a two-qubit interaction: when exactly one of
    /// the two is leaked, both end up leaked.
    fn spread_leakage(&mut self, qubit_1: u64, qubit_2: u64) -> (r: Result<(), EmuError>)
        requires
            old(self).inv(),
            qubit_1 < old(self)@.width,
            qubit_2 < old(self)@.width,
        ensures
            final(self).inv(),
            r is Ok && final(self)@ == old(self)@.spread(qubit_1, qubit_2),
    {
        let n = self.leak_register.len();
        proof {
            assert(qubit_1 < n as u64 && qubit_2 < n as u64);
        }
        let l1 = self.leak_register[qubit_1 as usize];
        let l2 = self.leak_register[qubit_2 as usize];
        if l1 != l2 {
            self.leak_register.set(qubit_1 as usize, true);
            self.leak_register.set(qubit_2 as usize, true);
            self.interaction_leaks = bump(self.interaction_leaks);
        }
        Ok(())
    }
}

impl<S: SimulatorInterface> SimpleLeakageErrorModel<S> {
    /// Apply one operation of a batch: inject leakage, drive the inner
    /// simulator, and record any measurement result.
    #[verifier::rlimit(50)]
    fn apply_op(&mut self, op: &Operation, results: &mut BatchResult) -> (r: Result<(), EmuError>)
        requires
            old(self).inv(),
        ensures
            final(self).inv(),
            match leak_step::<S>(
                old(self)@,
                old(results).bool_results@,
                old(results).u64_results@,
                *op,
            ) {
                Ok((m, bs, us)) => r is Ok && final(self)@ == m && final(results).bool_results@
                    == bs && final(results).u64_results@ == us,
                Err((m, e)) => r == Err::<(), EmuError>(e) && final(self)@ == m && final(results).bool_results@ == old(results).bool_results@ && final(results).u64_results@ == old(
                    results,
                ).u64_results@,
            },
    {
        let width = self.leak_register.len() as u64;
        match op {
            Operation::Measure { qubit_id, result_id } => {
                if *qubit_id >= width {
                    Err(EmuError::QubitOutOfBounds)
                } else if self.leak_register[*qubit_id as usize] {
                    let v = self.rng.bernoulli(self.leak_bias);
                    results.set_bool_result(*result_id, v);
                    Ok(())
                } else {
                    proof {
                        self.simulator.lemma_inv_model();
                        S::lemma_step_wf(self.simulator@, GateOp::Reset { qubit: 0 }, *qubit_id, false, 0, 0);
                    }
                    match self.simulator.measure(*qubit_id) {
                        Ok(v) => {
                            results.set_bool_result(*result_id, v);
                            Ok(())
                        },
                        Err(e) => Err(e),
                    }
                }
            },
            Operation::MeasureLeaked { qubit_id, result_id } => {
                if *qubit_id >= width {
                    Err(EmuError::QubitOutOfBounds)
                } else if self.leak_register[*qubit_id as usize] {
                    results.set_u64_result(*result_id, 2);
                    Ok(())
                } else {
                    proof {
                        self.simulator.lemma_inv_model();
                        S::lemma_step_wf(self.simulator@, GateOp::Reset { qubit: 0 }, *qubit_id, false, 0, 0);
                    }
                    match self.simulator.measure(*qubit_id) {
                        Ok(v) => {
                            results.set_u64_result(
                                *result_id,
                                if v {
                                    1
                                } else {
                                    0
                                },
                            );
                            Ok(())
                        },
                        Err(e) => Err(e),
                    }
                }
            },
            Operation::Reset { qubit_id } => {
                proof {
                    self.simulator.lemma_inv_model();
                    S::lemma_step_wf(
                        self.simulator@,
                        GateOp::Reset { qubit: *qubit_id },
                        0,
                        false,
                        0,
                        0,
                    );
                }
                match self.simulator.reset(*qubit_id) {
                    Ok(()) => {
                        if *qubit_id < width {
                            self.leak_register.set(*qubit_id as usize, false);
                            Ok(())
                        } else {
                            Err(EmuError::QubitOutOfBounds)
                        }
                    },
                    Err(e) => Err(e),
                }
            },
            Operation::Custom { .. } => Ok(()),
            Operation::RXYGate { qubit_id, theta, phi } => {
                if *qubit_id >= width {
                    Err(EmuError::QubitOutOfBounds)
                } else {
                    match self.maybe_leak(*qubit_id) {
                        Ok(()) => {
                            proof {
                                self.simulator.lemma_inv_model();
                                S::lemma_step_wf(
                                    self.simulator@,
                                    GateOp::Rxy { qubit: *qubit_id, theta: *theta, phi: *phi },
                                    0,
                                    false,
                                    0,
                                    0,
                                );
                            }
                            self.simulator.rxy(*qubit_id, *theta, *phi)
                        },
                        Err(e) => Err(e),
                    }
                }
            },
            Operation::RZGate { qubit_id, theta } => {
                if *qubit_id >= width {
                    Err(EmuError::QubitOutOfBounds)
                } else {
                    match self.maybe_leak(*qubit_id) {
                        Ok(()) => {
                            proof {
                                self.simulator.lemma_inv_model();
                                S::lemma_step_wf(
                                    self.simulator@,
                                    GateOp::Rz { qubit: *qubit_id, theta: *theta },
                                    0,
                                    false,
                                    0,
                                    0,
                                );
                            }
                            self.simulator.rz(*qubit_id, *theta)
                        },
                        Err(e) => Err(e),
                    }
                }
            },
            Operation::RZZGate { qubit_id_1, qubit_id_2, theta } => {
                match self.two_qubit_noise(*qubit_id_1, *qubit_id_2) {
                    Ok(()) => {
                        proof {
                            self.simulator.lemma_inv_model();
                            S::lemma_step_wf(
                                self.simulator@,
                                GateOp::Rzz { qubit_1: *qubit_id_1, qubit_2: *qubit_id_2, theta: *theta },
                                0,
                                false,
                                0,
                                0,
                            );
                        }
                        self.simulator.rzz(*qubit_id_1, *qubit_id_2, *theta)
                    },
                    Err(e) => Err(e),
                }
            },
            Operation::TK2Gate { qubit_id_1, qubit_id_2, alpha, beta, gamma } => {
                match self.two_qubit_noise(*qubit_id_1, *qubit_id_2) {
                    Ok(()) => {
                        proof {
                            self.simulator.lemma_inv_model();
                            S::lemma_step_wf(
                                self.simulator@,
                                GateOp::Tk2 {
                                    qubit_1: *qubit_id_1,
                                    qubit_2: *qubit_id_2,
                                    alpha: *alpha,
                                    beta: *beta,
                                    gamma: *gamma,
                                },
                                0,
                                false,
                                0,
                                0,
                            );
                        }
                        self.simulator.tk2(*qubit_id_1, *qubit_id_2, *alpha, *beta, *gamma)
                    },
                    Err(e) => Err(e),
                }
            },
            Operation::TwinRXYGate { qubit_id_1, qubit_id_2, theta, phi } => {
                match self.two_qubit_noise(*qubit_id_1, *qubit_id_2) {
                    Ok(()) => {
                        proof {
                            self.simulator.lemma_inv_model();
                            S::lemma_step_wf(
                                self.simulator@,
                                GateOp::TwinRxy {
                                    qubit_1: *qubit_id_1,
                                    qubit_2: *qubit_id_2,
                                    theta: *theta,
                                    phi: *phi,
                                },
                                0,
                                false,
                                0,
                                0,
                            );
                        }
                        self.simulator.twin_rxy(*qubit_id_1, *qubit_id_2, *theta, *phi)
                    },
                    Err(e) => Err(e),
                }
            },
            Operation::RPPGate { qubit_id_1, qubit_id_2, theta, phi } => {
                match self.two_qubit_noise(*qubit_id_1, *qubit_id_2) {
                    Ok(()) => {
                        proof {
                            self.simulator.lemma_inv_model();
                            S::lemma_step_wf(
                                self.simulator@,
                                GateOp::Rpp {
                                    qubit_1: *qubit_id_1,
                                    qubit_2: *qubit_id_2,
                                    theta: *theta,
                                    phi: *phi,
                                },
                                0,
                                false,
                                0,
                                0,
                            );
                        }
                        self.simulator.rpp(*qubit_id_1, *qubit_id_2, *theta, *phi)
                    },
                    Err(e) => Err(e),
                }
            },
        }
    }

    /// The leakage a two-qubit interaction injects: each qubit may leak
    /// spontaneously, and leakage spreads across the pair.
    fn two_qubit_noise(&mut self, qubit_1: u64, qubit_2: u64) -> (r: Result<(), EmuError>)
        requires
            old(self).inv(),
        ensures
            final(self).inv(),
            (qubit_1 < old(self)@.width && qubit_2 < old(self)@.width) ==> r is Ok && final(self)@
                == old(self)@.maybe_leak(qubit_1).maybe_leak(qubit_2).spread(qubit_1, qubit_2),
            !(qubit_1 < old(self)@.width && qubit_2 < old(self)@.width) ==> r == Err::<
                (),
                EmuError,
            >(EmuError::QubitOutOfBounds) && final(self)@ == old(self)@,
    {
        if qubit_1 >= self.leak_register.len() as u64 || qubit_2 >= self.leak_register.len() as u64 {
            return Err(EmuError::QubitOutOfBounds);
        }
        self.maybe_leak(qubit_1)?;
        self.maybe_leak(qubit_2)?;
        self.spread_leakage(qubit_1, qubit_2)
    }
}

impl<S: SimulatorInterface> SimpleLeakageErrorModel<S> {
    /// The metric table: the spontaneous-leak count, then the
    /// interaction-leak count.
    pub fn metric_entry(&self, nth_metric: u8) -> (r: Option<(String, MetricValue)>)
        ensures
            r is None <==> nth_metric >= 2,
            nth_metric == 0 ==> (r matches Some((tag, value)) && tag@ == "spontaneous_leaks"@
                && value == MetricValue::U64(self@.spontaneous_leaks)),
            nth_metric == 1 ==> (r matches Some((tag, value)) && tag@ == "interaction_leaks"@
                && value == MetricValue::U64(self@.interaction_leaks)),
    {
        match nth_metric {
            0u8 => Some(("spontaneous_leaks".to_owned(), MetricValue::U64(self.spontaneous_leaks))),
            1u8 => Some(("interaction_leaks".to_owned(), MetricValue::U64(self.interaction_leaks))),
            _ => None,
        }
    }
}

impl<S: SimulatorInterface> ErrorModelInterface for SimpleLeakageErrorModel<S> {
    closed spec fn inv(&self) -> bool {
        self.simulator.inv() && Self::v_inv(self@)
    }

    open spec fn v_inv(m: LeakageModel<S::V>) -> bool {
        leak_v_inv::<S>(m)
    }

    open spec fn width_of(m: LeakageModel<S::V>) -> u64 {
        m.width
    }

    open spec fn handle_res(pre: LeakageModel<S::V>, ops: Seq<Operation>) -> Result<
        (LeakageModel<S::V>, Seq<BoolResult64>, Seq<U64Result64>),
        (LeakageModel<S::V>, EmuError),
    > {
        leak_run::<S>(pre, ops)
    }

    open spec fn shot_start_res(
        pre: LeakageModel<S::V>,
        shot_id: u64,
        seed: u64,
        simulator_seed: u64,
    ) -> Result<LeakageModel<S::V>, EmuError> {
        match S::shot_start_res(pre.sim, shot_id, simulator_seed) {
            Ok(w) => Ok(
                LeakageModel {
                    seed,
                    drawn: 0,
                    leaks: Seq::new(pre.width as nat, |i: int| false),
                    spontaneous_leaks: 0,
                    interaction_leaks: 0,
                    sim: w,
                    ..pre
                },
            ),
            Err(e) => Err(e),
        }
    }

    open spec fn shot_end_res(pre: LeakageModel<S::V>) -> Result<LeakageModel<S::V>, EmuError> {
        match S::shot_end_res(pre.sim) {
            Ok(w) => Ok(LeakageModel { sim: w, ..pre }),
            Err(e) => Err(e),
        }
    }

    open spec fn metric_res(pre: LeakageModel<S::V>, nth_metric: u8) -> Option<
        (Seq<char>, MetricValue),
    > {
        if nth_metric == 0 {
            Some(("spontaneous_leaks"@, MetricValue::U64(pre.spontaneous_leaks)))
        } else if nth_metric == 1 {
            Some(("interaction_leaks"@, MetricValue::U64(pre.interaction_leaks)))
        } else {
            None
        }
    }

    open spec fn sim_metric_res(pre: LeakageModel<S::V>, nth_metric: u8) -> Option<
        (Seq<char>, MetricValue),
    > {
        S::metric_res(pre.sim, nth_metric)
    }

    open spec fn dump_res(pre: LeakageModel<S::V>) -> Result<(), EmuError> {
        S::dump_res(pre.sim)
    }

    open spec fn exit_res(pre: LeakageModel<S::V>) -> Result<(), EmuError> {
        S::exit_res(pre.sim)
    }

    proof fn lemma_inv_model(&self) {
    }

    proof fn lemma_results_match(pre: LeakageModel<S::V>, ops: Seq<Operation>) {
        lemma_leak_run_results::<S>(pre, ops);
    }

    proof fn lemma_shot_wf(pre: LeakageModel<S::V>, shot_id: u64, seed: u64, simulator_seed: u64) {
        S::lemma_step_wf(pre.sim, GateOp::Reset { qubit: 0 }, 0, false, shot_id, simulator_seed);
    }

    fn handle_operations(&mut self, operations: BatchOperation) -> (r: Result<
        BatchResult,
        EmuError,
    >) {
        let ghost pre0 = old(self)@;
        let ghost all_ops = operations.ops_spec();
        let ops = operations.into_ops();
        let mut results = BatchResult::new();
        let mut i: usize = 0;
        while i < ops.len()
            invariant
                i <= ops.len(),
                ops@ == all_ops,
                pre0 == old(self)@,
                all_ops == operations.ops_spec(),
                self.inv(),
                leak_run::<S>(pre0, all_ops.take(i as int)) == Ok::<
                    (LeakageModel<S::V>, Seq<BoolResult64>, Seq<U64Result64>),
                    (LeakageModel<S::V>, EmuError),
                >((self@, results.bool_results@, results.u64_results@)),
            decreases ops.len() - i,
        {
            let ghost w_pre = self@;
            let ghost bs_pre = results.bool_results@;
            let ghost us_pre = results.u64_results@;
            proof {
                assert(all_ops.take(i + 1).drop_last() =~= all_ops.take(i as int));
                assert(all_ops.take(i + 1).last() == all_ops[i as int]);
            }
            let step_result: Result<(), EmuError> = self.apply_op(&ops[i], &mut results);
            match step_result {
                Ok(()) => {
                    proof {
                        assert(leak_step::<S>(w_pre, bs_pre, us_pre, all_ops[i as int]) == Ok::<
                            (LeakageModel<S::V>, Seq<BoolResult64>, Seq<U64Result64>),
                            (LeakageModel<S::V>, EmuError),
                        >((self@, results.bool_results@, results.u64_results@)));
                    }
                },
                Err(e) => {
                    proof {
                        assert(leak_run::<S>(pre0, all_ops.take(i + 1)) == Err::<
                            (LeakageModel<S::V>, Seq<BoolResult64>, Seq<U64Result64>),
                            (LeakageModel<S::V>, EmuError),
                        >((self@, e)));
                        lemma_leak_run_err_prefix::<S>(pre0, all_ops, i + 1);
                    }
                    return Err(e);
                },
            }
            i = i + 1;
        }
        proof {
            assert(all_ops.take(ops@.len() as int) =~= all_ops);
        }
        Ok(results)
    }

    fn shot_start(&mut self, shot_id: u64, seed: u64, simulator_seed: u64) -> (r: Result<
        (),
        EmuError,
    >) {
        proof {
            S::lemma_step_wf(
                self.simulator@,
                GateOp::Reset { qubit: 0 },
                0,
                false,
                shot_id,
                simulator_seed,
            );
        }
        let width = self.leak_register.len();
        self.simulator.shot_start(shot_id, simulator_seed)?;
        self.rng = ShotRng::from_seed(seed);
        let mut reg: Vec<bool> = Vec::new();
        let mut i: usize = 0;
        while i < width
            invariant
                i <= width,
                reg@ =~= Seq::new(i as nat, |k: int| false),
            decreases width - i,
        {
            reg.push(false);
            i = i + 1;
        }
        self.leak_register = reg;
        self.spontaneous_leaks = 0;
        self.interaction_leaks = 0;
        Ok(())
    }

    fn shot_end(&mut self) -> (r: Result<(), EmuError>) {
        proof {
            S::lemma_step_wf(self.simulator@, GateOp::Reset { qubit: 0 }, 0, false, 0, 0);
        }
        self.simulator.shot_end()
    }

    fn get_metric(&mut self, nth_metric: u8) -> (r: Result<
        Option<(String, MetricValue)>,
        EmuError,
    >) {
        Ok(self.metric_entry(nth_metric))
    }

    fn get_simulator_metric(&mut self, nth_metric: u8) -> (r: Result<
        Option<(String, MetricValue)>,
        EmuError,
    >) {
        self.simulator.get_metric(nth_metric)
    }

    fn dump_simulator_state(&mut self, path: &String, qubits: &Vec<u64>) -> (r: Result<
        (),
        EmuError,
    >) {
        self.simulator.dump_state(path, qubits)
    }

    fn exit(&mut self) -> (r: Result<(), EmuError>) {
        self.simulator.exit()
    }
}

/// Build the leakage error model around an inner simulator. `p_leak` and
/// `leak_bias` are probabilities as fractions of 2^64.
pub struct SimpleLeakageErrorModelFactory;

impl SimpleLeakageErrorModelFactory {
    pub fn init<S: SimulatorInterface>(
        n_qubits: u64,
        p_leak: u64,
        leak_bias: u64,
        simulator: S,
    ) -> (r: SimpleLeakageErrorModel<S>)
        requires
            simulator.inv(),
            S::width_of(simulator@) == n_qubits,
            n_qubits <= usize::MAX,
        ensures
            r@ == (LeakageModel {
                width: n_qubits,
                seed: 0,
                drawn: 0,
                p_leak,
                leak_bias,
                leaks: Seq::new(n_qubits as nat, |i: int| false),
                spontaneous_leaks: 0,
                interaction_leaks: 0,
                sim: simulator@,
            }),
            r.inv(),
    {
        let ghost sim_model = simulator@;
        proof {
            simulator.lemma_inv_model();
        }
        let width = n_qubits as usize;
        let mut reg: Vec<bool> = Vec::new();
        let mut i: usize = 0;
        while i < width
            invariant
                i <= width,
                reg@ =~= Seq::new(i as nat, |k: int| false),
            decreases width - i,
        {
            reg.push(false);
            i = i + 1;
        }
        let r = SimpleLeakageErrorModel {
            n_qubits,
            rng: ShotRng::from_seed(0),
            simulator,
            leak_register: reg,
            p_leak,
            leak_bias,
            spontaneous_leaks: 0,
            interaction_leaks: 0,
        };
        proof {
            assert(r@ =~= (LeakageModel {
                width: n_qubits,
                seed: 0,
                drawn: 0,
                p_leak,
                leak_bias,
                leaks: Seq::new(n_qubits as nat, |i: int| false),
                spontaneous_leaks: 0,
                interaction_leaks: 0,
                sim: sim_model,
            }));
        }
        r
    }
}

} // verus!
