//! A depolarizing error model: every gate may inject a random Pauli error on
//! the qubits it touches, every measurement outcome may flip, and every reset
//! may leave the qubit flipped. Errors are realized as extra RXY and RZ
//! applications on the inner simulator, and per-shot statistics count what
//! was injected.

use vstd::prelude::*;

use crate::batch_result::{BatchResult, BoolResult64, U64Result64};
use crate::error_model::ErrorModelInterface;
use crate::errors::EmuError;
use crate::ops::{measure_ids, measure_leaked_ids, BatchOperation, Operation};
use crate::rng::{pcg_draw, ShotRng};
use crate::simulator::{GateOp, SimulatorInterface};
use crate::utils::{bump, bumped, MetricValue};

verus! {

/// The bit pattern of the rotation angle used to realize a Pauli error.
pub const PAULI_ANGLE: u64 = 0x400921FB54442D18;

/// The bit pattern of the phase offset that turns an X error into a Y error.
pub const PAULI_Y_PHASE: u64 = 0x3FF921FB54442D18;

/// A Pauli error to inject on one qubit: the identity injects nothing.
#[derive(Debug, Clone, Copy, PartialEq, Eq, Structural)]
pub enum ErrorType {
    I,
    X,
    Y,
    Z,
}

/// Which single-qubit error a drawn word selects once an error fires.
pub open spec fn error_1q_of(d: u64) -> ErrorType {
    if d % 3 == 0 {
        ErrorType::X
    } else if d % 3 == 1 {
        ErrorType::Y
    } else {
        ErrorType::Z
    }
}

/// Which two-qubit error pair a drawn word selects once an error fires: the
/// fifteen non-identity Pauli pairs.
pub open spec fn error_2q_of(d: u64) -> (ErrorType, ErrorType) {
    let s = d % 15;
    if s == 0 {
        (ErrorType::I, ErrorType::X)
    } else if s == 1 {
        (ErrorType::I, ErrorType::Y)
    } else if s == 2 {
        (ErrorType::I, ErrorType::Z)
    } else if s == 3 {
        (ErrorType::X, ErrorType::I)
    } else if s == 4 {
        (ErrorType::X, ErrorType::X)
    } else if s == 5 {
        (ErrorType::X, ErrorType::Y)
    } else if s == 6 {
        (ErrorType::X, ErrorType::Z)
    } else if s == 7 {
        (ErrorType::Y, ErrorType::I)
    } else if s == 8 {
        (ErrorType::Y, ErrorType::X)
    } else if s == 9 {
        (ErrorType::Y, ErrorType::Y)
    } else if s == 10 {
        (ErrorType::Y, ErrorType::Z)
    } else if s == 11 {
        (ErrorType::Z, ErrorType::I)
    } else if s == 12 {
        (ErrorType::Z, ErrorType::X)
    } else if s == 13 {
        (ErrorType::Z, ErrorType::Y)
    } else {
        (ErrorType::Z, ErrorType::Z)
    }
}

/// The rotation request that realizes a Pauli error on one qubit, or `None`
/// for the identity.
pub open spec fn error_gate(q: u64, et: ErrorType) -> Option<GateOp> {
    match et {
        ErrorType::I => None,
        ErrorType::X => Some(GateOp::Rxy { qubit: q, theta: PAULI_ANGLE, phi: 0 }),
        ErrorType::Y => Some(GateOp::Rxy { qubit: q, theta: PAULI_ANGLE, phi: PAULI_Y_PHASE }),
        ErrorType::Z => Some(GateOp::Rz { qubit: q, theta: PAULI_ANGLE }),
    }
}

/// What injecting one Pauli error does to the simulator model.
pub open spec fn apply_err<S: SimulatorInterface>(sim: S::V, q: u64, et: ErrorType) -> Result<
    S::V,
    EmuError,
> {
    match error_gate(q, et) {
        None => Ok(sim),
        Some(g) => S::gate_res(sim, g),
    }
}

/// The per-shot statistics of injected errors.
#[derive(Debug, Clone, Copy, PartialEq, Eq, Structural)]
pub struct DepolarizingStats {
    pub gate_count_1q: u64,
    pub err_count_1q_x: u64,
    pub err_count_1q_y: u64,
    pub err_count_1q_z: u64,
    pub gate_count_2q: u64,
    pub err_count_2q_ix: u64,
    pub err_count_2q_iy: u64,
    pub err_count_2q_iz: u64,
    pub err_count_2q_xi: u64,
    pub err_count_2q_xx: u64,
    pub err_count_2q_xy: u64,
    pub err_count_2q_xz: u64,
    pub err_count_2q_yi: u64,
    pub err_count_2q_yx: u64,
    pub err_count_2q_yy: u64,
    pub err_count_2q_yz: u64,
    pub err_count_2q_zi: u64,
    pub err_count_2q_zx: u64,
    pub err_count_2q_zy: u64,
    pub err_count_2q_zz: u64,
    pub measure_count: u64,
    pub measure_errors: u64,
    pub init_count: u64,
    pub init_errors: u64,
}

impl DepolarizingStats {
    /// Fresh all-zero statistics.
    pub open spec fn zero() -> DepolarizingStats {
        DepolarizingStats {
            gate_count_1q: 0,
            err_count_1q_x: 0,
            err_count_1q_y: 0,
            err_count_1q_z: 0,
            gate_count_2q: 0,
            err_count_2q_ix: 0,
            err_count_2q_iy: 0,
            err_count_2q_iz: 0,
            err_count_2q_xi: 0,
            err_count_2q_xx: 0,
            err_count_2q_xy: 0,
            err_count_2q_xz: 0,
            err_count_2q_yi: 0,
            err_count_2q_yx: 0,
            err_count_2q_yy: 0,
            err_count_2q_yz: 0,
            err_count_2q_zi: 0,
            err_count_2q_zx: 0,
            err_count_2q_zy: 0,
            err_count_2q_zz: 0,
            measure_count: 0,
            measure_errors: 0,
            init_count: 0,
            init_errors: 0,
        }
    }

    /// Count one single-qubit gate and the error injected on it.
    pub open spec fn count_1q(self, et: ErrorType) -> DepolarizingStats {
        let s = DepolarizingStats { gate_count_1q: bumped(self.gate_count_1q), ..self };
        match et {
            ErrorType::I => s,
            ErrorType::X => DepolarizingStats { err_count_1q_x: bumped(s.err_count_1q_x), ..s },
            ErrorType::Y => DepolarizingStats { err_count_1q_y: bumped(s.err_count_1q_y), ..s },
            ErrorType::Z => DepolarizingStats { err_count_1q_z: bumped(s.err_count_1q_z), ..s },
        }
    }

    /// Count one two-qubit gate and the error pair injected on it.
    pub open spec fn count_2q(self, e0: ErrorType, e1: ErrorType) -> DepolarizingStats {
        let s = DepolarizingStats { gate_count_2q: bumped(self.gate_count_2q), ..self };
        match (e0, e1) {
            (ErrorType::I, ErrorType::I) => s,
            (ErrorType::I, ErrorType::X) => DepolarizingStats {
                err_count_2q_ix: bumped(s.err_count_2q_ix),
                ..s
            },
            (ErrorType::I, ErrorType::Y) => DepolarizingStats {
                err_count_2q_iy: bumped(s.err_count_2q_iy),
                ..s
            },
            (ErrorType::I, ErrorType::Z) => DepolarizingStats {
                err_count_2q_iz: bumped(s.err_count_2q_iz),
                ..s
            },
            (ErrorType::X, ErrorType::I) => DepolarizingStats {
                err_count_2q_xi: bumped(s.err_count_2q_xi),
                ..s
            },
            (ErrorType::X, ErrorType::X) => DepolarizingStats {
                err_count_2q_xx: bumped(s.err_count_2q_xx),
                ..s
            },
            (ErrorType::X, ErrorType::Y) => DepolarizingStats {
                err_count_2q_xy: bumped(s.err_count_2q_xy),
                ..s
            },
            (ErrorType::X, ErrorType::Z) => DepolarizingStats {
                err_count_2q_xz: bumped(s.err_count_2q_xz),
                ..s
            },
            (ErrorType::Y, ErrorType::I) => DepolarizingStats {
                err_count_2q_yi: bumped(s.err_count_2q_yi),
                ..s
            },
            (ErrorType::Y, ErrorType::X) => DepolarizingStats {
                err_count_2q_yx: bumped(s.err_count_2q_yx),
                ..s
            },
            (ErrorType::Y, ErrorType::Y) => DepolarizingStats {
                err_count_2q_yy: bumped(s.err_count_2q_yy),
                ..s
            },
            (ErrorType::Y, ErrorType::Z) => DepolarizingStats {
                err_count_2q_yz: bumped(s.err_count_2q_yz),
                ..s
            },
            (ErrorType::Z, ErrorType::I) => DepolarizingStats {
                err_count_2q_zi: bumped(s.err_count_2q_zi),
                ..s
            },
            (ErrorType::Z, ErrorType::X) => DepolarizingStats {
                err_count_2q_zx: bumped(s.err_count_2q_zx),
                ..s
            },
            (ErrorType::Z, ErrorType::Y) => DepolarizingStats {
                err_count_2q_zy: bumped(s.err_count_2q_zy),
                ..s
            },
            (ErrorType::Z, ErrorType::Z) => DepolarizingStats {
                err_count_2q_zz: bumped(s.err_count_2q_zz),
                ..s
            },
        }
    }
}

/// The mathematical model of the depolarizing error model over a wrapped
/// simulator model `W`.
#[verifier::ext_equal]
pub struct DepolarizingModel<W> {
    pub width: u64,
    /// The seed of the current shot's stream.
    pub seed: u64,
    /// How many words the current shot has drawn.
    pub drawn: nat,
    /// Error probabilities as fractions of 2^64: per single-qubit gate, per
    /// two-qubit gate, per measurement, and per reset.
    pub p_1q: u64,
    pub p_2q: u64,
    pub p_meas: u64,
    pub p_init: u64,
    pub stats: DepolarizingStats,
    /// The inner simulator's model.
    pub sim: W,
}

/// What the single-qubit noise step does: one word decides whether an error
/// fires and which Pauli it is.
pub open spec fn noise_1q<S: SimulatorInterface>(pre: DepolarizingModel<S::V>, q: u64) -> Result<
    DepolarizingModel<S::V>,
    (DepolarizingModel<S::V>, EmuError),
> {
    let d = pcg_draw(pre.seed, pre.drawn);
    let et = if d >= pre.p_1q {
        ErrorType::I
    } else {
        error_1q_of(d)
    };
    let counted = DepolarizingModel { drawn: pre.drawn + 1, stats: pre.stats.count_1q(et), ..pre };
    match apply_err::<S>(pre.sim, q, et) {
        Ok(w) => Ok(DepolarizingModel { sim: w, ..counted }),
        Err(e) => Err((counted, e)),
    }
}

/// What the two-qubit noise step does: one word decides whether an error
/// fires and which Pauli pair it is; the first error lands on the first
/// qubit, the second on the second.
pub open spec fn noise_2q<S: SimulatorInterface>(
    pre: DepolarizingModel<S::V>,
    q0: u64,
    q1: u64,
) -> Result<DepolarizingModel<S::V>, (DepolarizingModel<S::V>, EmuError)> {
    let d = pcg_draw(pre.seed, pre.drawn);
    let pair = if d >= pre.p_2q {
        (ErrorType::I, ErrorType::I)
    } else {
        error_2q_of(d)
    };
    let counted = DepolarizingModel {
        drawn: pre.drawn + 1,
        stats: pre.stats.count_2q(pair.0, pair.1),
        ..pre
    };
    match apply_err::<S>(pre.sim, q0, pair.0) {
        Ok(w0) => match apply_err::<S>(w0, q1, pair.1) {
            Ok(w1) => Ok(DepolarizingModel { sim: w1, ..counted }),
            Err(e) => Err((DepolarizingModel { sim: w0, ..counted }, e)),
        },
        Err(e) => Err((counted, e)),
    }
}

/// What one operation does under the depolarizing model.
pub open spec fn depol_step<S: SimulatorInterface>(
    pre: DepolarizingModel<S::V>,
    bs: Seq<BoolResult64>,
    us: Seq<U64Result64>,
    op: Operation,
) -> Result<
    (DepolarizingModel<S::V>, Seq<BoolResult64>, Seq<U64Result64>),
    (DepolarizingModel<S::V>, EmuError),
> {
    match op {
        Operation::Measure { qubit_id, result_id } => match S::measure_res(pre.sim, qubit_id) {
            Ok((w, v)) => {
                let d = pcg_draw(pre.seed, pre.drawn);
                let flip = d < pre.p_meas;
                let reported = if flip {
                    !v
                } else {
                    v
                };
                Ok(
                    (
                        DepolarizingModel {
                            drawn: pre.drawn + 1,
                            stats: DepolarizingStats {
                                measure_count: bumped(pre.stats.measure_count),
                                measure_errors: if flip {
                                    bumped(pre.stats.measure_errors)
                                } else {
                                    pre.stats.measure_errors
                                },
                                ..pre.stats
                            },
                            sim: w,
                            ..pre
                        },
                        bs.push(BoolResult64 { result_id, value: reported }),
                        us,
                    ),
                )
            },
            Err(e) => Err((pre, e)),
        },
        Operation::MeasureLeaked { qubit_id, result_id } => match S::measure_res(
            pre.sim,
            qubit_id,
        ) {
            Ok((w, v)) => {
                let d = pcg_draw(pre.seed, pre.drawn);
                let flip = d < pre.p_meas;
                let reported = if flip {
                    !v
                } else {
                    v
                };
                Ok(
                    (
                        DepolarizingModel {
                            drawn: pre.drawn + 1,
                            stats: DepolarizingStats {
                                measure_count: bumped(pre.stats.measure_count),
                                measure_errors: if flip {
                                    bumped(pre.stats.measure_errors)
                                } else {
                                    pre.stats.measure_errors
                                },
                                ..pre.stats
                            },
                            sim: w,
                            ..pre
                        },
                        bs,
                        us.push(
                            U64Result64 {
                                result_id,
                                value: if reported {
                                    1
                                } else {
                                    0
                                },
                            },
                        ),
                    ),
                )
            },
            Err(e) => Err((pre, e)),
        },
        Operation::Reset { qubit_id } => match S::gate_res(
            pre.sim,
            GateOp::Reset { qubit: qubit_id },
        ) {
            Ok(w) => {
                let d = pcg_draw(pre.seed, pre.drawn);
                let flipped = d < pre.p_init;
                let stats1 = DepolarizingStats {
                    init_count: bumped(pre.stats.init_count),
                    init_errors: if flipped {
                        bumped(pre.stats.init_errors)
                    } else {
                        pre.stats.init_errors
                    },
                    ..pre.stats
                };
                if flipped {
                    match apply_err::<S>(w, qubit_id, ErrorType::X) {
                        Ok(w2) => Ok(
                            (
                                DepolarizingModel {
                                    drawn: pre.drawn + 1,
                                    stats: stats1,
                                    sim: w2,
                                    ..pre
                                },
                                bs,
                                us,
                            ),
                        ),
                        Err(e) => Err(
                            (
                                DepolarizingModel {
                                    drawn: pre.drawn + 1,
                                    stats: stats1,
                                    sim: w,
                                    ..pre
                                },
                                e,
                            ),
                        ),
                    }
                } else {
                    Ok(
                        (
                            DepolarizingModel { drawn: pre.drawn + 1, stats: stats1, sim: w, ..pre },
                            bs,
                            us,
                        ),
                    )
                }
            },
            Err(e) => Err((pre, e)),
        },
        Operation::Custom { .. } => Ok((pre, bs, us)),
        Operation::RXYGate { qubit_id, theta, phi } => if qubit_id >= pre.width {
            Err((pre, EmuError::QubitOutOfBounds))
        } else {
            match noise_1q::<S>(pre, qubit_id) {
                Ok(m1) => match S::gate_res(m1.sim, GateOp::Rxy { qubit: qubit_id, theta, phi }) {
                    Ok(w) => Ok((DepolarizingModel { sim: w, ..m1 }, bs, us)),
                    Err(e) => Err((m1, e)),
                },
                Err(t) => Err(t),
            }
        },
        Operation::RZGate { qubit_id, theta } => if qubit_id >= pre.width {
            Err((pre, EmuError::QubitOutOfBounds))
        } else {
            match noise_1q::<S>(pre, qubit_id) {
                Ok(m1) => match S::gate_res(m1.sim, GateOp::Rz { qubit: qubit_id, theta }) {
                    Ok(w) => Ok((DepolarizingModel { sim: w, ..m1 }, bs, us)),
                    Err(e) => Err((m1, e)),
                },
                Err(t) => Err(t),
            }
        },
        Operation::RZZGate { qubit_id_1, qubit_id_2, theta } => if qubit_id_1 >= pre.width
            || qubit_id_2 >= pre.width {
            Err((pre, EmuError::QubitOutOfBounds))
        } else {
            match noise_2q::<S>(pre, qubit_id_1, qubit_id_2) {
                Ok(m1) => match S::gate_res(
                    m1.sim,
                    GateOp::Rzz { qubit_1: qubit_id_1, qubit_2: qubit_id_2, theta },
                ) {
                    Ok(w) => Ok((DepolarizingModel { sim: w, ..m1 }, bs, us)),
                    Err(e) => Err((m1, e)),
                },
                Err(t) => Err(t),
            }
        },
        Operation::TK2Gate { qubit_id_1, qubit_id_2, alpha, beta, gamma } => if qubit_id_1
            >= pre.width || qubit_id_2 >= pre.width {
            Err((pre, EmuError::QubitOutOfBounds))
        } else {
            match noise_2q::<S>(pre, qubit_id_1, qubit_id_2) {
                Ok(m1) => match S::gate_res(
                    m1.sim,
                    GateOp::Tk2 { qubit_1: qubit_id_1, qubit_2: qubit_id_2, alpha, beta, gamma },
                ) {
                    Ok(w) => Ok((DepolarizingModel { sim: w, ..m1 }, bs, us)),
                    Err(e) => Err((m1, e)),
                },
                Err(t) => Err(t),
            }
        },
        Operation::TwinRXYGate { qubit_id_1, qubit_id_2, theta, phi } => if qubit_id_1 >= pre.width
            || qubit_id_2 >= pre.width {
            Err((pre, EmuError::QubitOutOfBounds))
        } else {
            match noise_2q::<S>(pre, qubit_id_1, qubit_id_2) {
                Ok(m1) => match S::gate_res(
                    m1.sim,
                    GateOp::TwinRxy { qubit_1: qubit_id_1, qubit_2: qubit_id_2, theta, phi },
                ) {
                    Ok(w) => Ok((DepolarizingModel { sim: w, ..m1 }, bs, us)),
                    Err(e) => Err((m1, e)),
                },
                Err(t) => Err(t),
            }
        },
        Operation::RPPGate { qubit_id_1, qubit_id_2, theta, phi } => if qubit_id_1 >= pre.width
            || qubit_id_2 >= pre.width {
            Err((pre, EmuError::QubitOutOfBounds))
        } else {
            match noise_2q::<S>(pre, qubit_id_1, qubit_id_2) {
                Ok(m1) => match S::gate_res(
                    m1.sim,
                    GateOp::Rpp { qubit_1: qubit_id_1, qubit_2: qubit_id_2, theta, phi },
                ) {
                    Ok(w) => Ok((DepolarizingModel { sim: w, ..m1 }, bs, us)),
                    Err(e) => Err((m1, e)),
                },
                Err(t) => Err(t),
            }
        },
    }
}

/// What a whole batch does under the depolarizing model.
pub open spec fn depol_run<S: SimulatorInterface>(
    pre: DepolarizingModel<S::V>,
    ops: Seq<Operation>,
) -> Result<
    (DepolarizingModel<S::V>, Seq<BoolResult64>, Seq<U64Result64>),
    (DepolarizingModel<S::V>, EmuError),
>
    decreases ops.len(),
{
    if ops.len() == 0 {
        Ok((pre, Seq::empty(), Seq::empty()))
    } else {
        match depol_run::<S>(pre, ops.drop_last()) {
            Ok((w, bs, us)) => depol_step::<S>(w, bs, us, ops.last()),
            Err(t) => Err(t),
        }
    }
}

/// A failing prefix decides the whole run.
pub proof fn lemma_depol_run_err_prefix<S: SimulatorInterface>(
    pre: DepolarizingModel<S::V>,
    ops: Seq<Operation>,
    i: int,
)
    requires
        0 <= i <= ops.len(),
        depol_run::<S>(pre, ops.take(i)) is Err,
    ensures
        depol_run::<S>(pre, ops) == depol_run::<S>(pre, ops.take(i)),
    decreases ops.len(),
{
    if i == ops.len() {
        assert(ops.take(i) =~= ops);
    } else {
        assert(ops.drop_last().take(i) =~= ops.take(i));
        lemma_depol_run_err_prefix::<S>(pre, ops.drop_last(), i);
    }
}

/// Well-formedness of a depolarizing model: widths agree and the inner
/// simulator model is well-formed.
pub open spec fn depol_v_inv<S: SimulatorInterface>(m: DepolarizingModel<S::V>) -> bool {
    &&& S::v_inv(m.sim)
    &&& S::width_of(m.sim) == m.width
}

/// A well-formed noise step keeps the model well-formed.
proof fn lemma_noise_wf<S: SimulatorInterface>(pre: DepolarizingModel<S::V>, q0: u64, q1: u64)
    requires
        depol_v_inv::<S>(pre),
    ensures
        noise_1q::<S>(pre, q0) matches Ok(m) ==> depol_v_inv::<S>(m) && m.width == pre.width,
        noise_2q::<S>(pre, q0, q1) matches Ok(m) ==> depol_v_inv::<S>(m) && m.width == pre.width,
{
    let d = pcg_draw(pre.seed, pre.drawn);
    let et = if d >= pre.p_1q {
        ErrorType::I
    } else {
        error_1q_of(d)
    };
    match error_gate(q0, et) {
        None => {},
        Some(g) => {
            S::lemma_step_wf(pre.sim, g, 0, false, 0, 0);
        },
    }
    let pair = if d >= pre.p_2q {
        (ErrorType::I, ErrorType::I)
    } else {
        error_2q_of(d)
    };
    match error_gate(q0, pair.0) {
        None => {
            match error_gate(q1, pair.1) {
                None => {},
                Some(g1) => {
                    S::lemma_step_wf(pre.sim, g1, 0, false, 0, 0);
                },
            }
        },
        Some(g0) => {
            S::lemma_step_wf(pre.sim, g0, 0, false, 0, 0);
            if let Ok(w0) = S::gate_res(pre.sim, g0) {
                match error_gate(q1, pair.1) {
                    None => {},
                    Some(g1) => {
                        S::lemma_step_wf(w0, g1, 0, false, 0, 0);
                    },
                }
            }
        },
    }
}

/// A successful run yields exactly one boolean result per `Measure` and one
/// 64-bit result per `MeasureLeaked`, under the same handles and in the same
/// order, and keeps the model well-formed with its width unchanged.
pub proof fn lemma_depol_run_results<S: SimulatorInterface>(
    pre: DepolarizingModel<S::V>,
    ops: Seq<Operation>,
)
    requires
        depol_v_inv::<S>(pre),
    ensures
        depol_run::<S>(pre, ops) matches Ok((m, bs, us)) ==> {
            &&& bs.map_values(|e: BoolResult64| e.result_id) == measure_ids(ops)
            &&& us.map_values(|e: U64Result64| e.result_id) == measure_leaked_ids(ops)
            &&& depol_v_inv::<S>(m)
            &&& m.width == pre.width
        },
    decreases ops.len(),
{
    if ops.len() == 0 {
        assert(Seq::<BoolResult64>::empty().map_values(|e: BoolResult64| e.result_id)
            =~= Seq::<u64>::empty());
        assert(Seq::<U64Result64>::empty().map_values(|e: U64Result64| e.result_id)
            =~= Seq::<u64>::empty());
    } else {
        lemma_depol_run_results::<S>(pre, ops.drop_last());
        if let Ok((w, bs, us)) = depol_run::<S>(pre, ops.drop_last()) {
            let op = ops.last();
            match op {
                Operation::Measure { qubit_id, result_id } => {
                    S::lemma_step_wf(w.sim, GateOp::Reset { qubit: 0 }, qubit_id, false, 0, 0);
                    if let Ok((m, bs2, us2)) = depol_step::<S>(w, bs, us, op) {
                        assert(bs2.map_values(|e: BoolResult64| e.result_id) =~= bs.map_values(
                            |e: BoolResult64| e.result_id,
                        ).push(result_id));
                        assert(measure_ids(ops) =~= measure_ids(ops.drop_last()).push(result_id));
                        assert(measure_leaked_ids(ops) =~= measure_leaked_ids(ops.drop_last()));
                    }
                },
                Operation::MeasureLeaked { qubit_id, result_id } => {
                    S::lemma_step_wf(w.sim, GateOp::Reset { qubit: 0 }, qubit_id, false, 0, 0);
                    if let Ok((m, bs2, us2)) = depol_step::<S>(w, bs, us, op) {
                        assert(us2.map_values(|e: U64Result64| e.result_id) =~= us.map_values(
                            |e: U64Result64| e.result_id,
                        ).push(result_id));
                        assert(measure_leaked_ids(ops) =~= measure_leaked_ids(
                            ops.drop_last(),
                        ).push(result_id));
                        assert(measure_ids(ops) =~= measure_ids(ops.drop_last()));
                    }
                },
                Operation::Reset { qubit_id } => {
                    S::lemma_step_wf(w.sim, GateOp::Reset { qubit: qubit_id }, 0, false, 0, 0);
                    if let Ok(w1) = S::gate_res(w.sim, GateOp::Reset { qubit: qubit_id }) {
                        match error_gate(qubit_id, ErrorType::X) {
                            Some(g) => {
                                S::lemma_step_wf(w1, g, 0, false, 0, 0);
                            },
                            None => {},
                        }
                    }
                    assert(measure_ids(ops) =~= measure_ids(ops.drop_last()));
                    assert(measure_leaked_ids(ops) =~= measure_leaked_ids(ops.drop_last()));
                },
                Operation::Custom { .. } => {
                    assert(measure_ids(ops) =~= measure_ids(ops.drop_last()));
                    assert(measure_leaked_ids(ops) =~= measure_leaked_ids(ops.drop_last()));
                },
                _ => {
                    let (q0, q1): (u64, u64) = match op {
                        Operation::RXYGate { qubit_id, .. } => (qubit_id, qubit_id),
                        Operation::RZGate { qubit_id, .. } => (qubit_id, qubit_id),
                        Operation::RZZGate { qubit_id_1, qubit_id_2, .. } => (
                            qubit_id_1,
                            qubit_id_2,
                        ),
                        Operation::TK2Gate { qubit_id_1, qubit_id_2, .. } => (
                            qubit_id_1,
                            qubit_id_2,
                        ),
                        Operation::TwinRXYGate { qubit_id_1, qubit_id_2, .. } => (
                            qubit_id_1,
                            qubit_id_2,
                        ),
                        Operation::RPPGate { qubit_id_1, qubit_id_2, .. } => (
                            qubit_id_1,
                            qubit_id_2,
                        ),
                        _ => (0, 0),
                    };
                    lemma_noise_wf::<S>(w, q0, q1);
                    match op {
                        Operation::RXYGate { .. } | Operation::RZGate { .. } => {
                            if let Ok(m1) = noise_1q::<S>(w, q0) {
                                S::lemma_step_wf(
                                    m1.sim,
                                    crate::error_model_ideal::gate_of(op),
                                    0,
                                    false,
                                    0,
                                    0,
                                );
                            }
                        },
                        _ => {
                            if let Ok(m1) = noise_2q::<S>(w, q0, q1) {
                                S::lemma_step_wf(
                                    m1.sim,
                                    crate::error_model_ideal::gate_of(op),
                                    0,
                                    false,
                                    0,
                                    0,
                                );
                            }
                        },
                    }
                    assert(measure_ids(ops) =~= measure_ids(ops.drop_last()));
                    assert(measure_leaked_ids(ops) =~= measure_leaked_ids(ops.drop_last()));
                },
            }
        }
    }
}


/// The name of the `n`-th modeled statistic.
pub open spec fn depol_metric_name(n: u8) -> Seq<char> {
    if n == 0 {
        "gates_1q"@
    } else if n == 1 {
        "errors_1q_x"@
    } else if n == 2 {
        "errors_1q_y"@
    } else if n == 3 {
        "errors_1q_z"@
    } else if n == 4 {
        "gates_2q"@
    } else if n == 5 {
        "errors_2q_ix"@
    } else if n == 6 {
        "errors_2q_iy"@
    } else if n == 7 {
        "errors_2q_iz"@
    } else if n == 8 {
        "errors_2q_xi"@
    } else if n == 9 {
        "errors_2q_xx"@
    } else if n == 10 {
        "errors_2q_xy"@
    } else if n == 11 {
        "errors_2q_xz"@
    } else if n == 12 {
        "errors_2q_yi"@
    } else if n == 13 {
        "errors_2q_yx"@
    } else if n == 14 {
        "errors_2q_yy"@
    } else if n == 15 {
        "errors_2q_yz"@
    } else if n == 16 {
        "errors_2q_zi"@
    } else if n == 17 {
        "errors_2q_zx"@
    } else if n == 18 {
        "errors_2q_zy"@
    } else if n == 19 {
        "errors_2q_zz"@
    } else if n == 20 {
        "measurements"@
    } else if n == 21 {
        "measurement_errors"@
    } else if n == 22 {
        "inits"@
    } else {
        "init_errors"@
    }
}

/// The value of the `n`-th modeled statistic.
pub open spec fn depol_metric_value(stats: DepolarizingStats, n: u8) -> u64 {
    if n == 0 {
        stats.gate_count_1q
    } else if n == 1 {
        stats.err_count_1q_x
    } else if n == 2 {
        stats.err_count_1q_y
    } else if n == 3 {
        stats.err_count_1q_z
    } else if n == 4 {
        stats.gate_count_2q
    } else if n == 5 {
        stats.err_count_2q_ix
    } else if n == 6 {
        stats.err_count_2q_iy
    } else if n == 7 {
        stats.err_count_2q_iz
    } else if n == 8 {
        stats.err_count_2q_xi
    } else if n == 9 {
        stats.err_count_2q_xx
    } else if n == 10 {
        stats.err_count_2q_xy
    } else if n == 11 {
        stats.err_count_2q_xz
    } else if n == 12 {
        stats.err_count_2q_yi
    } else if n == 13 {
        stats.err_count_2q_yx
    } else if n == 14 {
        stats.err_count_2q_yy
    } else if n == 15 {
        stats.err_count_2q_yz
    } else if n == 16 {
        stats.err_count_2q_zi
    } else if n == 17 {
        stats.err_count_2q_zx
    } else if n == 18 {
        stats.err_count_2q_zy
    } else if n == 19 {
        stats.err_count_2q_zz
    } else if n == 20 {
        stats.measure_count
    } else if n == 21 {
        stats.measure_errors
    } else if n == 22 {
        stats.init_count
    } else {
        stats.init_errors
    }
}

/// The depolarizing error model.
pub struct DepolarizingErrorModel<S> {
    n_qubits: u64,
    rng: ShotRng,
    simulator: S,
    p_1q: u64,
    p_2q: u64,
    p_meas: u64,
    p_init: u64,
    stats: DepolarizingStats,
}

impl<S: SimulatorInterface> View for DepolarizingErrorModel<S> {
    type V = DepolarizingModel<S::V>;

    closed spec fn view(&self) -> DepolarizingModel<S::V> {
        DepolarizingModel {
            width: self.n_qubits,
            seed: self.rng.seed(),
            drawn: self.rng.drawn(),
            p_1q: self.p_1q,
            p_2q: self.p_2q,
            p_meas: self.p_meas,
            p_init: self.p_init,
            stats: self.stats,
            sim: self.simulator@,
        }
    }
}

impl<S: SimulatorInterface> DepolarizingErrorModel<S> {
    /// Inject one Pauli error on the simulator, or nothing for the identity.
    fn apply_error(&mut self, qubit: u64, error: ErrorType) -> (r: Result<(), EmuError>)
        requires
            old(self).inv(),
        ensures
            final(self).inv(),
            final(self)@.width == old(self)@.width,
            final(self)@.seed == old(self)@.seed,
            final(self)@.drawn == old(self)@.drawn,
            final(self)@.stats == old(self)@.stats,
            final(self)@.p_1q == old(self)@.p_1q,
            final(self)@.p_2q == old(self)@.p_2q,
            final(self)@.p_meas == old(self)@.p_meas,
            final(self)@.p_init == old(self)@.p_init,
            match apply_err::<S>(old(self)@.sim, qubit, error) {
                Ok(w) => r is Ok && final(self)@.sim == w,
                Err(e) => r == Err::<(), EmuError>(e) && final(self)@.sim == old(self)@.sim,
            },
    {
        proof {
            self.simulator.lemma_inv_model();
            S::lemma_step_wf(
                self.simulator@,
                GateOp::Rxy { qubit, theta: PAULI_ANGLE, phi: 0 },
                0,
                false,
                0,
                0,
            );
            S::lemma_step_wf(
                self.simulator@,
                GateOp::Rxy { qubit, theta: PAULI_ANGLE, phi: PAULI_Y_PHASE },
                0,
                false,
                0,
                0,
            );
            S::lemma_step_wf(
                self.simulator@,
                GateOp::Rz { qubit, theta: PAULI_ANGLE },
                0,
                false,
                0,
                0,
            );
        }
        match error {
            ErrorType::I => Ok(()),
            ErrorType::X => self.simulator.rxy(qubit, PAULI_ANGLE, 0),
            ErrorType::Y => self.simulator.rxy(qubit, PAULI_ANGLE, PAULI_Y_PHASE),
            ErrorType::Z => self.simulator.rz(qubit, PAULI_ANGLE),
        }
    }

    /// Draw one word and maybe inject a single-qubit Pauli error; the
    /// single-qubit counter rises either way.
    fn maybe_apply_1q_error(&mut self, q0: u64) -> (r: Result<(), EmuError>)
        requires
            old(self).inv(),
        ensures
            final(self).inv(),
            match noise_1q::<S>(old(self)@, q0) {
                Ok(m) => r is Ok && final(self)@ == m,
                Err((m, e)) => r == Err::<(), EmuError>(e) && final(self)@ == m,
            },
    {
        let d = self.rng.next_u64();
        let error = if d >= self.p_1q {
            ErrorType::I
        } else {
            let s = d % 3;
            if s == 0 {
                ErrorType::X
            } else if s == 1 {
                ErrorType::Y
            } else {
                ErrorType::Z
            }
        };
        self.stats.gate_count_1q = bump(self.stats.gate_count_1q);
        match error {
            ErrorType::I => {},
            ErrorType::X => {
                self.stats.err_count_1q_x = bump(self.stats.err_count_1q_x);
            },
            ErrorType::Y => {
                self.stats.err_count_1q_y = bump(self.stats.err_count_1q_y);
            },
            ErrorType::Z => {
                self.stats.err_count_1q_z = bump(self.stats.err_count_1q_z);
            },
        }
        self.apply_error(q0, error)
    }

    /// Draw one word and maybe inject a two-qubit Pauli error pair; the
    /// two-qubit counter rises either way.
    fn maybe_apply_2q_error(&mut self, q0: u64, q1: u64) -> (r: Result<(), EmuError>)
        requires
            old(self).inv(),
        ensures
            final(self).inv(),
            match noise_2q::<S>(old(self)@, q0, q1) {
                Ok(m) => r is Ok && final(self)@ == m,
                Err((m, e)) => r == Err::<(), EmuError>(e) && final(self)@ == m,
            },
    {
        let d = self.rng.next_u64();
        let pair = if d >= self.p_2q {
            (ErrorType::I, ErrorType::I)
        } else {
            let s = d % 15;
            if s == 0 {
                (ErrorType::I, ErrorType::X)
            } else if s == 1 {
                (ErrorType::I, ErrorType::Y)
            } else if s == 2 {
                (ErrorType::I, ErrorType::Z)
            } else if s == 3 {
                (ErrorType::X, ErrorType::I)
            } else if s == 4 {
                (ErrorType::X, ErrorType::X)
            } else if s == 5 {
                (ErrorType::X, ErrorType::Y)
            } else if s == 6 {
                (ErrorType::X, ErrorType::Z)
            } else if s == 7 {
                (ErrorType::Y, ErrorType::I)
            } else if s == 8 {
                (ErrorType::Y, ErrorType::X)
            } else if s == 9 {
                (ErrorType::Y, ErrorType::Y)
            } else if s == 10 {
                (ErrorType::Y, ErrorType::Z)
            } else if s == 11 {
                (ErrorType::Z, ErrorType::I)
            } else if s == 12 {
                (ErrorType::Z, ErrorType::X)
            } else if s == 13 {
                (ErrorType::Z, ErrorType::Y)
            } else {
                (ErrorType::Z, ErrorType::Z)
            }
        };
        self.stats.gate_count_2q = bump(self.stats.gate_count_2q);
        match pair {
            (ErrorType::I, ErrorType::I) => {},
            (ErrorType::I, ErrorType::X) => {
                self.stats.err_count_2q_ix = bump(self.stats.err_count_2q_ix);
            },
            (ErrorType::I, ErrorType::Y) => {
                self.stats.err_count_2q_iy = bump(self.stats.err_count_2q_iy);
            },
            (ErrorType::I, ErrorType::Z) => {
                self.stats.err_count_2q_iz = bump(self.stats.err_count_2q_iz);
            },
            (ErrorType::X, ErrorType::I) => {
                self.stats.err_count_2q_xi = bump(self.stats.err_count_2q_xi);
            },
            (ErrorType::X, ErrorType::X) => {
                self.stats.err_count_2q_xx = bump(self.stats.err_count_2q_xx);
            },
            (ErrorType::X, ErrorType::Y) => {
                self.stats.err_count_2q_xy = bump(self.stats.err_count_2q_xy);
            },
            (ErrorType::X, ErrorType::Z) => {
                self.stats.err_count_2q_xz = bump(self.stats.err_count_2q_xz);
            },
            (ErrorType::Y, ErrorType::I) => {
                self.stats.err_count_2q_yi = bump(self.stats.err_count_2q_yi);
            },
            (ErrorType::Y, ErrorType::X) => {
                self.stats.err_count_2q_yx = bump(self.stats.err_count_2q_yx);
            },
            (ErrorType::Y, ErrorType::Y) => {
                self.stats.err_count_2q_yy = bump(self.stats.err_count_2q_yy);
            },
            (ErrorType::Y, ErrorType::Z) => {
                self.stats.err_count_2q_yz = bump(self.stats.err_count_2q_yz);
            },
            (ErrorType::Z, ErrorType::I) => {
                self.stats.err_count_2q_zi = bump(self.stats.err_count_2q_zi);
            },
            (ErrorType::Z, ErrorType::X) => {
                self.stats.err_count_2q_zx = bump(self.stats.err_count_2q_zx);
            },
            (ErrorType::Z, ErrorType::Y) => {
                self.stats.err_count_2q_zy = bump(self.stats.err_count_2q_zy);
            },
            (ErrorType::Z, ErrorType::Z) => {
                self.stats.err_count_2q_zz = bump(self.stats.err_count_2q_zz);
            },
        }
        match self.apply_error(q0, pair.0) {
            Ok(()) => self.apply_error(q1, pair.1),
            Err(e) => Err(e),
        }
    }

    /// Apply one operation of a batch: inject noise, drive the inner
    /// simulator, and record any measurement result.
    #[verifier::rlimit(50)]
    fn apply_op(&mut self, op: &Operation, results: &mut BatchResult) -> (r: Result<(), EmuError>)
        requires
            old(self).inv(),
        ensures
            final(self).inv(),
            match depol_step::<S>(
                old(self)@,
                old(results).bool_results@,
                old(results).u64_results@,
                *op,
            ) {
                Ok((m, bs, us)) => r is Ok && final(self)@ == m && final(results).bool_results@
                    == bs && final(results).u64_results@ == us,
                Err((m, e)) => r == Err::<(), EmuError>(e) && final(self)@ == m && final(results).bool_results@ == old(results).bool_results@ && final(results).u64_results@ == old(
                    results,
                ).u64_results@,
            },
    {
        match op {
            Operation::Measure { qubit_id, result_id } => {
                proof {
                    self.simulator.lemma_inv_model();
                    S::lemma_step_wf(
                        self.simulator@,
                        GateOp::Reset { qubit: 0 },
                        *qubit_id,
                        false,
                        0,
                        0,
                    );
                }
                match self.simulator.measure(*qubit_id) {
                    Ok(v) => {
                        let flip = self.rng.bernoulli(self.p_meas);
                        self.stats.measure_count = bump(self.stats.measure_count);
                        let reported = if flip {
                            self.stats.measure_errors = bump(self.stats.measure_errors);
                            !v
                        } else {
                            v
                        };
                        results.set_bool_result(*result_id, reported);
                        Ok(())
                    },
                    Err(e) => Err(e),
                }
            },
            Operation::MeasureLeaked { qubit_id, result_id } => {
                proof {
                    self.simulator.lemma_inv_model();
                    S::lemma_step_wf(
                        self.simulator@,
                        GateOp::Reset { qubit: 0 },
                        *qubit_id,
                        false,
                        0,
                        0,
                    );
                }
                match self.simulator.measure(*qubit_id) {
                    Ok(v) => {
                        let flip = self.rng.bernoulli(self.p_meas);
                        self.stats.measure_count = bump(self.stats.measure_count);
                        let reported = if flip {
                            self.stats.measure_errors = bump(self.stats.measure_errors);
                            !v
                        } else {
                            v
                        };
                        results.set_u64_result(
                            *result_id,
                            if reported {
                                1
                            } else {
                                0
                            },
                        );
                        Ok(())
                    },
                    Err(e) => Err(e),
                }
            },
            Operation::Reset { qubit_id } => {
                proof {
                    self.simulator.lemma_inv_model();
                    S::lemma_step_wf(
                        self.simulator@,
                        GateOp::Reset { qubit: *qubit_id },
                        0,
                        false,
                        0,
                        0,
                    );
                }
                match self.simulator.reset(*qubit_id) {
                    Ok(()) => {
                        let flipped = self.rng.bernoulli(self.p_init);
                        self.stats.init_count = bump(self.stats.init_count);
                        if flipped {
                            self.stats.init_errors = bump(self.stats.init_errors);
                            self.apply_error(*qubit_id, ErrorType::X)
                        } else {
                            Ok(())
                        }
                    },
                    Err(e) => Err(e),
                }
            },
            Operation::Custom { .. } => Ok(()),
            Operation::RXYGate { qubit_id, theta, phi } => {
                if *qubit_id >= self.n_qubits {
                    Err(EmuError::QubitOutOfBounds)
                } else {
                    match self.maybe_apply_1q_error(*qubit_id) {
                        Ok(()) => {
                            proof {
                                self.simulator.lemma_inv_model();
                                S::lemma_step_wf(
                                    self.simulator@,
                                    GateOp::Rxy { qubit: *qubit_id, theta: *theta, phi: *phi },
                                    0,
                                    false,
                                    0,
                                    0,
                                );
                            }
                            self.simulator.rxy(*qubit_id, *theta, *phi)
                        },
                        Err(e) => Err(e),
                    }
                }
            },
            Operation::RZGate { qubit_id, theta } => {
                if *qubit_id >= self.n_qubits {
                    Err(EmuError::QubitOutOfBounds)
                } else {
                    match self.maybe_apply_1q_error(*qubit_id) {
                        Ok(()) => {
                            proof {
                                self.simulator.lemma_inv_model();
                                S::lemma_step_wf(
                                    self.simulator@,
                                    GateOp::Rz { qubit: *qubit_id, theta: *theta },
                                    0,
                                    false,
                                    0,
                                    0,
                                );
                            }
                            self.simulator.rz(*qubit_id, *theta)
                        },
                        Err(e) => Err(e),
                    }
                }
            },
            Operation::RZZGate { qubit_id_1, qubit_id_2, theta } => {
                if *qubit_id_1 >= self.n_qubits || *qubit_id_2 >= self.n_qubits {
                    Err(EmuError::QubitOutOfBounds)
                } else {
                    match self.maybe_apply_2q_error(*qubit_id_1, *qubit_id_2) {
                        Ok(()) => {
                            proof {
                                self.simulator.lemma_inv_model();
                                S::lemma_step_wf(
                                    self.simulator@,
                                    GateOp::Rzz {
                                        qubit_1: *qubit_id_1,
                                        qubit_2: *qubit_id_2,
                                        theta: *theta,
                                    },
                                    0,
                                    false,
                                    0,
                                    0,
                                );
                            }
                            self.simulator.rzz(*qubit_id_1, *qubit_id_2, *theta)
                        },
                        Err(e) => Err(e),
                    }
                }
            },
            Operation::TK2Gate { qubit_id_1, qubit_id_2, alpha, beta, gamma } => {
                if *qubit_id_1 >= self.n_qubits || *qubit_id_2 >= self.n_qubits {
                    Err(EmuError::QubitOutOfBounds)
                } else {
                    match self.maybe_apply_2q_error(*qubit_id_1, *qubit_id_2) {
                        Ok(()) => {
                            proof {
                                self.simulator.lemma_inv_model();
                                S::lemma_step_wf(
                                    self.simulator@,
                                    GateOp::Tk2 {
                                        qubit_1: *qubit_id_1,
                                        qubit_2: *qubit_id_2,
                                        alpha: *alpha,
                                        beta: *beta,
                                        gamma: *gamma,
                                    },
                                    0,
                                    false,
                                    0,
                                    0,
                                );
                            }
                            self.simulator.tk2(*qubit_id_1, *qubit_id_2, *alpha, *beta, *gamma)
                        },
                        Err(e) => Err(e),
                    }
                }
            },
            Operation::TwinRXYGate { qubit_id_1, qubit_id_2, theta, phi } => {
                if *qubit_id_1 >= self.n_qubits || *qubit_id_2 >= self.n_qubits {
                    Err(EmuError::QubitOutOfBounds)
                } else {
                    match self.maybe_apply_2q_error(*qubit_id_1, *qubit_id_2) {
                        Ok(()) => {
                            proof {
                                self.simulator.lemma_inv_model();
                                S::lemma_step_wf(
                                    self.simulator@,
                                    GateOp::TwinRxy {
                                        qubit_1: *qubit_id_1,
                                        qubit_2: *qubit_id_2,
                                        theta: *theta,
                                        phi: *phi,
                                    },
                                    0,
                                    false,
                                    0,
                                    0,
                                );
                            }
                            self.simulator.twin_rxy(*qubit_id_1, *qubit_id_2, *theta, *phi)
                        },
                        Err(e) => Err(e),
                    }
                }
            },
            Operation::RPPGate { qubit_id_1, qubit_id_2, theta, phi } => {
                if *qubit_id_1 >= self.n_qubits || *qubit_id_2 >= self.n_qubits {
                    Err(EmuError::QubitOutOfBounds)
                } else {
                    match self.maybe_apply_2q_error(*qubit_id_1, *qubit_id_2) {
                        Ok(()) => {
                            proof {
                                self.simulator.lemma_inv_model();
                                S::lemma_step_wf(
                                    self.simulator@,
                                    GateOp::Rpp {
                                        qubit_1: *qubit_id_1,
                                        qubit_2: *qubit_id_2,
                                        theta: *theta,
                                        phi: *phi,
                                    },
                                    0,
                                    false,
                                    0,
                                    0,
                                );
                            }
                            self.simulator.rpp(*qubit_id_1, *qubit_id_2, *theta, *phi)
                        },
                        Err(e) => Err(e),
                    }
                }
            },
        }
    }
}

impl<S: SimulatorInterface> DepolarizingErrorModel<S> {
    /// The metric table: entry `n` names the `n`-th modeled statistic and
    /// carries its current value; the enumeration ends after the last
    /// injected-error counter.
    pub fn metric_entry(&self, nth_metric: u8) -> (r: Option<(String, MetricValue)>)
        ensures
            r is None <==> nth_metric >= 24,
            r matches Some((tag, value)) ==> tag@ == depol_metric_name(nth_metric) && value
                == MetricValue::U64(depol_metric_value(self@.stats, nth_metric)),
    {
        if nth_metric >= 24 {
            return None;
        }
        let name: &str = match nth_metric {
            0u8 => "gates_1q",
            1u8 => "errors_1q_x",
            2u8 => "errors_1q_y",
            3u8 => "errors_1q_z",
            4u8 => "gates_2q",
            5u8 => "errors_2q_ix",
            6u8 => "errors_2q_iy",
            7u8 => "errors_2q_iz",
            8u8 => "errors_2q_xi",
            9u8 => "errors_2q_xx",
            10u8 => "errors_2q_xy",
            11u8 => "errors_2q_xz",
            12u8 => "errors_2q_yi",
            13u8 => "errors_2q_yx",
            14u8 => "errors_2q_yy",
            15u8 => "errors_2q_yz",
            16u8 => "errors_2q_zi",
            17u8 => "errors_2q_zx",
            18u8 => "errors_2q_zy",
            19u8 => "errors_2q_zz",
            20u8 => "measurements",
            21u8 => "measurement_errors",
            22u8 => "inits",
            _ => "init_errors",
        };
        let value: u64 = match nth_metric {
            0u8 => self.stats.gate_count_1q,
            1u8 => self.stats.err_count_1q_x,
            2u8 => self.stats.err_count_1q_y,
            3u8 => self.stats.err_count_1q_z,
            4u8 => self.stats.gate_count_2q,
            5u8 => self.stats.err_count_2q_ix,
            6u8 => self.stats.err_count_2q_iy,
            7u8 => self.stats.err_count_2q_iz,
            8u8 => self.stats.err_count_2q_xi,
            9u8 => self.stats.err_count_2q_xx,
            10u8 => self.stats.err_count_2q_xy,
            11u8 => self.stats.err_count_2q_xz,
            12u8 => self.stats.err_count_2q_yi,
            13u8 => self.stats.err_count_2q_yx,
            14u8 => self.stats.err_count_2q_yy,
            15u8 => self.stats.err_count_2q_yz,
            16u8 => self.stats.err_count_2q_zi,
            17u8 => self.stats.err_count_2q_zx,
            18u8 => self.stats.err_count_2q_zy,
            19u8 => self.stats.err_count_2q_zz,
            20u8 => self.stats.measure_count,
            21u8 => self.stats.measure_errors,
            22u8 => self.stats.init_count,
            _ => self.stats.init_errors,
        };
        Some((name.to_owned(), MetricValue::U64(value)))
    }
}

impl<S: SimulatorInterface> ErrorModelInterface for DepolarizingErrorModel<S> {
    closed spec fn inv(&self) -> bool {
        self.simulator.inv() && Self::v_inv(self@)
    }

    open spec fn v_inv(m: DepolarizingModel<S::V>) -> bool {
        depol_v_inv::<S>(m)
    }

    open spec fn width_of(m: DepolarizingModel<S::V>) -> u64 {
        m.width
    }

    open spec fn handle_res(pre: DepolarizingModel<S::V>, ops: Seq<Operation>) -> Result<
        (DepolarizingModel<S::V>, Seq<BoolResult64>, Seq<U64Result64>),
        (DepolarizingModel<S::V>, EmuError),
    > {
        depol_run::<S>(pre, ops)
    }

    open spec fn shot_start_res(
        pre: DepolarizingModel<S::V>,
        shot_id: u64,
        seed: u64,
        simulator_seed: u64,
    ) -> Result<DepolarizingModel<S::V>, EmuError> {
        match S::shot_start_res(pre.sim, shot_id, simulator_seed) {
            Ok(w) => Ok(
                DepolarizingModel {
                    seed,
                    drawn: 0,
                    stats: DepolarizingStats::zero(),
                    sim: w,
                    ..pre
                },
            ),
            Err(e) => Err(e),
        }
    }

    open spec fn shot_end_res(pre: DepolarizingModel<S::V>) -> Result<
        DepolarizingModel<S::V>,
        EmuError,
    > {
        match S::shot_end_res(pre.sim) {
            Ok(w) => Ok(DepolarizingModel { sim: w, ..pre }),
            Err(e) => Err(e),
        }
    }

    open spec fn metric_res(pre: DepolarizingModel<S::V>, nth_metric: u8) -> Option<
        (Seq<char>, MetricValue),
    > {
        if nth_metric < 24 {
            Some(
                (
                    depol_metric_name(nth_metric),
                    MetricValue::U64(depol_metric_value(pre.stats, nth_metric)),
                ),
            )
        } else {
            None
        }
    }

    open spec fn sim_metric_res(pre: DepolarizingModel<S::V>, nth_metric: u8) -> Option<
        (Seq<char>, MetricValue),
    > {
        S::metric_res(pre.sim, nth_metric)
    }

    open spec fn dump_res(pre: DepolarizingModel<S::V>) -> Result<(), EmuError> {
        S::dump_res(pre.sim)
    }

    open spec fn exit_res(pre: DepolarizingModel<S::V>) -> Result<(), EmuError> {
        S::exit_res(pre.sim)
    }

    proof fn lemma_inv_model(&self) {
    }

    proof fn lemma_results_match(pre: DepolarizingModel<S::V>, ops: Seq<Operation>) {
        lemma_depol_run_results::<S>(pre, ops);
    }

    proof fn lemma_shot_wf(
        pre: DepolarizingModel<S::V>,
        shot_id: u64,
        seed: u64,
        simulator_seed: u64,
    ) {
        S::lemma_step_wf(pre.sim, GateOp::Reset { qubit: 0 }, 0, false, shot_id, simulator_seed);
    }

    fn handle_operations(&mut self, operations: BatchOperation) -> (r: Result<
        BatchResult,
        EmuError,
    >) {
        let ghost pre0 = old(self)@;
        let ghost all_ops = operations.ops_spec();
        let ops = operations.into_ops();
        let mut results = BatchResult::new();
        let mut i: usize = 0;
        while i < ops.len()
            invariant
                i <= ops.len(),
                ops@ == all_ops,
                pre0 == old(self)@,
                all_ops == operations.ops_spec(),
                self.inv(),
                depol_run::<S>(pre0, all_ops.take(i as int)) == Ok::<
                    (DepolarizingModel<S::V>, Seq<BoolResult64>, Seq<U64Result64>),
                    (DepolarizingModel<S::V>, EmuError),
                >((self@, results.bool_results@, results.u64_results@)),
            decreases ops.len() - i,
        {
            let ghost w_pre = self@;
            let ghost bs_pre = results.bool_results@;
            let ghost us_pre = results.u64_results@;
            proof {
                assert(all_ops.take(i + 1).drop_last() =~= all_ops.take(i as int));
                assert(all_ops.take(i + 1).last() == all_ops[i as int]);
            }
            let step_result: Result<(), EmuError> = self.apply_op(&ops[i], &mut results);
            match step_result {
                Ok(()) => {
                    proof {
                        assert(depol_step::<S>(w_pre, bs_pre, us_pre, all_ops[i as int]) == Ok::<
                            (DepolarizingModel<S::V>, Seq<BoolResult64>, Seq<U64Result64>),
                            (DepolarizingModel<S::V>, EmuError),
                        >((self@, results.bool_results@, results.u64_results@)));
                    }
                },
                Err(e) => {
                    proof {
                        assert(depol_run::<S>(pre0, all_ops.take(i + 1)) == Err::<
                            (DepolarizingModel<S::V>, Seq<BoolResult64>, Seq<U64Result64>),
                            (DepolarizingModel<S::V>, EmuError),
                        >((self@, e)));
                        lemma_depol_run_err_prefix::<S>(pre0, all_ops, i + 1);
                    }
                    return Err(e);
                },
            }
            i = i + 1;
        }
        proof {
            assert(all_ops.take(ops@.len() as int) =~= all_ops);
        }
        Ok(results)
    }

    fn shot_start(&mut self, shot_id: u64, seed: u64, simulator_seed: u64) -> (r: Result<
        (),
        EmuError,
    >) {
        proof {
            self.simulator.lemma_inv_model();
            S::lemma_step_wf(
                self.simulator@,
                GateOp::Reset { qubit: 0 },
                0,
                false,
                shot_id,
                simulator_seed,
            );
        }
        self.simulator.shot_start(shot_id, simulator_seed)?;
        self.rng = ShotRng::from_seed(seed);
        self.stats = DepolarizingStats {
            gate_count_1q: 0,
            err_count_1q_x: 0,
            err_count_1q_y: 0,
            err_count_1q_z: 0,
            gate_count_2q: 0,
            err_count_2q_ix: 0,
            err_count_2q_iy: 0,
            err_count_2q_iz: 0,
            err_count_2q_xi: 0,
            err_count_2q_xx: 0,
            err_count_2q_xy: 0,
            err_count_2q_xz: 0,
            err_count_2q_yi: 0,
            err_count_2q_yx: 0,
            err_count_2q_yy: 0,
            err_count_2q_yz: 0,
            err_count_2q_zi: 0,
            err_count_2q_zx: 0,
            err_count_2q_zy: 0,
            err_count_2q_zz: 0,
            measure_count: 0,
            measure_errors: 0,
            init_count: 0,
            init_errors: 0,
        };
        Ok(())
    }

    fn shot_end(&mut self) -> (r: Result<(), EmuError>) {
        proof {
            self.simulator.lemma_inv_model();
            S::lemma_step_wf(self.simulator@, GateOp::Reset { qubit: 0 }, 0, false, 0, 0);
        }
        self.simulator.shot_end()
    }

    fn get_metric(&mut self, nth_metric: u8) -> (r: Result<
        Option<(String, MetricValue)>,
        EmuError,
    >) {
        Ok(self.metric_entry(nth_metric))
    }

    fn get_simulator_metric(&mut self, nth_metric: u8) -> (r: Result<
        Option<(String, MetricValue)>,
        EmuError,
    >) {
        self.simulator.get_metric(nth_metric)
    }

    fn dump_simulator_state(&mut self, path: &String, qubits: &Vec<u64>) -> (r: Result<
        (),
        EmuError,
    >) {
        self.simulator.dump_state(path, qubits)
    }

    fn exit(&mut self) -> (r: Result<(), EmuError>) {
        self.simulator.exit()
    }
}

/// Build the depolarizing error model around an inner simulator. The four
/// error probabilities are fractions of 2^64.
pub struct DepolarizingErrorModelFactory;

impl DepolarizingErrorModelFactory {
    pub fn init<S: SimulatorInterface>(
        n_qubits: u64,
        p_1q: u64,
        p_2q: u64,
        p_meas: u64,
        p_init: u64,
        simulator: S,
    ) -> (r: DepolarizingErrorModel<S>)
        requires
            simulator.inv(),
            S::width_of(simulator@) == n_qubits,
        ensures
            r@ == (DepolarizingModel {
                width: n_qubits,
                seed: 0,
                drawn: 0,
                p_1q,
                p_2q,
                p_meas,
                p_init,
                stats: DepolarizingStats::zero(),
                sim: simulator@,
            }),
            r.inv(),
    {
        let ghost sim_model = simulator@;
        proof {
            simulator.lemma_inv_model();
        }
        let r = DepolarizingErrorModel {
            n_qubits,
            rng: ShotRng::from_seed(0),
            simulator,
            p_1q,
            p_2q,
            p_meas,
            p_init,
            stats: DepolarizingStats {
                gate_count_1q: 0,
                err_count_1q_x: 0,
                err_count_1q_y: 0,
                err_count_1q_z: 0,
                gate_count_2q: 0,
                err_count_2q_ix: 0,
                err_count_2q_iy: 0,
                err_count_2q_iz: 0,
                err_count_2q_xi: 0,
                err_count_2q_xx: 0,
                err_count_2q_xy: 0,
                err_count_2q_xz: 0,
                err_count_2q_yi: 0,
                err_count_2q_yx: 0,
                err_count_2q_yy: 0,
                err_count_2q_yz: 0,
                err_count_2q_zi: 0,
                err_count_2q_zx: 0,
                err_count_2q_zy: 0,
                err_count_2q_zz: 0,
                measure_count: 0,
                measure_errors: 0,
                init_count: 0,
                init_errors: 0,
            },
        };
        proof {
            assert(r@ =~= (DepolarizingModel {
                width: n_qubits,
                seed: 0,
                drawn: 0,
                p_1q,
                p_2q,
                p_meas,
                p_init,
                stats: DepolarizingStats::zero(),
                sim: sim_model,
            }));
        }
        r
    }
}

} // verus!
