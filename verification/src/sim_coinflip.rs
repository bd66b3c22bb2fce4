//! A simulator that ignores gates and answers every measurement with an
//! independent biased coin flip drawn from the shot's seeded stream.

use vstd::prelude::*;

use crate::errors::EmuError;
use crate::rng::{pcg_draw, ShotRng};
use crate::simulator::{GateOp, SimulatorInterface};
use crate::utils::{bump, bumped, MetricValue};

verus! {

/// The mathematical model of a coinflip simulator.
pub struct CoinflipModel {
    pub width: u64,
    /// The seed of the current shot's stream.
    pub seed: u64,
    /// How many words the current shot has drawn.
    pub drawn: nat,
    /// A flip lands true when the drawn word is below this threshold: the
    /// bias as a fraction of 2^64.
    pub threshold: u64,
    pub total_flips: u64,
    pub true_flips: u64,
}

/// A simulator whose measurements are independent biased coin flips.
pub struct CoinflipSimulator {
    n_qubits: u64,
    rng: ShotRng,
    threshold: u64,
    total_flips: u64,
    true_flips: u64,
}

impl View for CoinflipSimulator {
    type V = CoinflipModel;

    closed spec fn view(&self) -> CoinflipModel {
        CoinflipModel {
            width: self.n_qubits,
            seed: self.rng.seed(),
            drawn: self.rng.drawn(),
            threshold: self.threshold,
            total_flips: self.total_flips,
            true_flips: self.true_flips,
        }
    }
}

impl CoinflipSimulator {
    /// The number of flips answered since the shot's counters were last
    /// cleared.
    pub fn total_flips(&self) -> (r: u64)
        ensures
            r == self@.total_flips,
    {
        self.total_flips
    }

    /// How many of those flips landed true. The observed bias is the ratio
    /// of the two counters.
    pub fn true_flips(&self) -> (r: u64)
        ensures
            r == self@.true_flips,
    {
        self.true_flips
    }

    /// The metric table: the flip counters, once any flip was answered.
    pub fn metric_entry(&self, nth_metric: u8) -> (r: Option<(String, MetricValue)>)
        ensures
            r is None <==> (nth_metric >= 2 || self@.total_flips == 0),
            nth_metric == 0 && self@.total_flips > 0 ==> (r matches Some((tag, value)) && tag@
                == "total_flips"@ && value == MetricValue::U64(self@.total_flips)),
            nth_metric == 1 && self@.total_flips > 0 ==> (r matches Some((tag, value)) && tag@
                == "true_flips"@ && value == MetricValue::U64(self@.true_flips)),
    {
        if self.total_flips == 0 {
            return None;
        }
        match nth_metric {
            0u8 => Some(("total_flips".to_owned(), MetricValue::U64(self.total_flips))),
            1u8 => Some(("true_flips".to_owned(), MetricValue::U64(self.true_flips))),
            _ => None,
        }
    }
}

impl SimulatorInterface for CoinflipSimulator {
    open spec fn inv(&self) -> bool {
        true
    }

    open spec fn v_inv(m: CoinflipModel) -> bool {
        true
    }

    open spec fn width_of(m: CoinflipModel) -> u64 {
        m.width
    }

    open spec fn gate_res(pre: CoinflipModel, g: GateOp) -> Result<CoinflipModel, EmuError> {
        if g.in_bounds(pre.width) {
            Ok(pre)
        } else {
            Err(EmuError::QubitOutOfBounds)
        }
    }

    open spec fn measure_res(pre: CoinflipModel, qubit: u64) -> Result<
        (CoinflipModel, bool),
        EmuError,
    > {
        if qubit < pre.width {
            let v = pcg_draw(pre.seed, pre.drawn) < pre.threshold;
            Ok(
                (
                    CoinflipModel {
                        drawn: pre.drawn + 1,
                        total_flips: bumped(pre.total_flips),
                        true_flips: if v {
                            bumped(pre.true_flips)
                        } else {
                            pre.true_flips
                        },
                        ..pre
                    },
                    v,
                ),
            )
        } else {
            Err(EmuError::QubitOutOfBounds)
        }
    }

    open spec fn postselect_res(pre: CoinflipModel, qubit: u64, target: bool) -> Result<
        CoinflipModel,
        EmuError,
    > {
        if qubit < pre.width {
            Ok(pre)
        } else {
            Err(EmuError::QubitOutOfBounds)
        }
    }

    open spec fn shot_start_res(pre: CoinflipModel, shot_id: u64, seed: u64) -> Result<
        CoinflipModel,
        EmuError,
    > {
        Ok(CoinflipModel { seed, drawn: 0, ..pre })
    }

    open spec fn shot_end_res(pre: CoinflipModel) -> Result<CoinflipModel, EmuError> {
        Ok(CoinflipModel { total_flips: 0, true_flips: 0, ..pre })
    }

    open spec fn metric_res(pre: CoinflipModel, nth_metric: u8) -> Option<(Seq<char>, MetricValue)> {
        if pre.total_flips == 0 {
            None
        } else if nth_metric == 0 {
            Some(("total_flips"@, MetricValue::U64(pre.total_flips)))
        } else if nth_metric == 1 {
            Some(("true_flips"@, MetricValue::U64(pre.true_flips)))
        } else {
            None
        }
    }

    open spec fn dump_res(pre: CoinflipModel) -> Result<(), EmuError> {
        Err(EmuError::Unsupported)
    }

    open spec fn exit_res(pre: CoinflipModel) -> Result<(), EmuError> {
        Ok(())
    }

    proof fn lemma_inv_model(&self) {
    }

    proof fn lemma_bounds_rejection(pre: CoinflipModel, g: GateOp, q: u64, target: bool) {
    }

    proof fn lemma_gate_total(pre: CoinflipModel, g: GateOp) {
    }

    proof fn lemma_step_wf(
        pre: CoinflipModel,
        g: GateOp,
        q: u64,
        target: bool,
        shot_id: u64,
        seed: u64,
    ) {
    }

    proof fn lemma_twin_rxy_decomposition(pre: CoinflipModel, q0: u64, q1: u64, theta: u64, phi: u64) {
    }

    fn shot_start(&mut self, shot_id: u64, seed: u64) -> (r: Result<(), EmuError>) {
        self.rng = ShotRng::from_seed(seed);
        Ok(())
    }

    fn shot_end(&mut self) -> (r: Result<(), EmuError>) {
        self.total_flips = 0;
        self.true_flips = 0;
        Ok(())
    }

    fn rxy(&mut self, qubit: u64, theta: u64, phi: u64) -> (r: Result<(), EmuError>) {
        if qubit < self.n_qubits {
            Ok(())
        } else {
            Err(EmuError::QubitOutOfBounds)
        }
    }

    fn rz(&mut self, qubit: u64, theta: u64) -> (r: Result<(), EmuError>) {
        if qubit < self.n_qubits {
            Ok(())
        } else {
            Err(EmuError::QubitOutOfBounds)
        }
    }

    fn rzz(&mut self, qubit_1: u64, qubit_2: u64, theta: u64) -> (r: Result<(), EmuError>) {
        if qubit_1 < self.n_qubits && qubit_2 < self.n_qubits {
            Ok(())
        } else {
            Err(EmuError::QubitOutOfBounds)
        }
    }

    fn tk2(&mut self, qubit_1: u64, qubit_2: u64, alpha: u64, beta: u64, gamma: u64) -> (r: Result<
        (),
        EmuError,
    >) {
        if qubit_1 < self.n_qubits && qubit_2 < self.n_qubits {
            Ok(())
        } else {
            Err(EmuError::QubitOutOfBounds)
        }
    }

    fn rpp(&mut self, qubit_1: u64, qubit_2: u64, theta: u64, phi: u64) -> (r: Result<
        (),
        EmuError,
    >) {
        if qubit_1 < self.n_qubits && qubit_2 < self.n_qubits {
            Ok(())
        } else {
            Err(EmuError::QubitOutOfBounds)
        }
    }

    fn twin_rxy(&mut self, qubit_1: u64, qubit_2: u64, theta: u64, phi: u64) -> (r: Result<
        (),
        EmuError,
    >) {
        if qubit_1 < self.n_qubits && qubit_2 < self.n_qubits {
            Ok(())
        } else {
            Err(EmuError::QubitOutOfBounds)
        }
    }

    fn measure(&mut self, qubit: u64) -> (r: Result<bool, EmuError>) {
        if qubit < self.n_qubits {
            let flip = self.rng.bernoulli(self.threshold);
            self.total_flips = bump(self.total_flips);
            if flip {
                self.true_flips = bump(self.true_flips);
            }
            Ok(flip)
        } else {
            Err(EmuError::QubitOutOfBounds)
        }
    }

    fn postselect(&mut self, qubit: u64, target: bool) -> (r: Result<(), EmuError>) {
        if qubit < self.n_qubits {
            Ok(())
        } else {
            Err(EmuError::QubitOutOfBounds)
        }
    }

    fn reset(&mut self, qubit: u64) -> (r: Result<(), EmuError>) {
        if qubit < self.n_qubits {
            Ok(())
        } else {
            Err(EmuError::QubitOutOfBounds)
        }
    }

    fn dump_state(&mut self, path: &String, qubits: &Vec<u64>) -> (r: Result<(), EmuError>) {
        Err(EmuError::Unsupported)
    }

    fn get_metric(&mut self, nth_metric: u8) -> (r: Result<
        Option<(String, MetricValue)>,
        EmuError,
    >) {
        Ok(self.metric_entry(nth_metric))
    }

    fn exit(&mut self) -> (r: Result<(), EmuError>) {
        Ok(())
    }
}

/// Build a coinflip simulator over `n_qubits` qubits whose flips land true
/// with probability `bias_threshold / 2^64`.
pub struct CoinflipSimulatorFactory;

impl CoinflipSimulatorFactory {
    pub fn init(n_qubits: u64, bias_threshold: u64) -> (r: CoinflipSimulator)
        ensures
            r@ == (CoinflipModel {
                width: n_qubits,
                seed: 0,
                drawn: 0,
                threshold: bias_threshold,
                total_flips: 0,
                true_flips: 0,
            }),
            r.inv(),
    {
        CoinflipSimulator {
            n_qubits,
            rng: ShotRng::from_seed(0),
            threshold: bias_threshold,
            total_flips: 0,
            true_flips: 0,
        }
    }
}

} // verus!
