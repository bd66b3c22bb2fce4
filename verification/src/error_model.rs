//! The error model capability contract.
//!
//! An error model consumes one batch of operations at a time, drives its
//! inner simulator, and returns exactly one result per measurement of the
//! batch: one boolean result per `Measure`, one 64-bit result per
//! `MeasureLeaked`, in emission order — never zero, never duplicated.

use vstd::prelude::*;

use crate::batch_result::{BatchResult, BoolResult64, U64Result64};
use crate::errors::EmuError;
use crate::ops::{measure_ids, measure_leaked_ids, BatchOperation, Operation};
use crate::utils::MetricValue;

verus! {

/// An error model backend.
pub trait ErrorModelInterface: View + Sized {
    /// Well-formedness of the running instance.
    spec fn inv(&self) -> bool;

    /// Well-formedness of a model.
    spec fn v_inv(m: Self::V) -> bool;

    /// The allocated width of a model.
    spec fn width_of(m: Self::V) -> u64;

    /// What consuming a batch does to the model and which results it
    /// returns (boolean and 64-bit, each in emission order) — or, on
    /// failure, the state the failing prefix left behind and why it failed.
    /// Operations before the failing one stay applied and are never
    /// re-applied; no partial result list is returned.
    spec fn handle_res(pre: Self::V, ops: Seq<Operation>) -> Result<
        (Self::V, Seq<BoolResult64>, Seq<U64Result64>),
        (Self::V, EmuError),
    >;

    /// What starting a shot does to the model, or why it fails.
    spec fn shot_start_res(pre: Self::V, shot_id: u64, seed: u64, simulator_seed: u64) -> Result<
        Self::V,
        EmuError,
    >;

    /// What ending a shot does to the model, or why it fails.
    spec fn shot_end_res(pre: Self::V) -> Result<Self::V, EmuError>;

    /// The model's own metric table: the name and value of the `nth`
    /// diagnostic, or `None` once the enumeration is exhausted.
    spec fn metric_res(pre: Self::V, nth_metric: u8) -> Option<(Seq<char>, MetricValue)>;

    /// The inner simulator's metric table.
    spec fn sim_metric_res(pre: Self::V, nth_metric: u8) -> Option<(Seq<char>, MetricValue)>;

    /// What forwarding a state-dump request returns. The model never
    /// changes.
    spec fn dump_res(pre: Self::V) -> Result<(), EmuError>;

    /// What shutting the instance down returns. The model never changes.
    spec fn exit_res(pre: Self::V) -> Result<(), EmuError>;

    /// A well-formed instance has a well-formed model.
    proof fn lemma_inv_model(&self)
        requires
            self.inv(),
        ensures
            Self::v_inv(self@),
    ;

    /// Exactly one result per measurement: a consumed batch yields one
    /// boolean result per `Measure` and one 64-bit result per
    /// `MeasureLeaked`, under the same handles and in the same order —
    /// never zero, never duplicated. The transition also keeps the model
    /// well-formed and the width unchanged.
    proof fn lemma_results_match(pre: Self::V, ops: Seq<Operation>)
        requires
            Self::v_inv(pre),
        ensures
            Self::handle_res(pre, ops) matches Ok((m, bs, us)) ==> {
                &&& bs.map_values(|e: BoolResult64| e.result_id) == measure_ids(ops)
                &&& us.map_values(|e: U64Result64| e.result_id) == measure_leaked_ids(ops)
                &&& Self::v_inv(m)
                &&& Self::width_of(m) == Self::width_of(pre)
            },
    ;

    /// Shot transitions keep the model well-formed and the width unchanged.
    proof fn lemma_shot_wf(pre: Self::V, shot_id: u64, seed: u64, simulator_seed: u64)
        requires
            Self::v_inv(pre),
        ensures
            Self::shot_start_res(pre, shot_id, seed, simulator_seed) matches Ok(m)
                ==> Self::v_inv(m) && Self::width_of(m) == Self::width_of(pre),
            Self::shot_end_res(pre) matches Ok(m) ==> Self::v_inv(m) && Self::width_of(m)
                == Self::width_of(pre),
    ;

    /// Consume a batch: drive the inner simulator through each operation and
    /// return the batch's results. On failure, the operations before the
    /// failing one stay applied — the triggering call is aborted and no
    /// retry or rollback is made — and no partial results are returned.
    fn handle_operations(&mut self, operations: BatchOperation) -> (r: Result<
        BatchResult,
        EmuError,
    >)
        requires
            old(self).inv(),
        ensures
            final(self).inv(),
            match Self::handle_res(old(self)@, operations.ops_spec()) {
                Ok((m, bs, us)) => {
                    &&& final(self)@ == m
                    &&& r matches Ok(res) && res.bool_results@ == bs && res.u64_results@ == us
                },
                Err((m, e)) => r == Err::<BatchResult, EmuError>(e) && final(self)@ == m,
            },
    ;

    /// Prepare to begin a shot, seeding the model's own randomness and the
    /// inner simulator's independently.
    fn shot_start(&mut self, shot_id: u64, seed: u64, simulator_seed: u64) -> (r: Result<
        (),
        EmuError,
    >)
        requires
            old(self).inv(),
        ensures
            final(self).inv(),
            match Self::shot_start_res(old(self)@, shot_id, seed, simulator_seed) {
                Ok(m) => r is Ok && final(self)@ == m,
                Err(e) => r == Err::<(), EmuError>(e) && final(self)@ == old(self)@,
            },
    ;

    /// End the current shot, ending the inner simulator's shot as well.
    fn shot_end(&mut self) -> (r: Result<(), EmuError>)
        requires
            old(self).inv(),
        ensures
            final(self).inv(),
            match Self::shot_end_res(old(self)@) {
                Ok(m) => r is Ok && final(self)@ == m,
                Err(e) => r == Err::<(), EmuError>(e) && final(self)@ == old(self)@,
            },
    ;

    /// Enumerate the error model's own diagnostics — exactly the model's
    /// metric table.
    fn get_metric(&mut self, nth_metric: u8) -> (r: Result<Option<(String, MetricValue)>, EmuError>)
        requires
            old(self).inv(),
        ensures
            final(self).inv(),
            final(self)@ == old(self)@,
            match (r, Self::metric_res(old(self)@, nth_metric)) {
                (Ok(Some((tag, v))), Some((stag, sv))) => tag@ == stag && v == sv,
                (Ok(None), None) => true,
                _ => false,
            },
    ;

    /// Enumerate the inner simulator's diagnostics — exactly its metric
    /// table.
    fn get_simulator_metric(&mut self, nth_metric: u8) -> (r: Result<
        Option<(String, MetricValue)>,
        EmuError,
    >)
        requires
            old(self).inv(),
        ensures
            final(self).inv(),
            final(self)@ == old(self)@,
            match (r, Self::sim_metric_res(old(self)@, nth_metric)) {
                (Ok(Some((tag, v))), Some((stag, sv))) => tag@ == stag && v == sv,
                (Ok(None), None) => true,
                _ => false,
            },
    ;

    /// Forward a state-dump request to the inner simulator.
    fn dump_simulator_state(&mut self, path: &String, qubits: &Vec<u64>) -> (r: Result<
        (),
        EmuError,
    >)
        requires
            old(self).inv(),
        ensures
            final(self).inv(),
            final(self)@ == old(self)@,
            r == Self::dump_res(old(self)@),
    ;

    /// Signal that the instance should clean up; no call may follow.
    fn exit(&mut self) -> (r: Result<(), EmuError>)
        requires
            old(self).inv(),
        ensures
            final(self).inv(),
            final(self)@ == old(self)@,
            r == Self::exit_res(old(self)@),
    ;
}

} // verus!
