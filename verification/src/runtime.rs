//! The runtime capability contract.
//!
//! A runtime schedules the user program's quantum operations: it allocates
//! qubits, queues gate and measurement operations (eagerly or lazily), hands
//! them out in batches, and owns the future store that measurement handles
//! point into. Every implementation carries a mathematical model (its
//! [`View`]) and one spec-level transition per capability; the executable
//! methods are pinned to those transitions.

use vstd::prelude::*;

use crate::errors::EmuError;
use crate::ops::{BatchModel, BatchOperation};
use crate::simulator::GateOp;
use crate::utils::MetricValue;

verus! {

/// A runtime scheduler backend.
pub trait RuntimeInterface: View + Sized {
    /// Well-formedness of the running instance.
    spec fn inv(&self) -> bool;

    /// Well-formedness of a model.
    spec fn v_inv(m: Self::V) -> bool;

    /// What allocating a qubit does to the model and which id it returns;
    /// `u64::MAX` reports exhaustion, which is not an error.
    spec fn qalloc_res(pre: Self::V) -> Result<(Self::V, u64), EmuError>;

    /// What freeing a qubit does to the model, or why it fails.
    spec fn qfree_res(pre: Self::V, qubit_id: u64) -> Result<Self::V, EmuError>;

    /// What scheduling a gate or reset does to the model, or why it fails.
    spec fn gate_res(pre: Self::V, g: GateOp) -> Result<Self::V, EmuError>;

    /// What scheduling a measurement does to the model and which fresh
    /// result handle it returns, or why it fails. `leaked` selects the
    /// leakage-detecting form.
    spec fn measure_res(pre: Self::V, qubit_id: u64, leaked: bool) -> Result<
        (Self::V, u64),
        EmuError,
    >;

    /// What forcing a result does to the model, or why it fails.
    spec fn force_res(pre: Self::V, result_id: u64) -> Result<Self::V, EmuError>;

    /// What reading a result yields: `None` while unresolved, or why it
    /// fails. Reading does not change the model.
    spec fn get_result_res(pre: Self::V, result_id: u64) -> Result<Option<u64>, EmuError>;

    /// What the write-back of a result does to the model, or why it fails.
    spec fn set_result_res(pre: Self::V, result_id: u64, value: u64) -> Result<Self::V, EmuError>;

    /// What raising a handle's reference count does, or why it fails.
    spec fn incref_res(pre: Self::V, result_id: u64) -> Result<Self::V, EmuError>;

    /// What lowering a handle's reference count does, or why it fails.
    spec fn decref_res(pre: Self::V, result_id: u64) -> Result<Self::V, EmuError>;

    /// What a barrier on the given qubits does to the model, or why it
    /// fails.
    spec fn local_barrier_res(pre: Self::V, qubits: Seq<u64>, sleep_ns: u64) -> Result<
        Self::V,
        EmuError,
    >;

    /// What a barrier on all qubits does to the model, or why it fails.
    spec fn global_barrier_res(pre: Self::V, sleep_ns: u64) -> Result<Self::V, EmuError>;

    /// What handing out the next batch does to the model and whether a batch
    /// comes out; `None` means "nothing now", never an empty batch.
    spec fn next_ops_res(pre: Self::V) -> Result<(Self::V, Option<BatchModel>), EmuError>;

    /// What a custom call does to the model and what it returns, or why it
    /// fails (`Unsupported` where the capability is opted out).
    spec fn custom_res(pre: Self::V, tag: u64, data: Seq<u8>) -> Result<(Self::V, u64), EmuError>;

    /// What starting a shot does to the model, or why it fails.
    spec fn shot_start_res(pre: Self::V, shot_id: u64, seed: u64) -> Result<Self::V, EmuError>;

    /// What ending a shot does to the model, or why it fails.
    spec fn shot_end_res(pre: Self::V) -> Result<Self::V, EmuError>;

    /// How much emission work is pending: the measure under which a drain
    /// terminates. A runtime that could emit batches forever would be a
    /// liveness defect; a verified runtime exhibits this measure instead.
    spec fn pending(m: Self::V) -> nat;

    /// The metric table: the name and value of the `nth` diagnostic, or
    /// `None` once the enumeration is exhausted.
    spec fn metric_res(pre: Self::V, nth_metric: u8) -> Option<(Seq<char>, MetricValue)>;

    /// What shutting the instance down does to the model, or why it fails.
    spec fn exit_res(pre: Self::V) -> Result<Self::V, EmuError>;

    /// A well-formed instance has a well-formed model.
    proof fn lemma_inv_model(&self)
        requires
            self.inv(),
        ensures
            Self::v_inv(self@),
    ;

    /// Batch non-emptiness: a batch handed out is never empty. "Nothing
    /// now" is "no batch". The transition also keeps the model well-formed.
    proof fn lemma_batch_nonempty(pre: Self::V)
        requires
            Self::v_inv(pre),
        ensures
            Self::next_ops_res(pre) matches Ok((m, b)) ==> Self::v_inv(m) && (b matches Some(batch)
                ==> batch.ops.len() > 0),
    ;

    /// A fresh measurement handle starts unresolved with reference count 1,
    /// and reading it back before any write-back reports "not yet
    /// available".
    proof fn lemma_measure_fresh(pre: Self::V, qubit_id: u64, leaked: bool)
        requires
            Self::v_inv(pre),
        ensures
            Self::measure_res(pre, qubit_id, leaked) matches Ok((m, h)) ==> Self::v_inv(m)
                && Self::get_result_res(m, h) == Ok::<Option<u64>, EmuError>(None::<u64>),
    ;

    /// Drain liveness: handing out a batch strictly lowers the pending
    /// measure, and writing a result back never raises it, so the emulator's
    /// drain always terminates.
    proof fn lemma_drain_progress(pre: Self::V, h: u64, value: u64)
        requires
            Self::v_inv(pre),
        ensures
            Self::next_ops_res(pre) matches Ok((m, b)) ==> (b is Some ==> Self::pending(m)
                < Self::pending(pre)),
            Self::set_result_res(pre, h, value) matches Ok(m) ==> Self::pending(m)
                <= Self::pending(pre),
    ;

    /// Every other transition keeps the model well-formed.
    proof fn lemma_step_wf(
        pre: Self::V,
        g: GateOp,
        q: u64,
        h: u64,
        value: u64,
        qubits: Seq<u64>,
        sleep_ns: u64,
        tag: u64,
        data: Seq<u8>,
        shot_id: u64,
        seed: u64,
    )
        requires
            Self::v_inv(pre),
        ensures
            Self::qalloc_res(pre) matches Ok((m, id)) ==> Self::v_inv(m),
            Self::qfree_res(pre, q) matches Ok(m) ==> Self::v_inv(m),
            Self::gate_res(pre, g) matches Ok(m) ==> Self::v_inv(m),
            Self::force_res(pre, h) matches Ok(m) ==> Self::v_inv(m),
            Self::set_result_res(pre, h, value) matches Ok(m) ==> Self::v_inv(m),
            Self::incref_res(pre, h) matches Ok(m) ==> Self::v_inv(m),
            Self::decref_res(pre, h) matches Ok(m) ==> Self::v_inv(m),
            Self::local_barrier_res(pre, qubits, sleep_ns) matches Ok(m) ==> Self::v_inv(m),
            Self::global_barrier_res(pre, sleep_ns) matches Ok(m) ==> Self::v_inv(m),
            Self::custom_res(pre, tag, data) matches Ok((m, v)) ==> Self::v_inv(m),
            Self::shot_start_res(pre, shot_id, seed) matches Ok(m) ==> Self::v_inv(m),
            Self::shot_end_res(pre) matches Ok(m) ==> Self::v_inv(m),
    ;

    /// Try to allocate a free qubit; `u64::MAX` reports exhaustion.
    fn qalloc(&mut self) -> (r: Result<u64, EmuError>)
        requires
            old(self).inv(),
        ensures
            final(self).inv(),
            match Self::qalloc_res(old(self)@) {
                Ok((m, id)) => r == Ok::<u64, EmuError>(id) && final(self)@ == m,
                Err(e) => r == Err::<u64, EmuError>(e) && final(self)@ == old(self)@,
            },
    ;

    /// Free an allocated qubit.
    fn qfree(&mut self, qubit_id: u64) -> (r: Result<(), EmuError>)
        requires
            old(self).inv(),
        ensures
            final(self).inv(),
            match Self::qfree_res(old(self)@, qubit_id) {
                Ok(m) => r is Ok && final(self)@ == m,
                Err(e) => r == Err::<(), EmuError>(e) && final(self)@ == old(self)@,
            },
    ;

    /// Schedule an RXY gate.
    fn rxy_gate(&mut self, qubit_id: u64, theta: u64, phi: u64) -> (r: Result<(), EmuError>)
        requires
            old(self).inv(),
        ensures
            final(self).inv(),
            match Self::gate_res(old(self)@, GateOp::Rxy { qubit: qubit_id, theta, phi }) {
                Ok(m) => r is Ok && final(self)@ == m,
                Err(e) => r == Err::<(), EmuError>(e) && final(self)@ == old(self)@,
            },
    ;

    /// Schedule an RZ gate.
    fn rz_gate(&mut self, qubit_id: u64, theta: u64) -> (r: Result<(), EmuError>)
        requires
            old(self).inv(),
        ensures
            final(self).inv(),
            match Self::gate_res(old(self)@, GateOp::Rz { qubit: qubit_id, theta }) {
                Ok(m) => r is Ok && final(self)@ == m,
                Err(e) => r == Err::<(), EmuError>(e) && final(self)@ == old(self)@,
            },
    ;

    /// Schedule an RZZ gate.
    fn rzz_gate(&mut self, qubit_id_1: u64, qubit_id_2: u64, theta: u64) -> (r: Result<
        (),
        EmuError,
    >)
        requires
            old(self).inv(),
        ensures
            final(self).inv(),
            match Self::gate_res(
                old(self)@,
                GateOp::Rzz { qubit_1: qubit_id_1, qubit_2: qubit_id_2, theta },
            ) {
                Ok(m) => r is Ok && final(self)@ == m,
                Err(e) => r == Err::<(), EmuError>(e) && final(self)@ == old(self)@,
            },
    ;

    /// Schedule a TK2 gate.
    fn tk2_gate(
        &mut self,
        qubit_id_1: u64,
        qubit_id_2: u64,
        alpha: u64,
        beta: u64,
        gamma: u64,
    ) -> (r: Result<(), EmuError>)
        requires
            old(self).inv(),
        ensures
            final(self).inv(),
            match Self::gate_res(
                old(self)@,
                GateOp::Tk2 { qubit_1: qubit_id_1, qubit_2: qubit_id_2, alpha, beta, gamma },
            ) {
                Ok(m) => r is Ok && final(self)@ == m,
                Err(e) => r == Err::<(), EmuError>(e) && final(self)@ == old(self)@,
            },
    ;

    /// Schedule a twin RXY gate.
    fn twin_rxy_gate(&mut self, qubit_id_1: u64, qubit_id_2: u64, theta: u64, phi: u64) -> (r:
        Result<(), EmuError>)
        requires
            old(self).inv(),
        ensures
            final(self).inv(),
            match Self::gate_res(
                old(self)@,
                GateOp::TwinRxy { qubit_1: qubit_id_1, qubit_2: qubit_id_2, theta, phi },
            ) {
                Ok(m) => r is Ok && final(self)@ == m,
                Err(e) => r == Err::<(), EmuError>(e) && final(self)@ == old(self)@,
            },
    ;

    /// Schedule an RPP gate.
    fn rpp_gate(&mut self, qubit_id_1: u64, qubit_id_2: u64, theta: u64, phi: u64) -> (r: Result<
        (),
        EmuError,
    >)
        requires
            old(self).inv(),
        ensures
            final(self).inv(),
            match Self::gate_res(
                old(self)@,
                GateOp::Rpp { qubit_1: qubit_id_1, qubit_2: qubit_id_2, theta, phi },
            ) {
                Ok(m) => r is Ok && final(self)@ == m,
                Err(e) => r == Err::<(), EmuError>(e) && final(self)@ == old(self)@,
            },
    ;

    /// Schedule a reset.
    fn reset(&mut self, qubit_id: u64) -> (r: Result<(), EmuError>)
        requires
            old(self).inv(),
        ensures
            final(self).inv(),
            match Self::gate_res(old(self)@, GateOp::Reset { qubit: qubit_id }) {
                Ok(m) => r is Ok && final(self)@ == m,
                Err(e) => r == Err::<(), EmuError>(e) && final(self)@ == old(self)@,
            },
    ;

    /// Schedule a measurement and return a fresh result handle with
    /// reference count 1.
    fn measure(&mut self, qubit_id: u64) -> (r: Result<u64, EmuError>)
        requires
            old(self).inv(),
        ensures
            final(self).inv(),
            match Self::measure_res(old(self)@, qubit_id, false) {
                Ok((m, h)) => r == Ok::<u64, EmuError>(h) && final(self)@ == m,
                Err(e) => r == Err::<u64, EmuError>(e) && final(self)@ == old(self)@,
            },
    ;

    /// Schedule a leakage-detecting measurement and return a fresh result
    /// handle with reference count 1.
    fn measure_leaked(&mut self, qubit_id: u64) -> (r: Result<u64, EmuError>)
        requires
            old(self).inv(),
        ensures
            final(self).inv(),
            match Self::measure_res(old(self)@, qubit_id, true) {
                Ok((m, h)) => r == Ok::<u64, EmuError>(h) && final(self)@ == m,
                Err(e) => r == Err::<u64, EmuError>(e) && final(self)@ == old(self)@,
            },
    ;

    /// Hint that a result is needed: after the queue drains, a read of the
    /// handle must find it resolved.
    fn force_result(&mut self, result_id: u64) -> (r: Result<(), EmuError>)
        requires
            old(self).inv(),
        ensures
            final(self).inv(),
            match Self::force_res(old(self)@, result_id) {
                Ok(m) => r is Ok && final(self)@ == m,
                Err(e) => r == Err::<(), EmuError>(e) && final(self)@ == old(self)@,
            },
    ;

    /// Read a boolean result; `None` while unresolved.
    fn get_bool_result(&mut self, result_id: u64) -> (r: Result<Option<bool>, EmuError>)
        requires
            old(self).inv(),
        ensures
            final(self).inv(),
            final(self)@ == old(self)@,
            match Self::get_result_res(old(self)@, result_id) {
                Ok(v) => r == Ok::<Option<bool>, EmuError>(
                    match v {
                        Some(x) => Some(x > 0),
                        None => None,
                    },
                ),
                Err(e) => r == Err::<Option<bool>, EmuError>(e),
            },
    ;

    /// Read a 64-bit result; `None` while unresolved.
    fn get_u64_result(&mut self, result_id: u64) -> (r: Result<Option<u64>, EmuError>)
        requires
            old(self).inv(),
        ensures
            final(self).inv(),
            final(self)@ == old(self)@,
            match Self::get_result_res(old(self)@, result_id) {
                Ok(v) => r == Ok::<Option<u64>, EmuError>(v),
                Err(e) => r == Err::<Option<u64>, EmuError>(e),
            },
    ;

    /// Write a boolean result back into its future.
    fn set_bool_result(&mut self, result_id: u64, value: bool) -> (r: Result<(), EmuError>)
        requires
            old(self).inv(),
        ensures
            final(self).inv(),
            match Self::set_result_res(
                old(self)@,
                result_id,
                if value {
                    1
                } else {
                    0
                },
            ) {
                Ok(m) => r is Ok && final(self)@ == m,
                Err(e) => r == Err::<(), EmuError>(e) && final(self)@ == old(self)@,
            },
    ;

    /// Write a 64-bit result back into its future.
    fn set_u64_result(&mut self, result_id: u64, value: u64) -> (r: Result<(), EmuError>)
        requires
            old(self).inv(),
        ensures
            final(self).inv(),
            match Self::set_result_res(old(self)@, result_id, value) {
                Ok(m) => r is Ok && final(self)@ == m,
                Err(e) => r == Err::<(), EmuError>(e) && final(self)@ == old(self)@,
            },
    ;

    /// Raise a handle's reference count.
    fn increment_future_refcount(&mut self, result_id: u64) -> (r: Result<(), EmuError>)
        requires
            old(self).inv(),
        ensures
            final(self).inv(),
            match Self::incref_res(old(self)@, result_id) {
                Ok(m) => r is Ok && final(self)@ == m,
                Err(e) => r == Err::<(), EmuError>(e) && final(self)@ == old(self)@,
            },
    ;

    /// Lower a handle's reference count; at zero the handle's life ends.
    fn decrement_future_refcount(&mut self, result_id: u64) -> (r: Result<(), EmuError>)
        requires
            old(self).inv(),
        ensures
            final(self).inv(),
            match Self::decref_res(old(self)@, result_id) {
                Ok(m) => r is Ok && final(self)@ == m,
                Err(e) => r == Err::<(), EmuError>(e) && final(self)@ == old(self)@,
            },
    ;

    /// Flush all pending operations involving the given qubits.
    fn local_barrier(&mut self, qubits: &Vec<u64>, sleep_ns: u64) -> (r: Result<(), EmuError>)
        requires
            old(self).inv(),
        ensures
            final(self).inv(),
            match Self::local_barrier_res(old(self)@, qubits@, sleep_ns) {
                Ok(m) => r is Ok && final(self)@ == m,
                Err(e) => r == Err::<(), EmuError>(e) && final(self)@ == old(self)@,
            },
    ;

    /// Flush all pending operations.
    fn global_barrier(&mut self, sleep_ns: u64) -> (r: Result<(), EmuError>)
        requires
            old(self).inv(),
        ensures
            final(self).inv(),
            match Self::global_barrier_res(old(self)@, sleep_ns) {
                Ok(m) => r is Ok && final(self)@ == m,
                Err(e) => r == Err::<(), EmuError>(e) && final(self)@ == old(self)@,
            },
    ;

    /// Hand out the next batch of operations, or `None` when nothing is
    /// pending now. A returned batch is never empty.
    fn get_next_operations(&mut self) -> (r: Result<Option<BatchOperation>, EmuError>)
        requires
            old(self).inv(),
        ensures
            final(self).inv(),
            match Self::next_ops_res(old(self)@) {
                Ok((m, b)) => final(self)@ == m && (r matches Ok(rb) && (match (b, rb) {
                    (Some(bm), Some(batch)) => batch@ == bm,
                    (None, None) => true,
                    _ => false,
                })),
                Err(e) => r == Err::<Option<BatchOperation>, EmuError>(e) && final(self)@ == old(
                    self,
                )@,
            },
    ;

    /// Forward a runtime-specific call.
    fn custom_call(&mut self, tag: u64, data: &Vec<u8>) -> (r: Result<u64, EmuError>)
        requires
            old(self).inv(),
        ensures
            final(self).inv(),
            match Self::custom_res(old(self)@, tag, data@) {
                Ok((m, v)) => r == Ok::<u64, EmuError>(v) && final(self)@ == m,
                Err(e) => r == Err::<u64, EmuError>(e) && final(self)@ == old(self)@,
            },
    ;

    /// Prepare to begin a shot, resetting all per-shot state.
    fn shot_start(&mut self, shot_id: u64, seed: u64) -> (r: Result<(), EmuError>)
        requires
            old(self).inv(),
        ensures
            final(self).inv(),
            match Self::shot_start_res(old(self)@, shot_id, seed) {
                Ok(m) => r is Ok && final(self)@ == m,
                Err(e) => r == Err::<(), EmuError>(e) && final(self)@ == old(self)@,
            },
    ;

    /// End the current shot, clearing queues and futures.
    fn shot_end(&mut self) -> (r: Result<(), EmuError>)
        requires
            old(self).inv(),
        ensures
            final(self).inv(),
            match Self::shot_end_res(old(self)@) {
                Ok(m) => r is Ok && final(self)@ == m,
                Err(e) => r == Err::<(), EmuError>(e) && final(self)@ == old(self)@,
            },
    ;

    /// Enumerate diagnostics — exactly the model's metric table.
    fn get_metric(&mut self, nth_metric: u8) -> (r: Result<Option<(String, MetricValue)>, EmuError>)
        requires
            old(self).inv(),
        ensures
            final(self).inv(),
            final(self)@ == old(self)@,
            match (r, Self::metric_res(old(self)@, nth_metric)) {
                (Ok(Some((tag, v))), Some((stag, sv))) => tag@ == stag && v == sv,
                (Ok(None), None) => true,
                _ => false,
            },
    ;

    /// Signal that the instance should clean up, releasing its per-shot
    /// state; no call may follow.
    fn exit(&mut self) -> (r: Result<(), EmuError>)
        requires
            old(self).inv(),
        ensures
            final(self).inv(),
            match Self::exit_res(old(self)@) {
                Ok(m) => r is Ok && final(self)@ == m,
                Err(e) => r == Err::<(), EmuError>(e) && final(self)@ == old(self)@,
            },
    ;
}

} // verus!
