//! The lazy reference runtime: scheduled operations accumulate in a queue
//! and none is handed out until a barrier or a forced read widens the flush
//! window. The window is a count of queue entries ready for emission;
//! `get_next_operations` hands out one entry per call while the window is
//! open and reports "nothing now" once it closes.

use vstd::prelude::*;

use crate::errors::EmuError;
use crate::future_store::{FutureSlot, FutureStore};
use crate::ops::{BatchModel, BatchOperation, Operation};
use crate::runtime::RuntimeInterface;
use crate::simulator::GateOp;
use crate::utils::MetricValue;

verus! {

/// Whether an operation touches any of the listed qubits. `Custom`
/// operations touch none.
pub open spec fn op_uses(op: Operation, qubits: Seq<u64>) -> bool {
    match op {
        Operation::Measure { qubit_id, .. } => qubits.contains(qubit_id),
        Operation::MeasureLeaked { qubit_id, .. } => qubits.contains(qubit_id),
        Operation::Reset { qubit_id } => qubits.contains(qubit_id),
        Operation::RXYGate { qubit_id, .. } => qubits.contains(qubit_id),
        Operation::RZGate { qubit_id, .. } => qubits.contains(qubit_id),
        Operation::RZZGate { qubit_id_1, qubit_id_2, .. } => qubits.contains(qubit_id_1)
            || qubits.contains(qubit_id_2),
        Operation::TwinRXYGate { qubit_id_1, qubit_id_2, .. } => qubits.contains(qubit_id_1)
            || qubits.contains(qubit_id_2),
        Operation::RPPGate { qubit_id_1, qubit_id_2, .. } => qubits.contains(qubit_id_1)
            || qubits.contains(qubit_id_2),
        Operation::TK2Gate { qubit_id_1, qubit_id_2, .. } => qubits.contains(qubit_id_1)
            || qubits.contains(qubit_id_2),
        Operation::Custom { .. } => false,
    }
}

/// Whether any operation of the batch touches any of the listed qubits.
pub open spec fn batch_uses(b: BatchModel, qubits: Seq<u64>) -> bool {
    exists|j: int| 0 <= j < b.ops.len() && op_uses(#[trigger] b.ops[j], qubits)
}

/// The largest queue index at or after `lo` whose batch touches any of the
/// listed qubits.
pub open spec fn last_use(queue: Seq<BatchModel>, qubits: Seq<u64>, lo: int) -> Option<int>
    decreases queue.len(),
{
    if queue.len() == 0 || queue.len() <= lo {
        None
    } else if batch_uses(queue.last(), qubits) {
        Some(queue.len() - 1)
    } else {
        last_use(queue.drop_last(), qubits, lo)
    }
}

/// Whether the batch carries a measurement whose result handle is `h`.
pub open spec fn batch_measures(b: BatchModel, h: u64) -> bool {
    exists|j: int|
        0 <= j < b.ops.len() && (match #[trigger] b.ops[j] {
            Operation::Measure { result_id, .. } => result_id == h,
            Operation::MeasureLeaked { result_id, .. } => result_id == h,
            _ => false,
        })
}

/// The largest queue index whose batch measures into handle `h`.
pub open spec fn last_measure(queue: Seq<BatchModel>, h: u64) -> Option<int>
    decreases queue.len(),
{
    if queue.len() == 0 {
        None
    } else if batch_measures(queue.last(), h) {
        Some(queue.len() - 1)
    } else {
        last_measure(queue.drop_last(), h)
    }
}

/// The mathematical model of the lazy runtime.
#[verifier::ext_equal]
pub struct LazyRuntimeModel {
    /// Which qubits are currently allocated.
    pub qubits: Seq<bool>,
    /// The batches scheduled so far, oldest first.
    pub queue: Seq<BatchModel>,
    /// How many queue entries the flush window covers: only these may be
    /// handed out.
    pub flush: nat,
    /// The future store, keyed by result handle.
    pub futures: Seq<FutureSlot>,
    /// The time stamped onto emitted batches.
    pub start: u64,
}

impl LazyRuntimeModel {
    /// The model after appending one operation as its own batch, outside the
    /// flush window.
    pub open spec fn pushed(self, op: Operation) -> LazyRuntimeModel {
        LazyRuntimeModel {
            queue: self.queue.push(BatchModel { ops: seq![op], start: self.start, duration: 0 }),
            ..self
        }
    }
}

/// The lazy reference runtime.
pub struct LazyRuntime {
    qubits: Vec<bool>,
    operation_queue: Vec<BatchOperation>,
    flush_size: usize,
    future_results: FutureStore,
    start: u64,
}

impl View for LazyRuntime {
    type V = LazyRuntimeModel;

    closed spec fn view(&self) -> LazyRuntimeModel {
        LazyRuntimeModel {
            qubits: self.qubits@,
            queue: self.operation_queue@.map_values(|b: BatchOperation| b@),
            flush: self.flush_size as nat,
            futures: self.future_results.slots@,
            start: self.start,
        }
    }
}

/// Whether the vector holds the value.
fn contains_u64(v: &Vec<u64>, x: u64) -> (r: bool)
    ensures
        r == v@.contains(x),
{
    let mut i: usize = 0;
    while i < v.len()
        invariant
            i <= v.len(),
            forall|k: int| 0 <= k < i ==> v@[k] != x,
        decreases v.len() - i,
    {
        if v[i] == x {
            return true;
        }
        i = i + 1;
    }
    proof {
        assert(!v@.contains(x));
    }
    false
}

/// Whether any operation of the batch touches any of the listed qubits.
fn batch_uses_exec(b: &BatchOperation, qubits: &Vec<u64>) -> (r: bool)
    ensures
        r == batch_uses(b@, qubits@),
{
    let mut j: usize = 0;
    let n = b.len();
    while j < n
        invariant
            j <= n,
            n == b@.ops.len(),
            forall|k: int| 0 <= k < j ==> !op_uses(#[trigger] b@.ops[k], qubits@),
        decreases n - j,
    {
        let uses = match b.op_at(j) {
            Operation::Measure { qubit_id, .. } => contains_u64(qubits, *qubit_id),
            Operation::MeasureLeaked { qubit_id, .. } => contains_u64(qubits, *qubit_id),
            Operation::Reset { qubit_id } => contains_u64(qubits, *qubit_id),
            Operation::RXYGate { qubit_id, .. } => contains_u64(qubits, *qubit_id),
            Operation::RZGate { qubit_id, .. } => contains_u64(qubits, *qubit_id),
            Operation::RZZGate { qubit_id_1, qubit_id_2, .. } => contains_u64(qubits, *qubit_id_1)
                || contains_u64(qubits, *qubit_id_2),
            Operation::TwinRXYGate { qubit_id_1, qubit_id_2, .. } => contains_u64(
                qubits,
                *qubit_id_1,
            ) || contains_u64(qubits, *qubit_id_2),
            Operation::RPPGate { qubit_id_1, qubit_id_2, .. } => contains_u64(qubits, *qubit_id_1)
                || contains_u64(qubits, *qubit_id_2),
            Operation::TK2Gate { qubit_id_1, qubit_id_2, .. } => contains_u64(qubits, *qubit_id_1)
                || contains_u64(qubits, *qubit_id_2),
            Operation::Custom { .. } => false,
        };
        if uses {
            return true;
        }
        j = j + 1;
    }
    false
}

/// Whether the batch carries a measurement whose result handle is `h`.
fn batch_measures_exec(b: &BatchOperation, h: u64) -> (r: bool)
    ensures
        r == batch_measures(b@, h),
{
    let mut j: usize = 0;
    let n = b.len();
    while j < n
        invariant
            j <= n,
            n == b@.ops.len(),
            forall|k: int|
                0 <= k < j ==> !(match #[trigger] b@.ops[k] {
                    Operation::Measure { result_id, .. } => result_id == h,
                    Operation::MeasureLeaked { result_id, .. } => result_id == h,
                    _ => false,
                }),
        decreases n - j,
    {
        let found = match b.op_at(j) {
            Operation::Measure { result_id, .. } => *result_id == h,
            Operation::MeasureLeaked { result_id, .. } => *result_id == h,
            _ => false,
        };
        if found {
            return true;
        }
        j = j + 1;
    }
    false
}

/// Extending the scan by one batch: the last use over one more entry is that
/// entry when it matches, and whatever it was before otherwise.
proof fn lemma_last_use_extend(queue: Seq<BatchModel>, qubits: Seq<u64>, lo: int, i: int)
    requires
        0 <= lo,
        lo <= i < queue.len(),
    ensures
        last_use(queue.take(i + 1), qubits, lo) == (if batch_uses(queue[i], qubits) {
            Some(i)
        } else {
            last_use(queue.take(i), qubits, lo)
        }),
{
    assert(queue.take(i + 1).drop_last() =~= queue.take(i));
    assert(queue.take(i + 1).last() == queue[i]);
}

/// The same extension fact for the measurement scan.
proof fn lemma_last_measure_extend(queue: Seq<BatchModel>, h: u64, i: int)
    requires
        0 <= i < queue.len(),
    ensures
        last_measure(queue.take(i + 1), h) == (if batch_measures(queue[i], h) {
            Some(i)
        } else {
            last_measure(queue.take(i), h)
        }),
{
    assert(queue.take(i + 1).drop_last() =~= queue.take(i));
    assert(queue.take(i + 1).last() == queue[i]);
}

/// A scan that starts below `lo` finds nothing below `lo`.
proof fn lemma_last_use_none_below(queue: Seq<BatchModel>, qubits: Seq<u64>, lo: int)
    requires
        0 <= lo,
    ensures
        last_use(queue, qubits, lo) matches Some(i) ==> lo <= i < queue.len(),
    decreases queue.len(),
{
    if queue.len() > lo {
        if !batch_uses(queue.last(), qubits) {
            lemma_last_use_none_below(queue.drop_last(), qubits, lo);
        }
    }
}

impl LazyRuntime {
    /// Queue one operation as a batch of its own, outside the flush window.
    fn push_op(&mut self, op: Operation)
        requires
            old(self).inv(),
        ensures
            final(self).inv(),
            final(self)@ == old(self)@.pushed(op),
    {
        let ghost old_model = self@;
        let ghost op_spec = op;
        let start = self.start;
        let mut ops: Vec<Operation> = Vec::new();
        ops.push(op);
        proof {
            assert(ops@ =~= seq![op_spec]);
        }
        self.operation_queue.push(BatchOperation::new(ops, start, 0));
        proof {
            assert(self.operation_queue@.map_values(|b: BatchOperation| b@)
                =~= old_model.queue.push(
                BatchModel { ops: seq![op_spec], start: old_model.start, duration: 0 },
            ));
            assert(self@ =~= old_model.pushed(op_spec));
        }
    }
}

impl RuntimeInterface for LazyRuntime {
    closed spec fn inv(&self) -> bool {
        Self::v_inv(self@)
    }

    open spec fn v_inv(m: LazyRuntimeModel) -> bool {
        &&& m.flush <= m.queue.len()
        &&& forall|i: int| 0 <= i < m.queue.len() ==> #[trigger] m.queue[i].ops.len() > 0
    }

    open spec fn qalloc_res(pre: LazyRuntimeModel) -> Result<(LazyRuntimeModel, u64), EmuError> {
        match crate::runtime_simple::first_inactive(pre.qubits, 0) {
            Some(i) => Ok(
                (LazyRuntimeModel { qubits: pre.qubits.update(i, true), ..pre }, i as u64),
            ),
            None => Ok((pre, u64::MAX)),
        }
    }

    open spec fn qfree_res(pre: LazyRuntimeModel, qubit_id: u64) -> Result<
        LazyRuntimeModel,
        EmuError,
    > {
        if qubit_id >= pre.qubits.len() {
            Err(EmuError::QubitOutOfBounds)
        } else {
            Ok(LazyRuntimeModel { qubits: pre.qubits.update(qubit_id as int, false), ..pre })
        }
    }

    open spec fn gate_res(pre: LazyRuntimeModel, g: GateOp) -> Result<LazyRuntimeModel, EmuError> {
        match g {
            GateOp::Rxy { qubit, theta, phi } => if qubit >= pre.qubits.len() {
                Err(EmuError::QubitOutOfBounds)
            } else if pre.qubits[qubit as int] {
                Ok(pre.pushed(Operation::RXYGate { qubit_id: qubit, theta, phi }))
            } else {
                Err(EmuError::QubitNotActive)
            },
            GateOp::Rz { qubit, theta } => if qubit >= pre.qubits.len() {
                Err(EmuError::QubitOutOfBounds)
            } else if pre.qubits[qubit as int] {
                Ok(pre.pushed(Operation::RZGate { qubit_id: qubit, theta }))
            } else {
                Err(EmuError::QubitNotActive)
            },
            GateOp::Rzz { qubit_1, qubit_2, theta } => if qubit_1 >= pre.qubits.len() || qubit_2
                >= pre.qubits.len() {
                Err(EmuError::QubitOutOfBounds)
            } else {
                Ok(
                    pre.pushed(
                        Operation::RZZGate { qubit_id_1: qubit_1, qubit_id_2: qubit_2, theta },
                    ),
                )
            },
            GateOp::Reset { qubit } => if qubit >= pre.qubits.len() {
                Err(EmuError::QubitOutOfBounds)
            } else {
                Ok(pre.pushed(Operation::Reset { qubit_id: qubit }))
            },
            _ => Err(EmuError::Unsupported),
        }
    }

    open spec fn measure_res(pre: LazyRuntimeModel, qubit_id: u64, leaked: bool) -> Result<
        (LazyRuntimeModel, u64),
        EmuError,
    > {
        if qubit_id >= pre.qubits.len() {
            Err(EmuError::QubitOutOfBounds)
        } else if pre.futures.len() >= u64::MAX {
            Err(EmuError::ContractViolation)
        } else {
            let h = pre.futures.len() as u64;
            let op = if leaked {
                Operation::MeasureLeaked { qubit_id, result_id: h }
            } else {
                Operation::Measure { qubit_id, result_id: h }
            };
            Ok(
                (
                    LazyRuntimeModel {
                        futures: pre.futures.push(
                            FutureSlot { refcount: 1, resolved: false, value: 0 },
                        ),
                        ..pre
                    }.pushed(op),
                    h,
                ),
            )
        }
    }

    open spec fn force_res(pre: LazyRuntimeModel, result_id: u64) -> Result<
        LazyRuntimeModel,
        EmuError,
    > {
        if result_id >= pre.futures.len() {
            Err(EmuError::InvalidResultHandle)
        } else {
            match last_measure(pre.queue, result_id) {
                Some(i) => Ok(
                    LazyRuntimeModel {
                        flush: if pre.flush >= i + 1 {
                            pre.flush
                        } else {
                            (i + 1) as nat
                        },
                        ..pre
                    },
                ),
                None => Err(EmuError::InvalidResultHandle),
            }
        }
    }

    open spec fn get_result_res(pre: LazyRuntimeModel, result_id: u64) -> Result<
        Option<u64>,
        EmuError,
    > {
        if result_id < pre.futures.len() && pre.futures[result_id as int].refcount > 0 {
            if pre.futures[result_id as int].resolved {
                Ok(Some(pre.futures[result_id as int].value))
            } else {
                Ok(None)
            }
        } else {
            Err(EmuError::InvalidResultHandle)
        }
    }

    open spec fn set_result_res(pre: LazyRuntimeModel, result_id: u64, value: u64) -> Result<
        LazyRuntimeModel,
        EmuError,
    > {
        if !(result_id < pre.futures.len() && pre.futures[result_id as int].refcount > 0) {
            Err(EmuError::InvalidResultHandle)
        } else if pre.futures[result_id as int].resolved {
            Err(EmuError::ContractViolation)
        } else {
            Ok(
                LazyRuntimeModel {
                    futures: pre.futures.update(
                        result_id as int,
                        FutureSlot { resolved: true, value, ..pre.futures[result_id as int] },
                    ),
                    ..pre
                },
            )
        }
    }

    open spec fn incref_res(pre: LazyRuntimeModel, result_id: u64) -> Result<
        LazyRuntimeModel,
        EmuError,
    > {
        if !(result_id < pre.futures.len() && pre.futures[result_id as int].refcount > 0) {
            Err(EmuError::InvalidResultHandle)
        } else if pre.futures[result_id as int].refcount == u64::MAX {
            Err(EmuError::ContractViolation)
        } else {
            Ok(
                LazyRuntimeModel {
                    futures: pre.futures.update(
                        result_id as int,
                        FutureSlot {
                            refcount: (pre.futures[result_id as int].refcount + 1) as u64,
                            ..pre.futures[result_id as int]
                        },
                    ),
                    ..pre
                },
            )
        }
    }

    open spec fn decref_res(pre: LazyRuntimeModel, result_id: u64) -> Result<
        LazyRuntimeModel,
        EmuError,
    > {
        if !(result_id < pre.futures.len() && pre.futures[result_id as int].refcount > 0) {
            Err(EmuError::InvalidResultHandle)
        } else {
            Ok(
                LazyRuntimeModel {
                    futures: pre.futures.update(
                        result_id as int,
                        FutureSlot {
                            refcount: (pre.futures[result_id as int].refcount - 1) as u64,
                            ..pre.futures[result_id as int]
                        },
                    ),
                    ..pre
                },
            )
        }
    }

    open spec fn local_barrier_res(pre: LazyRuntimeModel, qubits: Seq<u64>, sleep_ns: u64) -> Result<
        LazyRuntimeModel,
        EmuError,
    > {
        match last_use(pre.queue, qubits, pre.flush as int) {
            Some(i) => Ok(
                LazyRuntimeModel {
                    flush: if pre.flush >= i + 1 {
                        pre.flush
                    } else {
                        (i + 1) as nat
                    },
                    ..pre
                },
            ),
            None => Ok(pre),
        }
    }

    open spec fn global_barrier_res(pre: LazyRuntimeModel, sleep_ns: u64) -> Result<
        LazyRuntimeModel,
        EmuError,
    > {
        Ok(LazyRuntimeModel { flush: pre.queue.len(), ..pre })
    }

    open spec fn next_ops_res(pre: LazyRuntimeModel) -> Result<
        (LazyRuntimeModel, Option<BatchModel>),
        EmuError,
    > {
        if pre.flush == 0 {
            Ok((pre, None))
        } else {
            Ok(
                (
                    LazyRuntimeModel {
                        queue: pre.queue.subrange(1, pre.queue.len() as int),
                        flush: (pre.flush - 1) as nat,
                        ..pre
                    },
                    Some(pre.queue[0]),
                ),
            )
        }
    }

    open spec fn custom_res(pre: LazyRuntimeModel, tag: u64, data: Seq<u8>) -> Result<
        (LazyRuntimeModel, u64),
        EmuError,
    > {
        Err(EmuError::Unsupported)
    }

    open spec fn shot_start_res(pre: LazyRuntimeModel, shot_id: u64, seed: u64) -> Result<
        LazyRuntimeModel,
        EmuError,
    > {
        Ok(pre)
    }

    open spec fn shot_end_res(pre: LazyRuntimeModel) -> Result<LazyRuntimeModel, EmuError> {
        Ok(
            LazyRuntimeModel {
                qubits: Seq::new(pre.qubits.len(), |i: int| false),
                queue: Seq::empty(),
                flush: 0,
                futures: Seq::empty(),
                ..pre
            },
        )
    }

    open spec fn pending(m: LazyRuntimeModel) -> nat {
        m.flush
    }

    open spec fn metric_res(pre: LazyRuntimeModel, nth_metric: u8) -> Option<
        (Seq<char>, MetricValue),
    > {
        None
    }

    open spec fn exit_res(pre: LazyRuntimeModel) -> Result<LazyRuntimeModel, EmuError> {
        Ok(
            LazyRuntimeModel {
                qubits: Seq::empty(),
                queue: Seq::empty(),
                flush: 0,
                futures: Seq::empty(),
                ..pre
            },
        )
    }

    proof fn lemma_inv_model(&self) {
    }

    proof fn lemma_batch_nonempty(pre: LazyRuntimeModel) {
        if pre.flush > 0 {
            assert(forall|i: int|
                0 <= i < pre.queue.subrange(1, pre.queue.len() as int).len()
                    ==> #[trigger] pre.queue.subrange(1, pre.queue.len() as int)[i].ops.len() > 0);
        }
    }

    proof fn lemma_measure_fresh(pre: LazyRuntimeModel, qubit_id: u64, leaked: bool) {
    }

    proof fn lemma_drain_progress(pre: LazyRuntimeModel, h: u64, value: u64) {
    }

    proof fn lemma_step_wf(
        pre: LazyRuntimeModel,
        g: GateOp,
        q: u64,
        h: u64,
        value: u64,
        qubits: Seq<u64>,
        sleep_ns: u64,
        tag: u64,
        data: Seq<u8>,
        shot_id: u64,
        seed: u64,
    ) {
        lemma_last_use_none_below(pre.queue, qubits, pre.flush as int);
        if pre.futures.len() > h {
            match last_measure(pre.queue, h) {
                Some(i) => {
                    lemma_last_measure_in_range(pre.queue, h);
                },
                None => {},
            }
        }
    }

    fn qalloc(&mut self) -> (r: Result<u64, EmuError>) {
        let ghost qs = self@.qubits;
        let mut i: usize = 0;
        while i < self.qubits.len()
            invariant
                i <= self.qubits.len(),
                self@ == old(self)@,
                qs == old(self)@.qubits,
                self.inv(),
                forall|k: int| 0 <= k < i ==> qs[k],
            decreases self.qubits.len() - i,
        {
            if !self.qubits[i] {
                proof {
                    crate::runtime_simple::lemma_first_inactive_skip(qs, i as int);
                }
                self.qubits.set(i, true);
                return Ok(i as u64);
            }
            i = i + 1;
        }
        proof {
            crate::runtime_simple::lemma_first_inactive_skip(qs, qs.len() as int);
        }
        Ok(u64::MAX)
    }

    fn qfree(&mut self, qubit_id: u64) -> (r: Result<(), EmuError>) {
        if qubit_id >= self.qubits.len() as u64 {
            return Err(EmuError::QubitOutOfBounds);
        }
        self.qubits.set(qubit_id as usize, false);
        Ok(())
    }

    fn rxy_gate(&mut self, qubit_id: u64, theta: u64, phi: u64) -> (r: Result<(), EmuError>) {
        if qubit_id >= self.qubits.len() as u64 {
            return Err(EmuError::QubitOutOfBounds);
        }
        if !self.qubits[qubit_id as usize] {
            return Err(EmuError::QubitNotActive);
        }
        self.push_op(Operation::RXYGate { qubit_id, theta, phi });
        Ok(())
    }

    fn rz_gate(&mut self, qubit_id: u64, theta: u64) -> (r: Result<(), EmuError>) {
        if qubit_id >= self.qubits.len() as u64 {
            return Err(EmuError::QubitOutOfBounds);
        }
        if !self.qubits[qubit_id as usize] {
            return Err(EmuError::QubitNotActive);
        }
        self.push_op(Operation::RZGate { qubit_id, theta });
        Ok(())
    }

    fn rzz_gate(&mut self, qubit_id_1: u64, qubit_id_2: u64, theta: u64) -> (r: Result<
        (),
        EmuError,
    >) {
        if qubit_id_1 >= self.qubits.len() as u64 || qubit_id_2 >= self.qubits.len() as u64 {
            return Err(EmuError::QubitOutOfBounds);
        }
        self.push_op(Operation::RZZGate { qubit_id_1, qubit_id_2, theta });
        Ok(())
    }

    fn tk2_gate(
        &mut self,
        qubit_id_1: u64,
        qubit_id_2: u64,
        alpha: u64,
        beta: u64,
        gamma: u64,
    ) -> (r: Result<(), EmuError>) {
        Err(EmuError::Unsupported)
    }

    fn twin_rxy_gate(&mut self, qubit_id_1: u64, qubit_id_2: u64, theta: u64, phi: u64) -> (r:
        Result<(), EmuError>) {
        Err(EmuError::Unsupported)
    }

    fn rpp_gate(&mut self, qubit_id_1: u64, qubit_id_2: u64, theta: u64, phi: u64) -> (r: Result<
        (),
        EmuError,
    >) {
        Err(EmuError::Unsupported)
    }

    fn reset(&mut self, qubit_id: u64) -> (r: Result<(), EmuError>) {
        if qubit_id >= self.qubits.len() as u64 {
            return Err(EmuError::QubitOutOfBounds);
        }
        self.push_op(Operation::Reset { qubit_id });
        Ok(())
    }

    fn measure(&mut self, qubit_id: u64) -> (r: Result<u64, EmuError>) {
        if qubit_id >= self.qubits.len() as u64 {
            return Err(EmuError::QubitOutOfBounds);
        }
        if self.future_results.len() as u64 >= u64::MAX {
            return Err(EmuError::ContractViolation);
        }
        let result_id = self.future_results.create();
        self.push_op(Operation::Measure { qubit_id, result_id });
        Ok(result_id)
    }

    fn measure_leaked(&mut self, qubit_id: u64) -> (r: Result<u64, EmuError>) {
        if qubit_id >= self.qubits.len() as u64 {
            return Err(EmuError::QubitOutOfBounds);
        }
        if self.future_results.len() as u64 >= u64::MAX {
            return Err(EmuError::ContractViolation);
        }
        let result_id = self.future_results.create();
        self.push_op(Operation::MeasureLeaked { qubit_id, result_id });
        Ok(result_id)
    }

    fn force_result(&mut self, result_id: u64) -> (r: Result<(), EmuError>) {
        if result_id >= self.future_results.len() as u64 {
            return Err(EmuError::InvalidResultHandle);
        }
        let ghost queue = self@.queue;
        let mut found: Option<usize> = None;
        let mut i: usize = 0;
        let n = self.operation_queue.len();
        while i < n
            invariant
                i <= n,
                n == queue.len(),
                self@.queue == queue,
                self@ == old(self)@,
                self.inv(),
                result_id < self@.futures.len(),
                (match found {
                    Some(f) => Some(f as int) == last_measure(queue.take(i as int), result_id) && f
                        < i,
                    None => last_measure(queue.take(i as int), result_id) is None,
                }),
            decreases n - i,
        {
            proof {
                lemma_last_measure_extend(queue, result_id, i as int);
            }
            if batch_measures_exec(&self.operation_queue[i], result_id) {
                found = Some(i);
            }
            i = i + 1;
        }
        proof {
            assert(queue.take(n as int) =~= queue);
        }
        match found {
            Some(f) => {
                proof {
                    lemma_last_measure_in_range(queue, result_id);
                }
                if self.flush_size < f + 1 {
                    self.flush_size = f + 1;
                }
                Ok(())
            },
            None => Err(EmuError::InvalidResultHandle),
        }
    }

    fn get_bool_result(&mut self, result_id: u64) -> (r: Result<Option<bool>, EmuError>) {
        match self.future_results.get(result_id) {
            Ok(Some(v)) => Ok(Some(v > 0)),
            Ok(None) => Ok(None),
            Err(e) => Err(e),
        }
    }

    fn get_u64_result(&mut self, result_id: u64) -> (r: Result<Option<u64>, EmuError>) {
        self.future_results.get(result_id)
    }

    fn set_bool_result(&mut self, result_id: u64, value: bool) -> (r: Result<(), EmuError>) {
        self.future_results.set(
            result_id,
            if value {
                1
            } else {
                0
            },
        )
    }

    fn set_u64_result(&mut self, result_id: u64, value: u64) -> (r: Result<(), EmuError>) {
        self.future_results.set(result_id, value)
    }

    fn increment_future_refcount(&mut self, result_id: u64) -> (r: Result<(), EmuError>) {
        self.future_results.increment_refcount(result_id)
    }

    fn decrement_future_refcount(&mut self, result_id: u64) -> (r: Result<(), EmuError>) {
        self.future_results.decrement_refcount(result_id)
    }

    fn local_barrier(&mut self, qubits: &Vec<u64>, sleep_ns: u64) -> (r: Result<(), EmuError>) {
        let ghost queue = self@.queue;
        let ghost lo = self@.flush as int;
        let mut found: Option<usize> = None;
        let mut i: usize = self.flush_size;
        let n = self.operation_queue.len();
        proof {
            lemma_last_use_take_below(queue, qubits@, lo, lo);
        }
        while i < n
            invariant
                self.flush_size <= i <= n,
                n == queue.len(),
                lo == self.flush_size as int,
                self@.queue == queue,
                self@ == old(self)@,
                self.inv(),
                (match found {
                    Some(f) => Some(f as int) == last_use(queue.take(i as int), qubits@, lo)
                        && lo <= f < i,
                    None => last_use(queue.take(i as int), qubits@, lo) is None,
                }),
            decreases n - i,
        {
            proof {
                lemma_last_use_extend(queue, qubits@, lo, i as int);
            }
            if batch_uses_exec(&self.operation_queue[i], qubits) {
                found = Some(i);
            }
            i = i + 1;
        }
        proof {
            assert(queue.take(n as int) =~= queue);
        }
        match found {
            Some(f) => {
                if self.flush_size < f + 1 {
                    self.flush_size = f + 1;
                }
                Ok(())
            },
            None => Ok(()),
        }
    }

    fn global_barrier(&mut self, sleep_ns: u64) -> (r: Result<(), EmuError>) {
        self.flush_size = self.operation_queue.len();
        Ok(())
    }

    fn get_next_operations(&mut self) -> (r: Result<Option<BatchOperation>, EmuError>) {
        if self.flush_size == 0 {
            return Ok(None);
        }
        let ghost old_queue = self.operation_queue@;
        self.flush_size = self.flush_size - 1;
        let batch = self.operation_queue.remove(0);
        proof {
            assert(self.operation_queue@.map_values(|b: BatchOperation| b@) =~= old_queue.map_values(
                |b: BatchOperation| b@,
            ).subrange(1, old_queue.len() as int));
        }
        Ok(Some(batch))
    }

    fn custom_call(&mut self, tag: u64, data: &Vec<u8>) -> (r: Result<u64, EmuError>) {
        Err(EmuError::Unsupported)
    }

    fn shot_start(&mut self, shot_id: u64, seed: u64) -> (r: Result<(), EmuError>) {
        Ok(())
    }

    fn shot_end(&mut self) -> (r: Result<(), EmuError>) {
        let width = self.qubits.len();
        let mut qs: Vec<bool> = Vec::new();
        let mut i: usize = 0;
        while i < width
            invariant
                i <= width,
                qs@ =~= Seq::new(i as nat, |k: int| false),
            decreases width - i,
        {
            qs.push(false);
            i = i + 1;
        }
        self.qubits = qs;
        self.operation_queue = Vec::new();
        self.flush_size = 0;
        self.future_results.clear();
        proof {
            assert(self@.queue =~= Seq::<BatchModel>::empty());
        }
        Ok(())
    }

    fn get_metric(&mut self, nth_metric: u8) -> (r: Result<
        Option<(String, MetricValue)>,
        EmuError,
    >) {
        Ok(None)
    }

    fn exit(&mut self) -> (r: Result<(), EmuError>) {
        self.operation_queue = Vec::new();
        self.qubits = Vec::new();
        self.flush_size = 0;
        self.future_results.clear();
        proof {
            assert(self@.queue =~= Seq::<BatchModel>::empty());
            assert(self@ =~= (LazyRuntimeModel {
                qubits: Seq::empty(),
                queue: Seq::empty(),
                flush: 0,
                futures: Seq::empty(),
                ..old(self)@
            }));
        }
        Ok(())
    }
}

/// A match found by the measurement scan lies inside the queue.
proof fn lemma_last_measure_in_range(queue: Seq<BatchModel>, h: u64)
    ensures
        last_measure(queue, h) matches Some(i) ==> 0 <= i < queue.len(),
    decreases queue.len(),
{
    if queue.len() > 0 {
        if !batch_measures(queue.last(), h) {
            lemma_last_measure_in_range(queue.drop_last(), h);
        }
    }
}

/// A scan over no more than the window start finds nothing.
proof fn lemma_last_use_take_below(queue: Seq<BatchModel>, qubits: Seq<u64>, lo: int, i: int)
    requires
        0 <= i <= lo,
        i <= queue.len(),
    ensures
        last_use(queue.take(i), qubits, lo) is None,
    decreases i,
{
    if i > 0 {
        assert(queue.take(i).drop_last() =~= queue.take(i - 1));
        lemma_last_use_take_below(queue, qubits, lo, i - 1);
    }
}

/// Build the lazy runtime over `n_qubits` qubits, stamping emitted batches
/// with `start`.
pub struct LazyRuntimeFactory;

impl LazyRuntimeFactory {
    pub fn init(n_qubits: u64, start: u64) -> (r: LazyRuntime)
        requires
            n_qubits <= usize::MAX,
        ensures
            r@ == (LazyRuntimeModel {
                qubits: Seq::new(n_qubits as nat, |i: int| false),
                queue: Seq::empty(),
                flush: 0,
                futures: Seq::empty(),
                start,
            }),
            r.inv(),
    {
        let mut qs: Vec<bool> = Vec::new();
        let mut i: usize = 0;
        let width = n_qubits as usize;
        while i < width
            invariant
                i <= width,
                qs@ =~= Seq::new(i as nat, |k: int| false),
            decreases width - i,
        {
            qs.push(false);
            i = i + 1;
        }
        let r = LazyRuntime {
            qubits: qs,
            operation_queue: Vec::new(),
            flush_size: 0,
            future_results: FutureStore::new(),
            start,
        };
        proof {
            assert(r@.queue =~= Seq::<BatchModel>::empty());
            assert(r@ =~= (LazyRuntimeModel {
                qubits: Seq::new(n_qubits as nat, |i: int| false),
                queue: Seq::empty(),
                flush: 0,
                futures: Seq::empty(),
                start,
            }));
        }
        r
    }
}

} // verus!
