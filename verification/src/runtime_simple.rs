//! The eager reference runtime: every scheduled operation becomes a
//! one-operation batch at the head of a queue, measurements resolve through
//! the future store as soon as the emulator writes them back, and barriers
//! are no-ops because nothing is ever deferred.

use vstd::prelude::*;

use crate::errors::EmuError;
use crate::future_store::{FutureSlot, FutureStore};
use crate::ops::{BatchModel, BatchOperation, Operation};
use crate::runtime::RuntimeInterface;
use crate::simulator::GateOp;
use crate::utils::MetricValue;

verus! {

/// The mathematical model of the eager runtime.
#[verifier::ext_equal]
pub struct SimpleRuntimeModel {
    /// Which qubits are currently allocated.
    pub qubits: Seq<bool>,
    /// The batches waiting to be handed out, oldest first.
    pub queue: Seq<BatchModel>,
    /// The future store, keyed by result handle.
    pub futures: Seq<FutureSlot>,
    /// The time stamped onto emitted batches.
    pub start: u64,
}

impl SimpleRuntimeModel {
    /// The model after appending one operation as its own batch.
    pub open spec fn pushed(self, op: Operation) -> SimpleRuntimeModel {
        SimpleRuntimeModel {
            queue: self.queue.push(BatchModel { ops: seq![op], start: self.start, duration: 0 }),
            ..self
        }
    }
}

/// The index of the first unallocated qubit at or after `from`.
pub open spec fn first_inactive(qs: Seq<bool>, from: int) -> Option<int>
    decreases qs.len() - from,
{
    if from < 0 || from >= qs.len() {
        None
    } else if !qs[from] {
        Some(from)
    } else {
        first_inactive(qs, from + 1)
    }
}

/// While every qubit before `from` is allocated, the first unallocated qubit
/// overall is the first unallocated qubit at or after `from`.
pub proof fn lemma_first_inactive_skip(qs: Seq<bool>, from: int)
    requires
        0 <= from <= qs.len(),
        forall|k: int| 0 <= k < from ==> qs[k],
    ensures
        first_inactive(qs, 0) == first_inactive(qs, from),
    decreases from,
{
    if from > 0 {
        lemma_first_inactive_skip(qs, from - 1);
    }
}

/// The eager reference runtime.
pub struct SimpleRuntime {
    qubits: Vec<bool>,
    operation_queue: Vec<BatchOperation>,
    future_results: FutureStore,
    start: u64,
}

impl View for SimpleRuntime {
    type V = SimpleRuntimeModel;

    closed spec fn view(&self) -> SimpleRuntimeModel {
        SimpleRuntimeModel {
            qubits: self.qubits@,
            queue: self.operation_queue@.map_values(|b: BatchOperation| b@),
            futures: self.future_results.slots@,
            start: self.start,
        }
    }
}

impl SimpleRuntime {
    /// Queue one operation as a batch of its own.
    fn push_op(&mut self, op: Operation)
        requires
            old(self).inv(),
        ensures
            final(self).inv(),
            final(self)@ == old(self)@.pushed(op),
    {
        let ghost old_model = self@;
        let ghost op_spec = op;
        let start = self.start;
        let mut ops: Vec<Operation> = Vec::new();
        ops.push(op);
        proof {
            assert(ops@ =~= seq![op_spec]);
        }
        self.operation_queue.push(BatchOperation::new(ops, start, 0));
        proof {
            assert(self.operation_queue@.map_values(|b: BatchOperation| b@)
                =~= old_model.queue.push(
                BatchModel { ops: seq![op_spec], start: old_model.start, duration: 0 },
            ));
            assert(self@ =~= old_model.pushed(op_spec));
        }
    }
}

impl RuntimeInterface for SimpleRuntime {
    closed spec fn inv(&self) -> bool {
        Self::v_inv(self@)
    }

    open spec fn v_inv(m: SimpleRuntimeModel) -> bool {
        forall|i: int| 0 <= i < m.queue.len() ==> #[trigger] m.queue[i].ops.len() > 0
    }

    open spec fn qalloc_res(pre: SimpleRuntimeModel) -> Result<(SimpleRuntimeModel, u64), EmuError> {
        match first_inactive(pre.qubits, 0) {
            Some(i) => Ok(
                (SimpleRuntimeModel { qubits: pre.qubits.update(i, true), ..pre }, i as u64),
            ),
            None => Ok((pre, u64::MAX)),
        }
    }

    open spec fn qfree_res(pre: SimpleRuntimeModel, qubit_id: u64) -> Result<
        SimpleRuntimeModel,
        EmuError,
    > {
        if qubit_id >= pre.qubits.len() {
            Err(EmuError::QubitOutOfBounds)
        } else {
            Ok(SimpleRuntimeModel { qubits: pre.qubits.update(qubit_id as int, false), ..pre })
        }
    }

    open spec fn gate_res(pre: SimpleRuntimeModel, g: GateOp) -> Result<
        SimpleRuntimeModel,
        EmuError,
    > {
        if !g.in_bounds(pre.qubits.len() as u64) {
            Err(EmuError::QubitOutOfBounds)
        } else {
            match g {
                GateOp::Rxy { qubit, theta, phi } => if pre.qubits[qubit as int] {
                    Ok(pre.pushed(Operation::RXYGate { qubit_id: qubit, theta, phi }))
                } else {
                    Err(EmuError::QubitNotActive)
                },
                GateOp::Rz { qubit, theta } => if pre.qubits[qubit as int] {
                    Ok(pre.pushed(Operation::RZGate { qubit_id: qubit, theta }))
                } else {
                    Err(EmuError::QubitNotActive)
                },
                GateOp::Rzz { qubit_1, qubit_2, theta } => Ok(
                    pre.pushed(
                        Operation::RZZGate { qubit_id_1: qubit_1, qubit_id_2: qubit_2, theta },
                    ),
                ),
                GateOp::Tk2 { qubit_1, qubit_2, alpha, beta, gamma } => if pre.qubits[qubit_1 as int]
                    && pre.qubits[qubit_2 as int] {
                    Ok(
                        pre.pushed(
                            Operation::TK2Gate {
                                qubit_id_1: qubit_1,
                                qubit_id_2: qubit_2,
                                alpha,
                                beta,
                                gamma,
                            },
                        ),
                    )
                } else {
                    Err(EmuError::QubitNotActive)
                },
                GateOp::TwinRxy { qubit_1, qubit_2, theta, phi } => if pre.qubits[qubit_1 as int]
                    && pre.qubits[qubit_2 as int] {
                    Ok(
                        pre.pushed(
                            Operation::TwinRXYGate {
                                qubit_id_1: qubit_1,
                                qubit_id_2: qubit_2,
                                theta,
                                phi,
                            },
                        ),
                    )
                } else {
                    Err(EmuError::QubitNotActive)
                },
                GateOp::Rpp { qubit_1, qubit_2, theta, phi } => if pre.qubits[qubit_1 as int]
                    && pre.qubits[qubit_2 as int] {
                    Ok(
                        pre.pushed(
                            Operation::RPPGate {
                                qubit_id_1: qubit_1,
                                qubit_id_2: qubit_2,
                                theta,
                                phi,
                            },
                        ),
                    )
                } else {
                    Err(EmuError::QubitNotActive)
                },
                GateOp::Reset { qubit } => Ok(pre.pushed(Operation::Reset { qubit_id: qubit })),
            }
        }
    }

    open spec fn measure_res(pre: SimpleRuntimeModel, qubit_id: u64, leaked: bool) -> Result<
        (SimpleRuntimeModel, u64),
        EmuError,
    > {
        if qubit_id >= pre.qubits.len() {
            Err(EmuError::QubitOutOfBounds)
        } else if pre.futures.len() >= u64::MAX {
            Err(EmuError::ContractViolation)
        } else {
            let h = pre.futures.len() as u64;
            let op = if leaked {
                Operation::MeasureLeaked { qubit_id, result_id: h }
            } else {
                Operation::Measure { qubit_id, result_id: h }
            };
            Ok(
                (
                    SimpleRuntimeModel {
                        futures: pre.futures.push(
                            FutureSlot { refcount: 1, resolved: false, value: 0 },
                        ),
                        ..pre
                    }.pushed(op),
                    h,
                ),
            )
        }
    }

    open spec fn force_res(pre: SimpleRuntimeModel, result_id: u64) -> Result<
        SimpleRuntimeModel,
        EmuError,
    > {
        if result_id >= pre.futures.len() {
            Err(EmuError::InvalidResultHandle)
        } else {
            Ok(pre)
        }
    }

    open spec fn get_result_res(pre: SimpleRuntimeModel, result_id: u64) -> Result<
        Option<u64>,
        EmuError,
    > {
        if result_id < pre.futures.len() && pre.futures[result_id as int].refcount > 0 {
            if pre.futures[result_id as int].resolved {
                Ok(Some(pre.futures[result_id as int].value))
            } else {
                Ok(None)
            }
        } else {
            Err(EmuError::InvalidResultHandle)
        }
    }

    open spec fn set_result_res(pre: SimpleRuntimeModel, result_id: u64, value: u64) -> Result<
        SimpleRuntimeModel,
        EmuError,
    > {
        if !(result_id < pre.futures.len() && pre.futures[result_id as int].refcount > 0) {
            Err(EmuError::InvalidResultHandle)
        } else if pre.futures[result_id as int].resolved {
            Err(EmuError::ContractViolation)
        } else {
            Ok(
                SimpleRuntimeModel {
                    futures: pre.futures.update(
                        result_id as int,
                        FutureSlot { resolved: true, value, ..pre.futures[result_id as int] },
                    ),
                    ..pre
                },
            )
        }
    }

    open spec fn incref_res(pre: SimpleRuntimeModel, result_id: u64) -> Result<
        SimpleRuntimeModel,
        EmuError,
    > {
        if !(result_id < pre.futures.len() && pre.futures[result_id as int].refcount > 0) {
            Err(EmuError::InvalidResultHandle)
        } else if pre.futures[result_id as int].refcount == u64::MAX {
            Err(EmuError::ContractViolation)
        } else {
            Ok(
                SimpleRuntimeModel {
                    futures: pre.futures.update(
                        result_id as int,
                        FutureSlot {
                            refcount: (pre.futures[result_id as int].refcount + 1) as u64,
                            ..pre.futures[result_id as int]
                        },
                    ),
                    ..pre
                },
            )
        }
    }

    open spec fn decref_res(pre: SimpleRuntimeModel, result_id: u64) -> Result<
        SimpleRuntimeModel,
        EmuError,
    > {
        if !(result_id < pre.futures.len() && pre.futures[result_id as int].refcount > 0) {
            Err(EmuError::InvalidResultHandle)
        } else {
            Ok(
                SimpleRuntimeModel {
                    futures: pre.futures.update(
                        result_id as int,
                        FutureSlot {
                            refcount: (pre.futures[result_id as int].refcount - 1) as u64,
                            ..pre.futures[result_id as int]
                        },
                    ),
                    ..pre
                },
            )
        }
    }

    open spec fn local_barrier_res(pre: SimpleRuntimeModel, qubits: Seq<u64>, sleep_ns: u64) -> Result<
        SimpleRuntimeModel,
        EmuError,
    > {
        Ok(pre)
    }

    open spec fn global_barrier_res(pre: SimpleRuntimeModel, sleep_ns: u64) -> Result<
        SimpleRuntimeModel,
        EmuError,
    > {
        Ok(pre)
    }

    open spec fn next_ops_res(pre: SimpleRuntimeModel) -> Result<
        (SimpleRuntimeModel, Option<BatchModel>),
        EmuError,
    > {
        if pre.queue.len() == 0 {
            Ok((pre, None))
        } else {
            Ok(
                (
                    SimpleRuntimeModel {
                        queue: pre.queue.subrange(1, pre.queue.len() as int),
                        ..pre
                    },
                    Some(pre.queue[0]),
                ),
            )
        }
    }

    open spec fn custom_res(pre: SimpleRuntimeModel, tag: u64, data: Seq<u8>) -> Result<
        (SimpleRuntimeModel, u64),
        EmuError,
    > {
        Err(EmuError::Unsupported)
    }

    open spec fn shot_start_res(pre: SimpleRuntimeModel, shot_id: u64, seed: u64) -> Result<
        SimpleRuntimeModel,
        EmuError,
    > {
        Ok(pre)
    }

    open spec fn shot_end_res(pre: SimpleRuntimeModel) -> Result<SimpleRuntimeModel, EmuError> {
        Ok(
            SimpleRuntimeModel {
                qubits: Seq::new(pre.qubits.len(), |i: int| false),
                queue: Seq::empty(),
                futures: Seq::empty(),
                ..pre
            },
        )
    }

    open spec fn pending(m: SimpleRuntimeModel) -> nat {
        m.queue.len()
    }

    open spec fn metric_res(pre: SimpleRuntimeModel, nth_metric: u8) -> Option<
        (Seq<char>, MetricValue),
    > {
        None
    }

    open spec fn exit_res(pre: SimpleRuntimeModel) -> Result<SimpleRuntimeModel, EmuError> {
        Ok(
            SimpleRuntimeModel {
                qubits: Seq::empty(),
                queue: Seq::empty(),
                futures: Seq::empty(),
                ..pre
            },
        )
    }

    proof fn lemma_inv_model(&self) {
    }

    proof fn lemma_batch_nonempty(pre: SimpleRuntimeModel) {
        if pre.queue.len() > 0 {
            assert(forall|i: int|
                0 <= i < pre.queue.subrange(1, pre.queue.len() as int).len()
                    ==> #[trigger] pre.queue.subrange(1, pre.queue.len() as int)[i].ops.len() > 0);
        }
    }

    proof fn lemma_measure_fresh(pre: SimpleRuntimeModel, qubit_id: u64, leaked: bool) {
    }

    proof fn lemma_drain_progress(pre: SimpleRuntimeModel, h: u64, value: u64) {
    }

    proof fn lemma_step_wf(
        pre: SimpleRuntimeModel,
        g: GateOp,
        q: u64,
        h: u64,
        value: u64,
        qubits: Seq<u64>,
        sleep_ns: u64,
        tag: u64,
        data: Seq<u8>,
        shot_id: u64,
        seed: u64,
    ) {
    }

    fn qalloc(&mut self) -> (r: Result<u64, EmuError>) {
        let ghost qs = self@.qubits;
        let mut i: usize = 0;
        while i < self.qubits.len()
            invariant
                i <= self.qubits.len(),
                self@ == old(self)@,
                qs == old(self)@.qubits,
                self.inv(),
                forall|k: int| 0 <= k < i ==> qs[k],
            decreases self.qubits.len() - i,
        {
            if !self.qubits[i] {
                proof {
                    lemma_first_inactive_skip(qs, i as int);
                }
                self.qubits.set(i, true);
                return Ok(i as u64);
            }
            i = i + 1;
        }
        proof {
            lemma_first_inactive_skip(qs, qs.len() as int);
        }
        Ok(u64::MAX)
    }

    fn qfree(&mut self, qubit_id: u64) -> (r: Result<(), EmuError>) {
        if qubit_id >= self.qubits.len() as u64 {
            return Err(EmuError::QubitOutOfBounds);
        }
        self.qubits.set(qubit_id as usize, false);
        Ok(())
    }

    fn rxy_gate(&mut self, qubit_id: u64, theta: u64, phi: u64) -> (r: Result<(), EmuError>) {
        if qubit_id >= self.qubits.len() as u64 {
            return Err(EmuError::QubitOutOfBounds);
        }
        if !self.qubits[qubit_id as usize] {
            return Err(EmuError::QubitNotActive);
        }
        self.push_op(Operation::RXYGate { qubit_id, theta, phi });
        Ok(())
    }

    fn rz_gate(&mut self, qubit_id: u64, theta: u64) -> (r: Result<(), EmuError>) {
        if qubit_id >= self.qubits.len() as u64 {
            return Err(EmuError::QubitOutOfBounds);
        }
        if !self.qubits[qubit_id as usize] {
            return Err(EmuError::QubitNotActive);
        }
        self.push_op(Operation::RZGate { qubit_id, theta });
        Ok(())
    }

    fn rzz_gate(&mut self, qubit_id_1: u64, qubit_id_2: u64, theta: u64) -> (r: Result<
        (),
        EmuError,
    >) {
        if qubit_id_1 >= self.qubits.len() as u64 || qubit_id_2 >= self.qubits.len() as u64 {
            return Err(EmuError::QubitOutOfBounds);
        }
        self.push_op(Operation::RZZGate { qubit_id_1, qubit_id_2, theta });
        Ok(())
    }

    fn tk2_gate(
        &mut self,
        qubit_id_1: u64,
        qubit_id_2: u64,
        alpha: u64,
        beta: u64,
        gamma: u64,
    ) -> (r: Result<(), EmuError>) {
        if qubit_id_1 >= self.qubits.len() as u64 || qubit_id_2 >= self.qubits.len() as u64 {
            return Err(EmuError::QubitOutOfBounds);
        }
        if !self.qubits[qubit_id_1 as usize] || !self.qubits[qubit_id_2 as usize] {
            return Err(EmuError::QubitNotActive);
        }
        self.push_op(Operation::TK2Gate { qubit_id_1, qubit_id_2, alpha, beta, gamma });
        Ok(())
    }

    fn twin_rxy_gate(&mut self, qubit_id_1: u64, qubit_id_2: u64, theta: u64, phi: u64) -> (r:
        Result<(), EmuError>) {
        if qubit_id_1 >= self.qubits.len() as u64 || qubit_id_2 >= self.qubits.len() as u64 {
            return Err(EmuError::QubitOutOfBounds);
        }
        if !self.qubits[qubit_id_1 as usize] || !self.qubits[qubit_id_2 as usize] {
            return Err(EmuError::QubitNotActive);
        }
        self.push_op(Operation::TwinRXYGate { qubit_id_1, qubit_id_2, theta, phi });
        Ok(())
    }

    fn rpp_gate(&mut self, qubit_id_1: u64, qubit_id_2: u64, theta: u64, phi: u64) -> (r: Result<
        (),
        EmuError,
    >) {
        if qubit_id_1 >= self.qubits.len() as u64 || qubit_id_2 >= self.qubits.len() as u64 {
            return Err(EmuError::QubitOutOfBounds);
        }
        if !self.qubits[qubit_id_1 as usize] || !self.qubits[qubit_id_2 as usize] {
            return Err(EmuError::QubitNotActive);
        }
        self.push_op(Operation::RPPGate { qubit_id_1, qubit_id_2, theta, phi });
        Ok(())
    }

    fn reset(&mut self, qubit_id: u64) -> (r: Result<(), EmuError>) {
        if qubit_id >= self.qubits.len() as u64 {
            return Err(EmuError::QubitOutOfBounds);
        }
        self.push_op(Operation::Reset { qubit_id });
        Ok(())
    }

    fn measure(&mut self, qubit_id: u64) -> (r: Result<u64, EmuError>) {
        if qubit_id >= self.qubits.len() as u64 {
            return Err(EmuError::QubitOutOfBounds);
        }
        if self.future_results.len() as u64 >= u64::MAX {
            return Err(EmuError::ContractViolation);
        }
        let result_id = self.future_results.create();
        self.push_op(Operation::Measure { qubit_id, result_id });
        Ok(result_id)
    }

    fn measure_leaked(&mut self, qubit_id: u64) -> (r: Result<u64, EmuError>) {
        if qubit_id >= self.qubits.len() as u64 {
            return Err(EmuError::QubitOutOfBounds);
        }
        if self.future_results.len() as u64 >= u64::MAX {
            return Err(EmuError::ContractViolation);
        }
        let result_id = self.future_results.create();
        self.push_op(Operation::MeasureLeaked { qubit_id, result_id });
        Ok(result_id)
    }

    fn force_result(&mut self, result_id: u64) -> (r: Result<(), EmuError>) {
        if result_id >= self.future_results.len() as u64 {
            return Err(EmuError::InvalidResultHandle);
        }
        Ok(())
    }

    fn get_bool_result(&mut self, result_id: u64) -> (r: Result<Option<bool>, EmuError>) {
        match self.future_results.get(result_id) {
            Ok(Some(v)) => Ok(Some(v > 0)),
            Ok(None) => Ok(None),
            Err(e) => Err(e),
        }
    }

    fn get_u64_result(&mut self, result_id: u64) -> (r: Result<Option<u64>, EmuError>) {
        self.future_results.get(result_id)
    }

    fn set_bool_result(&mut self, result_id: u64, value: bool) -> (r: Result<(), EmuError>) {
        self.future_results.set(
            result_id,
            if value {
                1
            } else {
                0
            },
        )
    }

    fn set_u64_result(&mut self, result_id: u64, value: u64) -> (r: Result<(), EmuError>) {
        self.future_results.set(result_id, value)
    }

    fn increment_future_refcount(&mut self, result_id: u64) -> (r: Result<(), EmuError>) {
        self.future_results.increment_refcount(result_id)
    }

    fn decrement_future_refcount(&mut self, result_id: u64) -> (r: Result<(), EmuError>) {
        self.future_results.decrement_refcount(result_id)
    }

    fn local_barrier(&mut self, qubits: &Vec<u64>, sleep_ns: u64) -> (r: Result<(), EmuError>) {
        Ok(())
    }

    fn global_barrier(&mut self, sleep_ns: u64) -> (r: Result<(), EmuError>) {
        Ok(())
    }

    fn get_next_operations(&mut self) -> (r: Result<Option<BatchOperation>, EmuError>) {
        if self.operation_queue.len() == 0 {
            return Ok(None);
        }
        let ghost old_queue = self.operation_queue@;
        let batch = self.operation_queue.remove(0);
        proof {
            assert(self.operation_queue@.map_values(|b: BatchOperation| b@) =~= old_queue.map_values(
                |b: BatchOperation| b@,
            ).subrange(1, old_queue.len() as int));
        }
        Ok(Some(batch))
    }

    fn custom_call(&mut self, tag: u64, data: &Vec<u8>) -> (r: Result<u64, EmuError>) {
        Err(EmuError::Unsupported)
    }

    fn shot_start(&mut self, shot_id: u64, seed: u64) -> (r: Result<(), EmuError>) {
        Ok(())
    }

    fn shot_end(&mut self) -> (r: Result<(), EmuError>) {
        let width = self.qubits.len();
        let mut qs: Vec<bool> = Vec::new();
        let mut i: usize = 0;
        while i < width
            invariant
                i <= width,
                qs@ =~= Seq::new(i as nat, |k: int| false),
            decreases width - i,
        {
            qs.push(false);
            i = i + 1;
        }
        self.qubits = qs;
        self.operation_queue = Vec::new();
        self.future_results.clear();
        proof {
            assert(self@.queue =~= Seq::<BatchModel>::empty());
        }
        Ok(())
    }

    fn get_metric(&mut self, nth_metric: u8) -> (r: Result<
        Option<(String, MetricValue)>,
        EmuError,
    >) {
        Ok(None)
    }

    fn exit(&mut self) -> (r: Result<(), EmuError>) {
        self.operation_queue = Vec::new();
        self.qubits = Vec::new();
        self.future_results.clear();
        proof {
            assert(self@.queue =~= Seq::<BatchModel>::empty());
            assert(self@ =~= (SimpleRuntimeModel {
                qubits: Seq::empty(),
                queue: Seq::empty(),
                futures: Seq::empty(),
                ..old(self)@
            }));
        }
        Ok(())
    }
}

/// Build the eager runtime over `n_qubits` qubits, stamping emitted batches
/// with `start`.
pub struct SimpleRuntimeFactory;

impl SimpleRuntimeFactory {
    pub fn init(n_qubits: u64, start: u64) -> (r: SimpleRuntime)
        requires
            n_qubits <= usize::MAX,
        ensures
            r@ == (SimpleRuntimeModel {
                qubits: Seq::new(n_qubits as nat, |i: int| false),
                queue: Seq::empty(),
                futures: Seq::empty(),
                start,
            }),
            r.inv(),
    {
        let mut qs: Vec<bool> = Vec::new();
        let mut i: usize = 0;
        let width = n_qubits as usize;
        while i < width
            invariant
                i <= width,
                qs@ =~= Seq::new(i as nat, |k: int| false),
            decreases width - i,
        {
            qs.push(false);
            i = i + 1;
        }
        let r = SimpleRuntime {
            qubits: qs,
            operation_queue: Vec::new(),
            future_results: FutureStore::new(),
            start,
        };
        proof {
            assert(r@.queue =~= Seq::<BatchModel>::empty());
            assert(r@ =~= (SimpleRuntimeModel {
                qubits: Seq::new(n_qubits as nat, |i: int| false),
                queue: Seq::empty(),
                futures: Seq::empty(),
                start,
            }));
        }
        r
    }
}

} // verus!
