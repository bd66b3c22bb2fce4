//! The closed instruction set and the time-windowed batch container.
//!
//! Rotation angles cross the system as opaque 64-bit encodings (the IEEE-754
//! bit pattern of the angle at the foreign boundary). The framework schedules
//! and forwards them unchanged; it never interprets them, so they are held
//! here as plain `u64` values.

use vstd::prelude::*;

verus! {

/// One quantum operation, produced by a runtime and consumed by an error
/// model. Immutable once emitted.
#[derive(Debug, Clone, PartialEq)]
pub enum Operation {
    Measure { qubit_id: u64, result_id: u64 },
    Reset { qubit_id: u64 },
    RXYGate { qubit_id: u64, theta: u64, phi: u64 },
    RZGate { qubit_id: u64, theta: u64 },
    RZZGate { qubit_id_1: u64, qubit_id_2: u64, theta: u64 },
    Custom { custom_tag: u64, data: Vec<u8> },
    MeasureLeaked { qubit_id: u64, result_id: u64 },
    TwinRXYGate { qubit_id_1: u64, qubit_id_2: u64, theta: u64, phi: u64 },
    RPPGate { qubit_id_1: u64, qubit_id_2: u64, theta: u64, phi: u64 },
    TK2Gate { qubit_id_1: u64, qubit_id_2: u64, alpha: u64, beta: u64, gamma: u64 },
}

impl Operation {
    /// Whether every qubit id this operation touches lies below `width`.
    pub open spec fn in_bounds(self, width: u64) -> bool {
        match self {
            Operation::Measure { qubit_id, .. } => qubit_id < width,
            Operation::Reset { qubit_id } => qubit_id < width,
            Operation::RXYGate { qubit_id, .. } => qubit_id < width,
            Operation::RZGate { qubit_id, .. } => qubit_id < width,
            Operation::RZZGate { qubit_id_1, qubit_id_2, .. } => qubit_id_1 < width && qubit_id_2
                < width,
            Operation::Custom { .. } => true,
            Operation::MeasureLeaked { qubit_id, .. } => qubit_id < width,
            Operation::TwinRXYGate { qubit_id_1, qubit_id_2, .. } => qubit_id_1 < width
                && qubit_id_2 < width,
            Operation::RPPGate { qubit_id_1, qubit_id_2, .. } => qubit_id_1 < width && qubit_id_2
                < width,
            Operation::TK2Gate { qubit_id_1, qubit_id_2, .. } => qubit_id_1 < width && qubit_id_2
                < width,
        }
    }
}

/// The result ids of the `Measure` operations in `ops`, in emission order.
/// Exactly one boolean result is owed for each.
pub open spec fn measure_ids(ops: Seq<Operation>) -> Seq<u64>
    decreases ops.len(),
{
    if ops.len() == 0 {
        Seq::empty()
    } else {
        measure_ids(ops.drop_last()) + (match ops.last() {
            Operation::Measure { result_id, .. } => seq![result_id],
            _ => Seq::empty(),
        })
    }
}

/// The result ids of the `MeasureLeaked` operations in `ops`, in emission
/// order. Exactly one 64-bit result is owed for each.
pub open spec fn measure_leaked_ids(ops: Seq<Operation>) -> Seq<u64>
    decreases ops.len(),
{
    if ops.len() == 0 {
        Seq::empty()
    } else {
        measure_leaked_ids(ops.drop_last()) + (match ops.last() {
            Operation::MeasureLeaked { result_id, .. } => seq![result_id],
            _ => Seq::empty(),
        })
    }
}

/// The mathematical model of a batch: its operations and its time window.
#[verifier::ext_equal]
pub struct BatchModel {
    pub ops: Seq<Operation>,
    pub start: u64,
    pub duration: u64,
}

/// An ordered group of operations together with its time window. Hand-off
/// transfers exclusive ownership; a batch returned by a runtime is never
/// empty ("nothing now" is "no batch", not an empty batch).
#[derive(Debug, Clone)]
pub struct BatchOperation {
    pub ops: Vec<Operation>,
    pub start: u64,
    pub duration: u64,
}

impl View for BatchOperation {
    type V = BatchModel;

    open spec fn view(&self) -> BatchModel {
        BatchModel { ops: self.ops@, start: self.start, duration: self.duration }
    }
}

impl BatchOperation {
    /// The operations in the batch, in order.
    pub open spec fn ops_spec(self) -> Seq<Operation> {
        self.ops@
    }

    /// The start of the batch's time window.
    pub open spec fn start_spec(self) -> u64 {
        self.start
    }

    /// The length of the batch's time window.
    pub open spec fn duration_spec(self) -> u64 {
        self.duration
    }

    pub fn new(ops: Vec<Operation>, start: u64, duration: u64) -> (r: BatchOperation)
        ensures
            r.ops_spec() == ops@,
            r.start_spec() == start,
            r.duration_spec() == duration,
    {
        BatchOperation { ops, start, duration }
    }

    pub fn len(&self) -> (r: usize)
        ensures
            r == self.ops_spec().len(),
    {
        self.ops.len()
    }

    pub fn is_empty(&self) -> (r: bool)
        ensures
            r == (self.ops_spec().len() == 0),
    {
        self.ops.len() == 0
    }

    /// The operation at position `i`.
    pub fn op_at(&self, i: usize) -> (r: &Operation)
        requires
            i < self.ops_spec().len(),
        ensures
            *r == self.ops_spec()[i as int],
    {
        &self.ops[i]
    }

    pub fn start(&self) -> (r: u64)
        ensures
            r == self.start_spec(),
    {
        self.start
    }

    pub fn duration(&self) -> (r: u64)
        ensures
            r == self.duration_spec(),
    {
        self.duration
    }

    /// The end of the time window.
    pub fn end(&self) -> (r: u64)
        requires
            self.start_spec() + self.duration_spec() <= u64::MAX,
        ensures
            r == self.start_spec() + self.duration_spec(),
    {
        self.start + self.duration
    }

    /// Give up the batch, taking its operations.
    pub fn into_ops(self) -> (r: Vec<Operation>)
        ensures
            r@ == self.ops_spec(),
    {
        self.ops
    }
}

} // verus!
