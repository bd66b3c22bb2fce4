//! The measurement log: which qubits were measured, in program order, and
//! what each measurement produced, matched call-by-call against the batch
//! results the error model returned.

use vstd::prelude::*;

use crate::batch_result::BatchResult;
use crate::encoder::{OutputStream, OutputStreamError};
use crate::errors::EmuError;
use crate::ops::{BatchOperation, Operation};

verus! {

/// Which kind of measurement an entry records.
#[derive(Debug, Clone, Copy, PartialEq, Eq, Structural)]
pub enum MeasType {
    Measure,
    MeasureLeaked,
}

/// One completed measurement: its kind, the measured qubit, and the value
/// (2 reports leakage).
#[derive(Debug, Clone, Copy, PartialEq, Eq, Structural)]
pub struct MeasLogEnt {
    pub meas_type: MeasType,
    pub qubit_id: u64,
    pub value: u64,
}

impl MeasLogEnt {
    /// Record one completed measurement. A plain measurement's value is a
    /// bit; a leakage-detecting measurement's value may also be 2.
    pub fn new(meas_type: MeasType, qubit_id: u64, value: u64) -> (r: MeasLogEnt)
        requires
            meas_type == MeasType::Measure ==> value <= 1,
            meas_type == MeasType::MeasureLeaked ==> value <= 2,
        ensures
            r == (MeasLogEnt { meas_type, qubit_id, value }),
    {
        MeasLogEnt { meas_type, qubit_id, value }
    }

    /// Write the entry as three 64-bit records: kind, qubit, value.
    pub fn write(&self, encoder: &mut OutputStream) -> (r: Result<(), OutputStreamError>)
        ensures
            r is Ok,
            final(encoder).writer.last_read_index == old(encoder).writer.last_read_index,
    {
        let is_meas_leaked: u64 = match self.meas_type {
            MeasType::Measure => 0,
            MeasType::MeasureLeaked => 1,
        };
        encoder.write(&is_meas_leaked)?;
        encoder.write(&self.qubit_id)?;
        encoder.write(&self.value)
    }
}

/// One measurement call awaiting its result.
#[derive(Debug, Clone, Copy, PartialEq, Eq, Structural)]
pub struct MeasCall {
    pub meas_type: MeasType,
    pub qubit_id: u64,
    pub result_id: u64,
}

/// The measurement calls a batch carries, in emission order.
pub open spec fn calls_of(ops: Seq<Operation>) -> Seq<MeasCall>
    decreases ops.len(),
{
    if ops.len() == 0 {
        Seq::empty()
    } else {
        calls_of(ops.drop_last()) + (match ops.last() {
            Operation::Measure { qubit_id, result_id } => seq![
                MeasCall { meas_type: MeasType::Measure, qubit_id, result_id },
            ],
            Operation::MeasureLeaked { qubit_id, result_id } => seq![
                MeasCall { meas_type: MeasType::MeasureLeaked, qubit_id, result_id },
            ],
            _ => Seq::empty(),
        })
    }
}

/// Per-shot sequences of measurement results, in program order.
pub struct MeasurementLog {
    /// Unmatched measurement calls from the current batch.
    meas_calls: Vec<MeasCall>,
    /// The completed measurements recorded during the current shot.
    entries: Vec<MeasLogEnt>,
}

impl MeasurementLog {
    /// The unmatched calls, in emission order.
    pub closed spec fn calls(&self) -> Seq<MeasCall> {
        self.meas_calls@
    }

    /// The completed measurements, in program order.
    pub closed spec fn entries_spec(&self) -> Seq<MeasLogEnt> {
        self.entries@
    }

    pub fn new() -> (r: MeasurementLog)
        ensures
            r.calls() == Seq::<MeasCall>::empty(),
            r.entries_spec() == Seq::<MeasLogEnt>::empty(),
    {
        MeasurementLog { meas_calls: Vec::new(), entries: Vec::new() }
    }

    /// Record the measurement calls of an emitted batch.
    pub fn on_runtime_batch(&mut self, batch: &BatchOperation)
        ensures
            final(self).calls() == old(self).calls() + calls_of(batch@.ops),
            final(self).entries_spec() == old(self).entries_spec(),
    {
        let ghost ops = batch@.ops;
        let ghost before = self.meas_calls@;
        let n = batch.len();
        let mut i: usize = 0;
        while i < n
            invariant
                i <= n,
                n == ops.len(),
                batch@.ops == ops,
                self.meas_calls@ == before + calls_of(ops.take(i as int)),
                self.entries@ == old(self).entries@,
            decreases n - i,
        {
            proof {
                assert(ops.take(i + 1).drop_last() =~= ops.take(i as int));
                assert(ops.take(i + 1).last() == ops[i as int]);
            }
            match batch.op_at(i) {
                Operation::Measure { qubit_id, result_id } => {
                    self.meas_calls.push(
                        MeasCall {
                            meas_type: MeasType::Measure,
                            qubit_id: *qubit_id,
                            result_id: *result_id,
                        },
                    );
                    proof {
                        assert(self.meas_calls@ =~= before + calls_of(ops.take(i + 1)));
                    }
                },
                Operation::MeasureLeaked { qubit_id, result_id } => {
                    self.meas_calls.push(
                        MeasCall {
                            meas_type: MeasType::MeasureLeaked,
                            qubit_id: *qubit_id,
                            result_id: *result_id,
                        },
                    );
                    proof {
                        assert(self.meas_calls@ =~= before + calls_of(ops.take(i + 1)));
                    }
                },
                _ => {
                    proof {
                        assert(self.meas_calls@ =~= before + calls_of(ops.take(i + 1)));
                    }
                },
            }
            i = i + 1;
        }
        proof {
            assert(ops.take(n as int) =~= ops);
        }
    }

    /// Match the batch's results against the recorded calls, in order: a
    /// plain measurement consumes the next boolean result, a
    /// leakage-detecting one the next 64-bit result, and each must answer
    /// the recorded handle. A handle mismatch, a missing result, or a result
    /// left over is a contract violation.
    pub fn on_runtime_results(&mut self, results: &BatchResult) -> (r: Result<(), EmuError>)
        ensures
            final(self).calls() == Seq::<MeasCall>::empty(),
            r is Err ==> r == Err::<(), EmuError>(EmuError::ContractViolation),
    {
        let mut bi: usize = 0;
        let mut ui: usize = 0;
        let n = self.meas_calls.len();
        let mut i: usize = 0;
        let mut outcome: Result<(), EmuError> = Ok(());
        while i < n
            invariant
                i <= n,
                n == self.meas_calls@.len(),
                bi <= results.bool_results@.len(),
                ui <= results.u64_results@.len(),
                self.meas_calls@ == old(self).meas_calls@,
                outcome is Err ==> outcome == Err::<(), EmuError>(EmuError::ContractViolation),
            decreases n - i,
        {
            let call = self.meas_calls[i];
            match call.meas_type {
                MeasType::Measure => {
                    if bi < results.bool_results.len() {
                        let entry = results.bool_results[bi];
                        bi = bi + 1;
                        if entry.result_id == call.result_id {
                            self.entries.push(
                                MeasLogEnt {
                                    meas_type: MeasType::Measure,
                                    qubit_id: call.qubit_id,
                                    value: if entry.value {
                                        1
                                    } else {
                                        0
                                    },
                                },
                            );
                        } else {
                            outcome = Err(EmuError::ContractViolation);
                        }
                    } else {
                        outcome = Err(EmuError::ContractViolation);
                    }
                },
                MeasType::MeasureLeaked => {
                    if ui < results.u64_results.len() {
                        let entry = results.u64_results[ui];
                        ui = ui + 1;
                        if entry.result_id == call.result_id && entry.value <= 2 {
                            self.entries.push(
                                MeasLogEnt {
                                    meas_type: MeasType::MeasureLeaked,
                                    qubit_id: call.qubit_id,
                                    value: entry.value,
                                },
                            );
                        } else {
                            outcome = Err(EmuError::ContractViolation);
                        }
                    } else {
                        outcome = Err(EmuError::ContractViolation);
                    }
                },
            }
            i = i + 1;
        }
        if bi != results.bool_results.len() || ui != results.u64_results.len() {
            outcome = Err(EmuError::ContractViolation);
        }
        self.meas_calls = Vec::new();
        outcome
    }

    /// Write the recorded measurements as one message.
    pub fn write(&self, time_cursor: u64, encoder: &mut OutputStream) -> (r: Result<
        (),
        OutputStreamError,
    >)
        ensures
            r is Ok,
            final(encoder).writer.last_read_index == old(encoder).writer.last_read_index,
    {
        encoder.begin_message(time_cursor)?;
        let tag = "MEASUREMENTLOG".to_string();
        match encoder.write(&tag) {
            Ok(()) => {},
            Err(_) => {},
        }
        let n = self.entries.len();
        let mut i: usize = 0;
        while i < n
            invariant
                i <= n,
                n == self.entries@.len(),
                encoder.writer.last_read_index == old(encoder).writer.last_read_index,
            decreases n - i,
        {
            let entry = self.entries[i];
            entry.write(encoder)?;
            i = i + 1;
        }
        encoder.end_message()
    }

    /// Forget the recorded measurements at a shot boundary.
    pub fn on_shot_start(&mut self)
        ensures
            final(self).entries_spec() == Seq::<MeasLogEnt>::empty(),
            final(self).calls() == old(self).calls(),
    {
        self.entries = Vec::new();
    }
}

} // verus!
