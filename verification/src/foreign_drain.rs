//! The drain protocol for a foreign component stack, as a verified state
//! machine.
//!
//! A host shell that holds its backends behind a C boundary cannot implement
//! the library's verified capability traits, so the verified orchestrator
//! cannot drive them directly. This director carries the orchestrator's
//! decisions instead: the shell asks what to do next, performs the
//! prescribed foreign call, and reports its outcome. The director keeps the
//! drain discipline — one batch at a time, every returned result written
//! back exactly once and in order before the next batch is fetched — and
//! polices the error model's result contract: a result list that does not
//! answer the batch's measurements one-for-one, in emission order, aborts
//! the drain as a contract violation.

use vstd::prelude::*;

use crate::batch_result::{BatchResult, BoolResult64, U64Result64};
use crate::errors::EmuError;
use crate::ops::{measure_ids, measure_leaked_ids, BatchOperation, Operation};

verus! {

/// Where the drain stands.
#[derive(Debug, Clone, Copy, PartialEq, Eq, Structural)]
pub enum DrainPhase {
    /// The shell must fetch the next batch from the runtime.
    AwaitBatch,
    /// The shell must hand the fetched batch to the error model.
    AwaitResults,
    /// The shell must perform the prescribed write-backs, one at a time.
    Writing,
    /// The runtime reported "nothing now": the drain is complete.
    Finished,
    /// A foreign call failed or broke its contract: the drain is aborted.
    Aborted,
}

/// What the shell must do next.
#[derive(Debug, Clone, Copy, PartialEq, Eq, Structural)]
pub enum DrainAction {
    /// Call the runtime's batch hand-out.
    FetchBatch,
    /// Hand the fetched batch to the error model.
    HandleBatch,
    /// Write this boolean result back into the runtime.
    WriteBool(BoolResult64),
    /// Write this 64-bit result back into the runtime.
    WriteU64(U64Result64),
    /// The drain is complete; nothing more to do.
    Finished,
    /// The drain is aborted; no further call may be issued.
    Aborted,
}

/// The mathematical model of the director.
#[verifier::ext_equal]
pub struct ForeignDrainModel {
    pub phase: DrainPhase,
    /// The handles the current batch's `Measure` operations owe, in order.
    pub expected_bools: Seq<u64>,
    /// The handles the current batch's `MeasureLeaked` operations owe, in
    /// order.
    pub expected_u64s: Seq<u64>,
    /// The boolean write-backs still owed, then the 64-bit ones.
    pub write_bools: Seq<BoolResult64>,
    pub write_u64s: Seq<U64Result64>,
    pub bool_cursor: nat,
    pub u64_cursor: nat,
}

/// The drain director for a foreign stack.
pub struct ForeignDrainDirector {
    phase: DrainPhase,
    expected_bools: Vec<u64>,
    expected_u64s: Vec<u64>,
    write_bools: Vec<BoolResult64>,
    write_u64s: Vec<U64Result64>,
    bool_cursor: usize,
    u64_cursor: usize,
}

impl View for ForeignDrainDirector {
    type V = ForeignDrainModel;

    closed spec fn view(&self) -> ForeignDrainModel {
        ForeignDrainModel {
            phase: self.phase,
            expected_bools: self.expected_bools@,
            expected_u64s: self.expected_u64s@,
            write_bools: self.write_bools@,
            write_u64s: self.write_u64s@,
            bool_cursor: self.bool_cursor as nat,
            u64_cursor: self.u64_cursor as nat,
        }
    }
}

impl ForeignDrainDirector {
    /// Well-formedness: in the writing phase some write is still owed, and
    /// the cursors stay within their lists.
    pub open spec fn inv(&self) -> bool {
        &&& self@.bool_cursor <= self@.write_bools.len()
        &&& self@.u64_cursor <= self@.write_u64s.len()
        &&& self@.phase == DrainPhase::Writing ==> (self@.bool_cursor < self@.write_bools.len()
            || self@.u64_cursor < self@.write_u64s.len())
    }

    /// Begin a drain: the first step is to fetch a batch.
    pub fn new() -> (r: ForeignDrainDirector)
        ensures
            r.inv(),
            r@.phase == DrainPhase::AwaitBatch,
    {
        ForeignDrainDirector {
            phase: DrainPhase::AwaitBatch,
            expected_bools: Vec::new(),
            expected_u64s: Vec::new(),
            write_bools: Vec::new(),
            write_u64s: Vec::new(),
            bool_cursor: 0,
            u64_cursor: 0,
        }
    }

    /// What the shell must do next: a pure function of the phase and the
    /// write cursors.
    pub fn next_action(&self) -> (r: DrainAction)
        requires
            self.inv(),
        ensures
            r == (match self@.phase {
                DrainPhase::AwaitBatch => DrainAction::FetchBatch,
                DrainPhase::AwaitResults => DrainAction::HandleBatch,
                DrainPhase::Writing => if self@.bool_cursor < self@.write_bools.len() {
                    DrainAction::WriteBool(self@.write_bools[self@.bool_cursor as int])
                } else {
                    DrainAction::WriteU64(self@.write_u64s[self@.u64_cursor as int])
                },
                DrainPhase::Finished => DrainAction::Finished,
                DrainPhase::Aborted => DrainAction::Aborted,
            }),
    {
        match self.phase {
            DrainPhase::AwaitBatch => DrainAction::FetchBatch,
            DrainPhase::AwaitResults => DrainAction::HandleBatch,
            DrainPhase::Writing => {
                if self.bool_cursor < self.write_bools.len() {
                    DrainAction::WriteBool(self.write_bools[self.bool_cursor])
                } else {
                    DrainAction::WriteU64(self.write_u64s[self.u64_cursor])
                }
            },
            DrainPhase::Finished => DrainAction::Finished,
            DrainPhase::Aborted => DrainAction::Aborted,
        }
    }

    /// Report the runtime's batch hand-out: "nothing now" completes the
    /// drain; a batch records the handles its measurements owe, in emission
    /// order.
    pub fn on_batch(&mut self, batch: Option<&BatchOperation>) -> (r: Result<(), EmuError>)
        requires
            old(self).inv(),
        ensures
            final(self).inv(),
            old(self)@.phase != DrainPhase::AwaitBatch ==> r == Err::<(), EmuError>(
                EmuError::InvalidState,
            ) && *final(self) == *old(self),
            old(self)@.phase == DrainPhase::AwaitBatch ==> r is Ok && (match batch {
                None => final(self)@.phase == DrainPhase::Finished,
                Some(b) => {
                    &&& final(self)@.phase == DrainPhase::AwaitResults
                    &&& final(self)@.expected_bools == measure_ids(b@.ops)
                    &&& final(self)@.expected_u64s == measure_leaked_ids(b@.ops)
                },
            }),
    {
        match self.phase {
            DrainPhase::AwaitBatch => {},
            _ => {
                return Err(EmuError::InvalidState);
            },
        }
        let batch = match batch {
            None => {
                self.phase = DrainPhase::Finished;
                return Ok(());
            },
            Some(batch) => batch,
        };
        let ghost ops = batch@.ops;
        let mut bools: Vec<u64> = Vec::new();
        let mut u64s: Vec<u64> = Vec::new();
        let n = batch.len();
        let mut i: usize = 0;
        while i < n
            invariant
                i <= n,
                n == ops.len(),
                batch@.ops == ops,
                bools@ == measure_ids(ops.take(i as int)),
                u64s@ == measure_leaked_ids(ops.take(i as int)),
            decreases n - i,
        {
            proof {
                assert(ops.take(i + 1).drop_last() =~= ops.take(i as int));
                assert(ops.take(i + 1).last() == ops[i as int]);
            }
            match batch.op_at(i) {
                Operation::Measure { result_id, .. } => {
                    bools.push(*result_id);
                    proof {
                        assert(bools@ =~= measure_ids(ops.take(i + 1)));
                    }
                },
                Operation::MeasureLeaked { result_id, .. } => {
                    u64s.push(*result_id);
                    proof {
                        assert(u64s@ =~= measure_leaked_ids(ops.take(i + 1)));
                    }
                },
                _ => {
                    proof {
                        assert(bools@ =~= measure_ids(ops.take(i + 1)));
                        assert(u64s@ =~= measure_leaked_ids(ops.take(i + 1)));
                    }
                },
            }
            i = i + 1;
        }
        proof {
            assert(ops.take(n as int) =~= ops);
        }
        self.expected_bools = bools;
        self.expected_u64s = u64s;
        self.phase = DrainPhase::AwaitResults;
        Ok(())
    }

    /// Report the error model's results for the current batch. They must
    /// answer the recorded handles one-for-one and in order; anything else
    /// aborts the drain as a contract violation. On success the write-backs
    /// are owed next (or, for a batch without measurements, the next batch).
    pub fn on_results(&mut self, results: &BatchResult) -> (r: Result<(), EmuError>)
        requires
            old(self).inv(),
        ensures
            final(self).inv(),
            old(self)@.phase != DrainPhase::AwaitResults ==> r == Err::<(), EmuError>(
                EmuError::InvalidState,
            ) && *final(self) == *old(self),
            old(self)@.phase == DrainPhase::AwaitResults ==> {
                &&& (r is Ok <==> (results.bool_ids() == old(self)@.expected_bools
                    && results.u64_ids() == old(self)@.expected_u64s))
                &&& (r is Ok ==> {
                    &&& final(self)@.write_bools == results.bool_results@
                    &&& final(self)@.write_u64s == results.u64_results@
                    &&& final(self)@.bool_cursor == 0
                    &&& final(self)@.u64_cursor == 0
                    &&& final(self)@.phase == (if results.bool_results@.len()
                        + results.u64_results@.len() == 0 {
                        DrainPhase::AwaitBatch
                    } else {
                        DrainPhase::Writing
                    })
                })
                &&& (r is Err ==> r == Err::<(), EmuError>(EmuError::ContractViolation) && final(self)@.phase == DrainPhase::Aborted)
            },
    {
        match self.phase {
            DrainPhase::AwaitResults => {},
            _ => {
                return Err(EmuError::InvalidState);
            },
        }
        let bools_match = bool_ids_match(&results.bool_results, &self.expected_bools);
        let u64s_match = u64_ids_match(&results.u64_results, &self.expected_u64s);
        if !bools_match || !u64s_match {
            self.phase = DrainPhase::Aborted;
            return Err(EmuError::ContractViolation);
        }
        self.write_bools = copy_bool_results(&results.bool_results);
        self.write_u64s = copy_u64_results(&results.u64_results);
        self.bool_cursor = 0;
        self.u64_cursor = 0;
        if self.write_bools.len() == 0 && self.write_u64s.len() == 0 {
            self.phase = DrainPhase::AwaitBatch;
        } else {
            self.phase = DrainPhase::Writing;
        }
        Ok(())
    }

    /// Report that the prescribed write-back succeeded: the next write is
    /// owed, or the next batch once all are written.
    pub fn on_write_done(&mut self) -> (r: Result<(), EmuError>)
        requires
            old(self).inv(),
        ensures
            final(self).inv(),
            old(self)@.phase != DrainPhase::Writing ==> r == Err::<(), EmuError>(
                EmuError::InvalidState,
            ) && *final(self) == *old(self),
            old(self)@.phase == DrainPhase::Writing ==> r is Ok && {
                let advanced_bools = old(self)@.bool_cursor < old(self)@.write_bools.len();
                &&& final(self)@.bool_cursor == (if advanced_bools {
                    (old(self)@.bool_cursor + 1) as int
                } else {
                    old(self)@.bool_cursor as int
                })
                &&& final(self)@.u64_cursor == (if advanced_bools {
                    old(self)@.u64_cursor as int
                } else {
                    (old(self)@.u64_cursor + 1) as int
                })
                &&& final(self)@.phase == (if final(self)@.bool_cursor
                    == final(self)@.write_bools.len() && final(self)@.u64_cursor == final(self)@.write_u64s.len() {
                    DrainPhase::AwaitBatch
                } else {
                    DrainPhase::Writing
                })
                &&& final(self)@.write_bools == old(self)@.write_bools
                &&& final(self)@.write_u64s == old(self)@.write_u64s
            },
    {
        match self.phase {
            DrainPhase::Writing => {},
            _ => {
                return Err(EmuError::InvalidState);
            },
        }
        if self.bool_cursor < self.write_bools.len() {
            self.bool_cursor = self.bool_cursor + 1;
        } else {
            let owed = self.write_u64s.len();
            proof {
                assert(self.u64_cursor < owed);
            }
            self.u64_cursor = self.u64_cursor + 1;
        }
        if self.bool_cursor == self.write_bools.len() && self.u64_cursor == self.write_u64s.len() {
            self.phase = DrainPhase::AwaitBatch;
        }
        Ok(())
    }

    /// Report that a foreign call failed: the drain is aborted and no
    /// further call may be issued.
    pub fn on_failure(&mut self)
        requires
            old(self).inv(),
        ensures
            final(self).inv(),
            final(self)@.phase == DrainPhase::Aborted,
    {
        self.phase = DrainPhase::Aborted;
    }
}

/// Whether the boolean results answer exactly the expected handles, in
/// order.
fn bool_ids_match(results: &Vec<BoolResult64>, expected: &Vec<u64>) -> (r: bool)
    ensures
        r == (results@.map_values(|e: BoolResult64| e.result_id) == expected@),
{
    let ghost ids = results@.map_values(|e: BoolResult64| e.result_id);
    if results.len() != expected.len() {
        proof {
            assert(ids.len() != expected@.len());
        }
        return false;
    }
    let n = results.len();
    let mut i: usize = 0;
    while i < n
        invariant
            i <= n,
            n == results@.len(),
            n == expected@.len(),
            ids == results@.map_values(|e: BoolResult64| e.result_id),
            forall|k: int| 0 <= k < i ==> ids[k] == expected@[k],
        decreases n - i,
    {
        if results[i].result_id != expected[i] {
            proof {
                assert(ids[i as int] != expected@[i as int]);
            }
            return false;
        }
        i = i + 1;
    }
    proof {
        assert(ids =~= expected@);
    }
    true
}

/// Whether the 64-bit results answer exactly the expected handles, in
/// order.
fn u64_ids_match(results: &Vec<U64Result64>, expected: &Vec<u64>) -> (r: bool)
    ensures
        r == (results@.map_values(|e: U64Result64| e.result_id) == expected@),
{
    let ghost ids = results@.map_values(|e: U64Result64| e.result_id);
    if results.len() != expected.len() {
        proof {
            assert(ids.len() != expected@.len());
        }
        return false;
    }
    let n = results.len();
    let mut i: usize = 0;
    while i < n
        invariant
            i <= n,
            n == results@.len(),
            n == expected@.len(),
            ids == results@.map_values(|e: U64Result64| e.result_id),
            forall|k: int| 0 <= k < i ==> ids[k] == expected@[k],
        decreases n - i,
    {
        if results[i].result_id != expected[i] {
            proof {
                assert(ids[i as int] != expected@[i as int]);
            }
            return false;
        }
        i = i + 1;
    }
    proof {
        assert(ids =~= expected@);
    }
    true
}

/// Copy a boolean result list.
fn copy_bool_results(v: &Vec<BoolResult64>) -> (r: Vec<BoolResult64>)
    ensures
        r@ == v@,
{
    let mut r: Vec<BoolResult64> = Vec::new();
    let mut i: usize = 0;
    while i < v.len()
        invariant
            i <= v.len(),
            r@ == v@.take(i as int),
        decreases v.len() - i,
    {
        r.push(v[i]);
        i = i + 1;
        proof {
            assert(v@.take(i as int) == v@.take(i - 1).push(v@[i - 1]));
        }
    }
    proof {
        assert(v@.take(v@.len() as int) == v@);
    }
    r
}

/// Copy a 64-bit result list.
fn copy_u64_results(v: &Vec<U64Result64>) -> (r: Vec<U64Result64>)
    ensures
        r@ == v@,
{
    let mut r: Vec<U64Result64> = Vec::new();
    let mut i: usize = 0;
    while i < v.len()
        invariant
            i <= v.len(),
            r@ == v@.take(i as int),
        decreases v.len() - i,
    {
        r.push(v[i]);
        i = i + 1;
        proof {
            assert(v@.take(i as int) == v@.take(i - 1).push(v@[i - 1]));
        }
    }
    proof {
        assert(v@.take(v@.len() as int) == v@);
    }
    r
}

} // verus!
