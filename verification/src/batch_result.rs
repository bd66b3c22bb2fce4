//! The results an error model returns for one batch of operations.

use vstd::prelude::*;

verus! {

/// A boolean measurement outcome bound to a result handle.
#[derive(Debug, Clone, Copy, PartialEq, Eq, Structural)]
pub struct BoolResult64 {
    pub result_id: u64,
    pub value: bool,
}

/// A 64-bit measurement outcome bound to a result handle.
#[derive(Debug, Clone, Copy, PartialEq, Eq, Structural)]
pub struct U64Result64 {
    pub result_id: u64,
    pub value: u64,
}

/// Exactly one entry per `Measure` (boolean) and per `MeasureLeaked`
/// (64-bit) operation of the batch it answers, in emission order: never
/// zero, never duplicated.
#[derive(Debug, Clone, PartialEq)]
pub struct BatchResult {
    pub bool_results: Vec<BoolResult64>,
    pub u64_results: Vec<U64Result64>,
}

impl BatchResult {
    /// The handles of the boolean results, in order.
    pub open spec fn bool_ids(self) -> Seq<u64> {
        self.bool_results@.map_values(|r: BoolResult64| r.result_id)
    }

    /// The handles of the 64-bit results, in order.
    pub open spec fn u64_ids(self) -> Seq<u64> {
        self.u64_results@.map_values(|r: U64Result64| r.result_id)
    }

    pub fn new() -> (r: BatchResult)
        ensures
            r.bool_results@ == Seq::<BoolResult64>::empty(),
            r.u64_results@ == Seq::<U64Result64>::empty(),
    {
        BatchResult { bool_results: Vec::new(), u64_results: Vec::new() }
    }

    /// Record the boolean outcome for a handle.
    pub fn set_bool_result(&mut self, result_id: u64, value: bool)
        ensures
            final(self).bool_results@ == old(self).bool_results@.push(
                BoolResult64 { result_id, value },
            ),
            final(self).u64_results@ == old(self).u64_results@,
    {
        self.bool_results.push(BoolResult64 { result_id, value });
    }

    /// Record the 64-bit outcome for a handle.
    pub fn set_u64_result(&mut self, result_id: u64, value: u64)
        ensures
            final(self).u64_results@ == old(self).u64_results@.push(
                U64Result64 { result_id, value },
            ),
            final(self).bool_results@ == old(self).bool_results@,
    {
        self.u64_results.push(U64Result64 { result_id, value });
    }
}

} // verus!
