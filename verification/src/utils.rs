//! Small shared values: the typed metric value and counter arithmetic.

use vstd::prelude::*;

verus! {

/// One typed metric value, as the metric enumeration yields it. A foreign
/// floating-point metric crosses the boundary as its 64-bit encoding.
#[derive(Debug, Clone, Copy, PartialEq, Eq, Structural)]
pub enum MetricValue {
    Bool(bool),
    I64(i64),
    U64(u64),
    F64Bits(u64),
}

/// The saturating successor of a diagnostic counter.
pub open spec fn bumped(c: u64) -> u64 {
    if c == u64::MAX {
        c
    } else {
        (c + 1) as u64
    }
}

/// Count one more event, saturating at the counter's maximum.
pub fn bump(c: u64) -> (r: u64)
    ensures
        r == bumped(c),
{
    if c == u64::MAX {
        c
    } else {
        c + 1
    }
}

} // verus!
