//! Observation hooks: the user-facing events an emulation instance can
//! record for diagnostics, beside the batches and results it drains.

use vstd::prelude::*;

verus! {

/// One user-facing event, as a hook sees it. Angles are opaque 64-bit
/// encodings.
#[derive(Debug, Clone, PartialEq)]
pub enum UserEvent {
    QFree(u64),
    QAlloc(u64),
    RXY(u64, u64, u64),
    RZZ(u64, u64, u64),
    RZ(u64, u64),
    Reset(u64),
    MeasureRequest(u64),
    MeasureLeakedRequest(u64),
    FutureRead(u64),
    BatchStart(u64, u64),
    GlobalBarrier(u64),
    LocalBarrier(Vec<u64>, u64),
    Custom(u64, Vec<u8>),
}

} // verus!
