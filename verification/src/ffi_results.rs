//! The plain result records the host-facing entry points return: a status
//! code of zero means success, and any payload travels beside it.

use vstd::prelude::*;

verus! {

/// A status-only result.
#[derive(Debug, Clone, Copy, PartialEq, Eq, Structural)]
pub struct VoidResult {
    pub error_code: u32,
}

impl VoidResult {
    pub fn ok() -> (r: VoidResult)
        ensures
            r.error_code == 0,
    {
        VoidResult { error_code: 0 }
    }

    pub fn err(error_code: u32) -> (r: VoidResult)
        ensures
            r.error_code == error_code,
    {
        VoidResult { error_code }
    }
}

/// A status with a 64-bit payload; the payload is zero on failure.
#[derive(Debug, Clone, Copy, PartialEq, Eq, Structural)]
pub struct U64Result {
    pub error_code: u32,
    pub value: u64,
}

impl U64Result {
    pub fn ok(value: u64) -> (r: U64Result)
        ensures
            r.error_code == 0,
            r.value == value,
    {
        U64Result { error_code: 0, value }
    }

    pub fn err(error_code: u32) -> (r: U64Result)
        ensures
            r.error_code == error_code,
            r.value == 0,
    {
        U64Result { error_code, value: 0 }
    }
}

/// A status with a 32-bit payload; the payload is zero on failure.
#[derive(Debug, Clone, Copy, PartialEq, Eq, Structural)]
pub struct U32Result {
    pub error_code: u32,
    pub value: u32,
}

impl U32Result {
    pub fn ok(value: u32) -> (r: U32Result)
        ensures
            r.error_code == 0,
            r.value == value,
    {
        U32Result { error_code: 0, value }
    }

    pub fn err(error_code: u32) -> (r: U32Result)
        ensures
            r.error_code == error_code,
            r.value == 0,
    {
        U32Result { error_code, value: 0 }
    }
}

/// A status with a boolean payload; the payload is false on failure.
#[derive(Debug, Clone, Copy, PartialEq, Eq, Structural)]
pub struct BoolResult {
    pub error_code: u32,
    pub value: bool,
}

impl BoolResult {
    pub fn ok(value: bool) -> (r: BoolResult)
        ensures
            r.error_code == 0,
            r.value == value,
    {
        BoolResult { error_code: 0, value }
    }

    pub fn err(error_code: u32) -> (r: BoolResult)
        ensures
            r.error_code == error_code,
            r.value == false,
    {
        BoolResult { error_code, value: false }
    }
}

/// A status with a future handle; the handle is zero on failure.
#[derive(Debug, Clone, Copy, PartialEq, Eq, Structural)]
pub struct FutureResult {
    pub error_code: u32,
    pub reference: u64,
}

impl FutureResult {
    pub fn ok(reference: u64) -> (r: FutureResult)
        ensures
            r.error_code == 0,
            r.reference == reference,
    {
        FutureResult { error_code: 0, reference }
    }

    pub fn err(error_code: u32) -> (r: FutureResult)
        ensures
            r.error_code == error_code,
            r.reference == 0,
    {
        FutureResult { error_code, reference: 0 }
    }
}

} // verus!
