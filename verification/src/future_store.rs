//! The lazy result store: a per-shot table of integer handles to measurement
//! outcomes that may not have been computed yet.
//!
//! A handle is created with reference count 1 when a measurement is emitted,
//! written at most once by the result write-back step, read as "not yet
//! available" while unresolved, and must not be touched once its reference
//! count has reached zero.

use vstd::prelude::*;

use crate::errors::EmuError;

verus! {

/// One future: its reference count, whether it has been resolved, and the
/// resolved value (meaningful only once resolved).
#[derive(Debug, Clone, Copy, PartialEq, Eq, Structural)]
pub struct FutureSlot {
    pub refcount: u64,
    pub resolved: bool,
    pub value: u64,
}

/// The per-shot table of futures, keyed by the dense handle that created
/// them.
#[derive(Debug, Clone, PartialEq)]
pub struct FutureStore {
    pub slots: Vec<FutureSlot>,
}

impl FutureStore {
    /// Whether `h` names a live future: one that was created and whose
    /// reference count has not reached zero.
    pub open spec fn live(self, h: u64) -> bool {
        h < self.slots@.len() && self.slots@[h as int].refcount > 0
    }

    pub fn new() -> (r: FutureStore)
        ensures
            r.slots@ == Seq::<FutureSlot>::empty(),
    {
        FutureStore { slots: Vec::new() }
    }

    /// Forget every future: the per-shot reset.
    pub fn clear(&mut self)
        ensures
            final(self).slots@ == Seq::<FutureSlot>::empty(),
    {
        self.slots.clear();
    }

    pub fn len(&self) -> (r: usize)
        ensures
            r == self.slots@.len(),
    {
        self.slots.len()
    }

    /// Create a fresh unresolved future with reference count 1 and return its
    /// handle.
    pub fn create(&mut self) -> (h: u64)
        requires
            old(self).slots@.len() < u64::MAX,
        ensures
            h == old(self).slots@.len(),
            final(self).slots@ == old(self).slots@.push(
                FutureSlot { refcount: 1, resolved: false, value: 0 },
            ),
    {
        let h = self.slots.len() as u64;
        self.slots.push(FutureSlot { refcount: 1, resolved: false, value: 0 });
        h
    }

    /// Resolve a future. Fails `InvalidResultHandle` on a handle that was
    /// never created or is no longer live, and `ContractViolation` on a
    /// second write to an already-resolved future; either failure leaves the
    /// store unchanged.
    pub fn set(&mut self, h: u64, value: u64) -> (r: Result<(), EmuError>)
        ensures
            r is Ok <==> (old(self).live(h) && !old(self).slots@[h as int].resolved),
            r is Ok ==> final(self).slots@ == old(self).slots@.update(
                h as int,
                FutureSlot { resolved: true, value, ..old(self).slots@[h as int] },
            ),
            r is Err ==> *final(self) == *old(self),
            r matches Err(e) ==> (e == EmuError::InvalidResultHandle <==> !old(self).live(h)),
            r matches Err(e) ==> (e == EmuError::ContractViolation <==> (old(self).live(h) && old(
                self,
            ).slots@[h as int].resolved)),
    {
        if h >= self.slots.len() as u64 {
            return Err(EmuError::InvalidResultHandle);
        }
        let i = h as usize;
        if self.slots[i].refcount == 0 {
            return Err(EmuError::InvalidResultHandle);
        }
        if self.slots[i].resolved {
            return Err(EmuError::ContractViolation);
        }
        let refcount = self.slots[i].refcount;
        self.slots.set(i, FutureSlot { refcount, resolved: true, value });
        Ok(())
    }

    /// Read a future. An unresolved future reads as `None` ("not yet
    /// available", not an error); a handle that is not live fails
    /// `InvalidResultHandle`.
    pub fn get(&self, h: u64) -> (r: Result<Option<u64>, EmuError>)
        ensures
            r is Ok <==> self.live(h),
            self.live(h) ==> r == Ok::<Option<u64>, EmuError>(
                if self.slots@[h as int].resolved {
                    Some(self.slots@[h as int].value)
                } else {
                    None
                },
            ),
            !self.live(h) ==> r == Err::<Option<u64>, EmuError>(EmuError::InvalidResultHandle),
    {
        if h >= self.slots.len() as u64 {
            return Err(EmuError::InvalidResultHandle);
        }
        let i = h as usize;
        if self.slots[i].refcount == 0 {
            return Err(EmuError::InvalidResultHandle);
        }
        if self.slots[i].resolved {
            Ok(Some(self.slots[i].value))
        } else {
            Ok(None)
        }
    }

    /// Raise the reference count of a live future by one.
    pub fn increment_refcount(&mut self, h: u64) -> (r: Result<(), EmuError>)
        ensures
            r is Ok <==> (old(self).live(h) && old(self).slots@[h as int].refcount < u64::MAX),
            r is Ok ==> final(self).slots@ == old(self).slots@.update(
                h as int,
                FutureSlot {
                    refcount: (old(self).slots@[h as int].refcount + 1) as u64,
                    ..old(self).slots@[h as int]
                },
            ),
            r is Err ==> *final(self) == *old(self),
            !old(self).live(h) ==> r == Err::<(), EmuError>(EmuError::InvalidResultHandle),
            old(self).live(h) && old(self).slots@[h as int].refcount == u64::MAX ==> r == Err::<
                (),
                EmuError,
            >(EmuError::ContractViolation),
    {
        if h >= self.slots.len() as u64 {
            return Err(EmuError::InvalidResultHandle);
        }
        let i = h as usize;
        let slot = self.slots[i];
        if slot.refcount == 0 {
            return Err(EmuError::InvalidResultHandle);
        }
        if slot.refcount == u64::MAX {
            return Err(EmuError::ContractViolation);
        }
        self.slots.set(i, FutureSlot { refcount: slot.refcount + 1, ..slot });
        Ok(())
    }

    /// Lower the reference count of a live future by one. A count that
    /// reaches zero ends the future's life: no later read or write of the
    /// handle is permitted.
    pub fn decrement_refcount(&mut self, h: u64) -> (r: Result<(), EmuError>)
        ensures
            r is Ok <==> old(self).live(h),
            r is Ok ==> final(self).slots@ == old(self).slots@.update(
                h as int,
                FutureSlot {
                    refcount: (old(self).slots@[h as int].refcount - 1) as u64,
                    ..old(self).slots@[h as int]
                },
            ),
            r is Err ==> *final(self) == *old(self) && r == Err::<(), EmuError>(
                EmuError::InvalidResultHandle,
            ),
    {
        if h >= self.slots.len() as u64 {
            return Err(EmuError::InvalidResultHandle);
        }
        let i = h as usize;
        let slot = self.slots[i];
        if slot.refcount == 0 {
            return Err(EmuError::InvalidResultHandle);
        }
        self.slots.set(i, FutureSlot { refcount: slot.refcount - 1, ..slot });
        Ok(())
    }
}

/// The relation `FutureStore::set` establishes between the store before the
/// call, the store after it, and the call's outcome: exactly its contract.
pub open spec fn set_contract(
    pre: FutureStore,
    h: u64,
    value: u64,
    post: FutureStore,
    r: Result<(), EmuError>,
) -> bool {
    &&& (r is Ok <==> (pre.live(h) && !pre.slots@[h as int].resolved))
    &&& (r is Ok ==> post.slots@ == pre.slots@.update(
        h as int,
        FutureSlot { resolved: true, value, ..pre.slots@[h as int] },
    ))
    &&& (r is Err ==> post == pre)
    &&& (r matches Err(e) ==> (e == EmuError::InvalidResultHandle <==> !pre.live(h)))
    &&& (r matches Err(e) ==> (e == EmuError::ContractViolation <==> (pre.live(h)
        && pre.slots@[h as int].resolved)))
}

/// At-most-one resolution: a write to a live future succeeds and resolves it;
/// after that, any second write — whatever value it carries — fails as a
/// contract violation and leaves the store unchanged.
pub proof fn lemma_at_most_one_resolution(
    pre: FutureStore,
    h: u64,
    v1: u64,
    mid: FutureStore,
    r1: Result<(), EmuError>,
    v2: u64,
    post: FutureStore,
    r2: Result<(), EmuError>,
)
    requires
        pre.live(h),
        !pre.slots@[h as int].resolved,
        set_contract(pre, h, v1, mid, r1),
        set_contract(mid, h, v2, post, r2),
    ensures
        r1 is Ok,
        mid.slots@[h as int].resolved && mid.slots@[h as int].value == v1,
        r2 == Err::<(), EmuError>(EmuError::ContractViolation),
        post == mid,
{
}

} // verus!
