//! The critical-section cell: a process-wide slot that carries a peripheral
//! handle from the startup context into interrupt context. The slot is empty
//! at power-on, filled exactly once by `install`, and never emptied again.
//! Every access happens while the global interrupt mask is held — the outer
//! layer wraps each call into this module in a masked section, so accesses
//! are totally ordered and no two can interleave.

use vstd::prelude::*;
use crate::errors::CellError;

verus! {

/// A slot for one hardware resource handle, `None` until startup moves the
/// handle in.
pub struct SharedCell<T> {
    slot: Option<T>,
}

impl<T> SharedCell<T> {
    /// The slot's contents.
    pub closed spec fn contents(&self) -> Option<T> {
        self.slot
    }

    pub open spec fn is_installed(&self) -> bool {
        self.contents() is Some
    }

    /// The installed handle.
    pub open spec fn value(&self) -> T
        recommends
            self.is_installed(),
    {
        self.contents()->Some_0
    }

    /// Empty at power-on.
    pub fn new() -> (r: SharedCell<T>)
        ensures
            !r.is_installed(),
    {
        SharedCell { slot: None }
    }

    pub fn installed(&self) -> (r: bool)
        ensures
            r == self.is_installed(),
    {
        self.slot.is_some()
    }

    /// Move the handle in. Called exactly once, before the interrupt source
    /// that reads the slot is unmasked; the precondition makes a second call
    /// impossible in verified code.
    pub fn install(&mut self, handle: T)
        requires
            !old(self).is_installed(),
        ensures
            final(self).contents() == Some(handle),
    {
        self.slot = Some(handle);
    }

    /// Exclusive mutable access to the installed handle. Callers hold the
    /// interrupt mask for the whole borrow and keep it short — a handful of
    /// register writes — since it bounds interrupt latency system-wide.
    pub fn borrow_mut(&mut self) -> (r: &mut T)
        requires
            old(self).is_installed(),
        ensures
            *r == old(self).value(),
            final(self).contents() == Some(*final(r)),
    {
        match &mut self.slot {
            Some(handle) => handle,
            None => vstd::pervasive::unreached(),
        }
    }

    /// Checked access: before installation it always reports the failure —
    /// never a silent no-op — and the caller halts on it.
    pub fn try_borrow(&self) -> (r: Result<&T, CellError>)
        ensures
            r is Ok <==> self.is_installed(),
            r matches Ok(v) ==> *v == self.value(),
            r matches Err(e) ==> e == CellError::NotInstalled,
    {
        match &self.slot {
            Some(handle) => Ok(handle),
            None => Err(CellError::NotInstalled),
        }
    }
}

} // verus!
