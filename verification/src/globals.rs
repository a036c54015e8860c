//! The host runtime's executor state.
//!
//! The host keeps one process-wide slot for a pending, not-yet-handled
//! exception, and this model additionally counts how often the invocation
//! bridge has been entered, so that callers can state that a failure path
//! made no foreign call. The state is passed explicitly: the embedding
//! runs a single execution thread, and whoever owns the
//! [`ExecutorGlobals`] value owns that thread's view of the runtime.

use vstd::prelude::*;
use crate::zval::{Zval, ZvalV};

verus! {

/// Abstract executor state.
pub ghost struct GlobalsV {
    /// The pending exception, if one was raised and not yet taken.
    pub exception: Option<ZvalV>,
    /// How often the invocation bridge has been entered.
    pub invocations: int,
}

/// The invocation count after one more bridge entry; it sticks at the
/// counter's maximum rather than wrap.
pub open spec fn bumped_count(n: int) -> int {
    if n < u64::MAX {
        n + 1
    } else {
        n
    }
}

/// The host runtime's executor state: the pending-exception slot and the
/// bridge-entry counter.
#[derive(Debug)]
pub struct ExecutorGlobals {
    exception: Option<Zval>,
    invocations: u64,
}

impl View for ExecutorGlobals {
    type V = GlobalsV;

    closed spec fn view(&self) -> GlobalsV {
        GlobalsV {
            exception: self.exception.deep_view(),
            invocations: self.invocations as int,
        }
    }
}

impl ExecutorGlobals {
    /// Executor state at runtime startup: no pending exception, no
    /// bridge entries yet.
    pub fn new() -> (g: ExecutorGlobals)
        ensures
            g@ == (GlobalsV { exception: None, invocations: 0 }),
    {
        ExecutorGlobals { exception: None, invocations: 0 }
    }

    /// Take the pending exception and clear the slot. Destructive: a
    /// second take immediately after yields nothing.
    pub fn take_exception(&mut self) -> (r: Option<Zval>)
        ensures
            r.deep_view() == old(self)@.exception,
            final(self)@ == (GlobalsV { exception: None, invocations: old(self)@.invocations }),
    {
        let mut taken: Option<Zval> = None;
        core::mem::swap(&mut self.exception, &mut taken);
        taken
    }

    /// Look at the pending exception without clearing the slot.
    pub fn peek_exception(&self) -> (r: &Option<Zval>)
        ensures
            r.deep_view() == self@.exception,
    {
        &self.exception
    }

    /// How often the invocation bridge has been entered.
    pub fn invocations(&self) -> (r: u64)
        ensures
            r as int == self@.invocations,
    {
        self.invocations
    }

    /// Raise `exception`: the slot now holds it, replacing any earlier one.
    pub(crate) fn set_exception(&mut self, exception: Zval)
        ensures
            final(self)@ == (GlobalsV {
                exception: Some(exception@),
                invocations: old(self)@.invocations,
            }),
    {
        self.exception = Some(exception);
    }

    /// Count one entry into the invocation bridge.
    pub(crate) fn record_invocation(&mut self)
        ensures
            final(self)@ == (GlobalsV {
                exception: old(self)@.exception,
                invocations: bumped_count(old(self)@.invocations),
            }),
    {
        if self.invocations < u64::MAX {
            self.invocations = self.invocations + 1;
        }
    }
}

} // verus!
