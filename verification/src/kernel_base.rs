//! Locating the base address of the running kernel.
//!
//! The operating system's driver enumeration is performed by the
//! unverified shell; it reports whether the call succeeded and the
//! first enumerated base address. This module decides what those
//! outcomes mean and memoizes the first decision for the rest of the
//! process's life: the running kernel cannot move while the process
//! lives, so neither a success nor a failure is ever recomputed.

use crate::errors::ResolveError;
use vstd::prelude::*;

verus! {

/// What one OS enumeration outcome means: the first enumerated base is
/// the running kernel's base, unless the call failed or reported a
/// null address.
pub open spec fn enumeration_base(call_succeeded: bool, first_base: u64) -> Option<u64> {
    if call_succeeded && first_base != 0 {
        Some(first_base)
    } else {
        None
    }
}

/// The result reported for a recorded kernel-base outcome: the base on
/// a recorded success, `EnumerationFailed` on a recorded failure.
pub open spec fn base_report(recorded: Option<u64>) -> Result<u64, ResolveError> {
    match recorded {
        Some(base) => Ok(base),
        None => Err(ResolveError::EnumerationFailed),
    }
}

/// What the locator remembers after a lookup: the recorded outcome if
/// one exists already, else the meaning of the fresh OS outcome.
pub open spec fn memoized_outcome(
    recorded: Option<Option<u64>>,
    call_succeeded: bool,
    first_base: u64,
) -> Option<u64> {
    match recorded {
        Some(outcome) => outcome,
        None => enumeration_base(call_succeeded, first_base),
    }
}

/// Interpret one OS driver-enumeration outcome on its own: the base
/// address when the call succeeded with a non-null first entry, and
/// `EnumerationFailed` otherwise.
pub fn interpret_enumeration(call_succeeded: bool, first_base: u64) -> (r: Result<
    u64,
    ResolveError,
>)
    ensures
        r == base_report(enumeration_base(call_succeeded, first_base)),
{
    if call_succeeded && first_base != 0 {
        Ok(first_base)
    } else {
        Err(ResolveError::EnumerationFailed)
    }
}

/// The process-wide kernel-base cache. It records the meaning of the
/// first enumeration outcome it is given — success or failure — and
/// answers every later lookup from that record alone.
pub struct KernelBaseLocator {
    cached: Option<Option<u64>>,
}

impl KernelBaseLocator {
    /// What the locator has recorded: `None` before the first lookup,
    /// then the meaning of the first enumeration outcome, forever.
    pub closed spec fn recorded(self) -> Option<Option<u64>> {
        self.cached
    }

    /// A fresh locator that has recorded nothing yet.
    pub fn new() -> (locator: Self)
        ensures
            locator.recorded() is None,
    {
        KernelBaseLocator { cached: None }
    }

    /// Whether a first lookup has been recorded already; when it has,
    /// no further OS enumeration is ever needed.
    pub fn has_record(&self) -> (r: bool)
        ensures
            r == (self.recorded() is Some),
    {
        self.cached.is_some()
    }

    /// Report the live kernel base. The first lookup records what the
    /// given enumeration outcome means; every later lookup answers
    /// from the record and ignores the outcome it is handed, even if
    /// the underlying OS state has changed.
    pub fn get_live_kernel_base(&mut self, call_succeeded: bool, first_base: u64) -> (r: Result<
        u64,
        ResolveError,
    >)
        ensures
            final(self).recorded() == Some(
                memoized_outcome(old(self).recorded(), call_succeeded, first_base),
            ),
            r == base_report(memoized_outcome(old(self).recorded(), call_succeeded, first_base)),
    {
        let outcome: Option<u64> = match self.cached {
            Some(outcome) => outcome,
            None => {
                let fresh: Option<u64> = if call_succeeded && first_base != 0 {
                    Some(first_base)
                } else {
                    None
                };
                self.cached = Some(fresh);
                fresh
            },
        };
        match outcome {
            Some(base) => Ok(base),
            None => Err(ResolveError::EnumerationFailed),
        }
    }
}

/// Memoization law: once a lookup has been answered, a second lookup
/// returns the identical value and leaves the record unchanged,
/// whatever the OS would report the second time.
pub proof fn lemma_kernel_base_memoized(
    recorded: Option<Option<u64>>,
    first_succeeded: bool,
    first_reported: u64,
    second_succeeded: bool,
    second_reported: u64,
)
    ensures
        ({
            let after_first = memoized_outcome(recorded, first_succeeded, first_reported);
            let after_second = memoized_outcome(
                Some(after_first),
                second_succeeded,
                second_reported,
            );
            after_second == after_first && base_report(after_second) == base_report(after_first)
        }),
{
}

} // verus!
