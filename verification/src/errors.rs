//! The failure taxonomy of the resolver.

use vstd::prelude::*;

verus! {

/// Everything that can go wrong while resolving a kernel symbol.
///
/// Every failure is surfaced to the caller of the operation that
/// detected it; nothing is retried and nothing is silently swallowed.
#[derive(Clone, Copy, Debug, PartialEq, Eq, Structural)]
pub enum ResolveError {
    /// The operating system's module enumeration failed or reported a
    /// null base address.
    EnumerationFailed,
    /// The symbol-resolution engine refused to initialize a session for
    /// this process.
    EngineInitFailed,
    /// The engine could not load the requested image, reported either
    /// as an engine error or as its zero-base sentinel.
    ModuleLoadFailed,
    /// The engine has no record of the requested symbol in the most
    /// recently loaded module, or the requested name was empty.
    SymbolNotFound,
    /// The live kernel base could not be determined; a cached earlier
    /// enumeration failure propagates as this error.
    KernelBaseUnavailable,
}

} // verus!
