//! Resolving a kernel symbol to its live address.
//!
//! The composite resolution chains three outside calls — load the
//! kernel image into the engine, ask the engine for the symbol's
//! address, read the live kernel base — and then performs the
//! relocation arithmetic. The calls are platform work done by the
//! unverified shell; the chaining, the meaning of each outcome, the
//! short-circuit on the first failure and the arithmetic all live
//! here, as a small state machine the shell drives.

use crate::errors::ResolveError;
use vstd::prelude::*;

verus! {

/// The address the resolver reports for a symbol, as a mathematical
/// value: the exact difference-plus-base `symbol_addr - module_base +
/// live_base`, wrapped into the `u64` range exactly as the machine
/// subtraction and addition wrap.
///
/// The wrap-around cases are deliberate: the resolver does not guard
/// against a symbol address below the engine's module base, it performs
/// the flat address-space shift and lets the arithmetic wrap. This spec
/// states that behaviour instead of hiding it.
pub open spec fn relocated(symbol_addr: u64, module_base: u64, live_base: u64) -> int {
    let exact = symbol_addr - module_base + live_base;
    if exact < 0 {
        exact + 0x10000000000000000
    } else if exact > u64::MAX {
        exact - 0x10000000000000000
    } else {
        exact
    }
}

/// Translate a symbol address reported by the engine, relative to the
/// engine's private module base, into the running kernel's address
/// space by a flat shift of `live_base - module_base`.
pub fn relocate(symbol_addr: u64, module_base: u64, live_base: u64) -> (r: u64)
    ensures
        r == relocated(symbol_addr, module_base, live_base),
{
    symbol_addr.wrapping_sub(module_base).wrapping_add(live_base)
}

/// Relocation arithmetic law: whenever the symbol lies at or after the
/// engine's module base and the shifted address fits in 64 bits, the
/// relocated address is exactly `symbol_addr - module_base + live_base`.
pub proof fn lemma_relocation_exact(module_base: u64, symbol_addr: u64, live_base: u64)
    requires
        module_base <= symbol_addr,
        symbol_addr - module_base + live_base <= u64::MAX,
    ensures
        relocated(symbol_addr, module_base, live_base) == symbol_addr - module_base
            + live_base,
{
}

/// The on-disk kernel image that the composite resolution loads into
/// the engine.
pub fn kernel_image_path() -> (r: &'static str)
    ensures
        r@ == "C:\\Windows\\System32\\ntoskrnl.exe"@,
{
    "C:\\Windows\\System32\\ntoskrnl.exe"
}

/// What the engine's answer to a module load means: the engine reports
/// the base it assigned to the image, with zero as its error sentinel.
pub fn interpret_module_load(engine_base: u64) -> (r: Result<u64, ResolveError>)
    ensures
        engine_base != 0 ==> r == Ok::<u64, ResolveError>(engine_base),
        engine_base == 0 ==> r == Err::<u64, ResolveError>(ResolveError::ModuleLoadFailed),
{
    if engine_base != 0 {
        Ok(engine_base)
    } else {
        Err(ResolveError::ModuleLoadFailed)
    }
}

/// What the engine's answer to a symbol lookup means. An empty name
/// names no symbol, so it fails with `SymbolNotFound` whatever the
/// engine said; otherwise the engine either reports the symbol's
/// address or has no record of it.
pub fn interpret_symbol_lookup(name: &str, engine_addr: Option<u64>) -> (r: Result<
    u64,
    ResolveError,
>)
    ensures
        name@.len() == 0 ==> r == Err::<u64, ResolveError>(ResolveError::SymbolNotFound),
        name@.len() > 0 ==> match engine_addr {
            Some(addr) => r == Ok::<u64, ResolveError>(addr),
            None => r == Err::<u64, ResolveError>(ResolveError::SymbolNotFound),
        },
{
    if name.is_empty() {
        Err(ResolveError::SymbolNotFound)
    } else {
        match engine_addr {
            Some(addr) => Ok(addr),
            None => Err(ResolveError::SymbolNotFound),
        }
    }
}

/// Where one composite kernel-symbol resolution stands. The states
/// name the outside call whose outcome the resolution waits for next;
/// a failed step jumps straight to `Complete`, so no later call is
/// ever awaited once a step has failed.
#[derive(Clone, Copy, Debug, PartialEq, Eq)]
pub enum QueryState {
    /// Waiting for the engine to load the kernel image.
    AwaitingModuleLoad,
    /// The image is loaded at the engine's private base; waiting for
    /// the engine to look the symbol up.
    AwaitingSymbolLookup { module_base: u64 },
    /// The symbol's engine-relative address is known; waiting for the
    /// live kernel base.
    AwaitingKernelBase { module_base: u64, symbol_addr: u64 },
    /// The resolution is over, successfully or not.
    Complete { outcome: Result<u64, ResolveError> },
}

/// The state after the engine answered the module load: on the zero
/// sentinel the resolution is over with `ModuleLoadFailed`, otherwise
/// the symbol lookup is next.
pub open spec fn load_step(engine_base: u64) -> QueryState {
    if engine_base == 0 {
        QueryState::Complete { outcome: Err(ResolveError::ModuleLoadFailed) }
    } else {
        QueryState::AwaitingSymbolLookup { module_base: engine_base }
    }
}

/// The state after the engine answered the symbol lookup: an empty
/// name or an engine without a record of the symbol ends the
/// resolution with `SymbolNotFound`, otherwise the live kernel base is
/// next.
pub open spec fn lookup_step(
    module_base: u64,
    name: Seq<char>,
    engine_addr: Option<u64>,
) -> QueryState {
    if name.len() == 0 {
        QueryState::Complete { outcome: Err(ResolveError::SymbolNotFound) }
    } else {
        match engine_addr {
            Some(symbol_addr) => QueryState::AwaitingKernelBase { module_base, symbol_addr },
            None => QueryState::Complete { outcome: Err(ResolveError::SymbolNotFound) },
        }
    }
}

/// The final state: without a live kernel base the resolution fails
/// with `KernelBaseUnavailable`, otherwise it succeeds with the
/// relocated address.
pub open spec fn kernel_base_step(
    module_base: u64,
    symbol_addr: u64,
    live_base: Option<u64>,
) -> QueryState {
    match live_base {
        Some(base) => QueryState::Complete {
            outcome: Ok(relocated(symbol_addr, module_base, base) as u64),
        },
        None => QueryState::Complete { outcome: Err(ResolveError::KernelBaseUnavailable) },
    }
}

impl QueryState {
    /// A fresh composite resolution: the module load comes first.
    pub fn start() -> (s: Self)
        ensures
            s is AwaitingModuleLoad,
    {
        QueryState::AwaitingModuleLoad
    }

    /// Feed in the base address the engine reported for the loaded
    /// kernel image.
    pub fn on_module_load(self, engine_base: u64) -> (s: Self)
        requires
            self is AwaitingModuleLoad,
        ensures
            s == load_step(engine_base),
    {
        match interpret_module_load(engine_base) {
            Ok(module_base) => QueryState::AwaitingSymbolLookup { module_base },
            Err(e) => QueryState::Complete { outcome: Err(e) },
        }
    }

    /// Feed in the engine's answer to looking the symbol up by name in
    /// the most recently loaded module: its address, or `None` when
    /// the engine has no record of it.
    pub fn on_symbol_lookup(self, name: &str, engine_addr: Option<u64>) -> (s: Self)
        requires
            self is AwaitingSymbolLookup,
        ensures
            s == lookup_step(self->AwaitingSymbolLookup_module_base, name@, engine_addr),
    {
        let module_base = match self {
            QueryState::AwaitingSymbolLookup { module_base } => module_base,
            _ => 0,
        };
        match interpret_symbol_lookup(name, engine_addr) {
            Ok(symbol_addr) => QueryState::AwaitingKernelBase { module_base, symbol_addr },
            Err(e) => QueryState::Complete { outcome: Err(e) },
        }
    }

    /// Feed in the live kernel base, or `None` when the locator has
    /// none, and finish the resolution.
    pub fn on_kernel_base(self, live_base: Option<u64>) -> (s: Self)
        requires
            self is AwaitingKernelBase,
        ensures
            s == kernel_base_step(
                self->AwaitingKernelBase_module_base,
                self->AwaitingKernelBase_symbol_addr,
                live_base,
            ),
    {
        let (module_base, symbol_addr) = match self {
            QueryState::AwaitingKernelBase { module_base, symbol_addr } => (
                module_base,
                symbol_addr,
            ),
            _ => (0, 0),
        };
        match live_base {
            Some(base) => QueryState::Complete {
                outcome: Ok(relocate(symbol_addr, module_base, base)),
            },
            None => QueryState::Complete { outcome: Err(ResolveError::KernelBaseUnavailable) },
        }
    }
}

/// Short-circuit law for a failed load: when the engine cannot load
/// the kernel image and reports its zero sentinel, the resolution is
/// over at once with `ModuleLoadFailed` — no symbol lookup is awaited
/// and no live address is computed.
pub proof fn lemma_failed_load_resolves_nothing()
    ensures
        load_step(0) == (QueryState::Complete {
            outcome: Err::<u64, ResolveError>(ResolveError::ModuleLoadFailed),
        }),
{
}

/// Absent-symbol law: when the engine has no record of the requested
/// name in the most recently loaded module, the resolution fails with
/// `SymbolNotFound`.
pub proof fn lemma_absent_symbol_fails(module_base: u64, name: Seq<char>)
    ensures
        lookup_step(module_base, name, None) == (QueryState::Complete {
            outcome: Err::<u64, ResolveError>(ResolveError::SymbolNotFound),
        }),
{
}

/// Empty-name law: an empty symbol name fails with `SymbolNotFound`
/// whatever address the engine would report, never yielding a garbage
/// address.
pub proof fn lemma_empty_name_fails(module_base: u64, engine_addr: Option<u64>)
    ensures
        lookup_step(module_base, Seq::<char>::empty(), engine_addr) == (QueryState::Complete {
            outcome: Err::<u64, ResolveError>(ResolveError::SymbolNotFound),
        }),
{
}

/// End-to-end law: when the engine loads the image at a non-zero base
/// `module_base`, knows the non-empty symbol name at `symbol_addr` with
/// `symbol_addr >= module_base`, the live kernel base is `live_base`,
/// and the shifted address fits in 64 bits, the composite resolution
/// walks through its three states and completes with exactly
/// `symbol_addr - module_base + live_base`.
pub proof fn lemma_resolution_end_to_end(
    module_base: u64,
    name: Seq<char>,
    symbol_addr: u64,
    live_base: u64,
)
    requires
        module_base != 0,
        name.len() > 0,
        module_base <= symbol_addr,
        symbol_addr - module_base + live_base <= u64::MAX,
    ensures
        load_step(module_base) == (QueryState::AwaitingSymbolLookup { module_base }),
        lookup_step(module_base, name, Some(symbol_addr)) == (QueryState::AwaitingKernelBase {
            module_base,
            symbol_addr,
        }),
        kernel_base_step(module_base, symbol_addr, Some(live_base)) == (QueryState::Complete {
            outcome: Ok::<u64, ResolveError>((symbol_addr - module_base + live_base) as u64),
        }),
{
    lemma_relocation_exact(module_base, symbol_addr, live_base);
}

} // verus!
