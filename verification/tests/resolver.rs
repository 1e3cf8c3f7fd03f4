use kernel_symbols::errors::ResolveError;
use kernel_symbols::kernel_base::{interpret_enumeration, KernelBaseLocator};
use kernel_symbols::resolve::{
    interpret_module_load, interpret_symbol_lookup, kernel_image_path, relocate, QueryState,
};
use kernel_symbols::search_path::effective_search_path;
use kernel_symbols::session::{SessionCore, SessionPhase};
use kernel_symbols::wide::to_wide_string;

#[test]
fn default_search_path_is_the_documented_literal() {
    let path = effective_search_path(None);
    assert_eq!(
        path,
        "srv*C:\\Symbols*https://msdl.microsoft.com/download/symbols"
    );
}

#[test]
fn supplied_search_path_is_interpolated_literally() {
    let path = effective_search_path(Some("D:\\Cache"));
    assert_eq!(
        path,
        "srv*D:\\Cache*https://msdl.microsoft.com/download/symbols"
    );
}

#[test]
fn relocation_is_exact_when_symbol_is_at_or_after_module_base() {
    assert_eq!(relocate(0x1040, 0x1000, 0x5000), 0x5040);
    assert_eq!(relocate(0x1000, 0x1000, 0x7000), 0x7000);
}

#[test]
fn relocation_wraps_when_symbol_is_below_module_base() {
    assert_eq!(relocate(0, 1, 0), u64::MAX);
    assert_eq!(relocate(0x1000, 0x2000, 0x800), 0xFFFFFFFFFFFFF800);
}

#[test]
fn relocation_wraps_when_shifted_address_overflows() {
    assert_eq!(relocate(u64::MAX, 0, 1), 0);
}

#[test]
fn end_to_end_resolution_reports_the_relocated_address() {
    let state = QueryState::start();
    let state = state.on_module_load(0x1000);
    assert_eq!(state, QueryState::AwaitingSymbolLookup { module_base: 0x1000 });
    let state = state.on_symbol_lookup("Foo", Some(0x1040));
    assert_eq!(
        state,
        QueryState::AwaitingKernelBase { module_base: 0x1000, symbol_addr: 0x1040 }
    );
    let state = state.on_kernel_base(Some(0xFFFF800000000000));
    assert_eq!(
        state,
        QueryState::Complete { outcome: Ok(0xFFFF800000000040) }
    );
}

#[test]
fn failed_module_load_ends_the_resolution_with_module_load_failed() {
    let state = QueryState::start().on_module_load(0);
    assert_eq!(
        state,
        QueryState::Complete { outcome: Err(ResolveError::ModuleLoadFailed) }
    );
}

#[test]
fn absent_symbol_fails_with_symbol_not_found() {
    let state = QueryState::start()
        .on_module_load(0x4000)
        .on_symbol_lookup("NoSuchSymbol", None);
    assert_eq!(
        state,
        QueryState::Complete { outcome: Err(ResolveError::SymbolNotFound) }
    );
}

#[test]
fn empty_symbol_name_fails_with_symbol_not_found() {
    let state = QueryState::start()
        .on_module_load(0x4000)
        .on_symbol_lookup("", Some(0xDEAD));
    assert_eq!(
        state,
        QueryState::Complete { outcome: Err(ResolveError::SymbolNotFound) }
    );
}

#[test]
fn missing_kernel_base_fails_with_kernel_base_unavailable() {
    let state = QueryState::start()
        .on_module_load(0x4000)
        .on_symbol_lookup("Foo", Some(0x4040))
        .on_kernel_base(None);
    assert_eq!(
        state,
        QueryState::Complete { outcome: Err(ResolveError::KernelBaseUnavailable) }
    );
}

#[test]
fn interpret_module_load_uses_zero_as_error_sentinel() {
    assert_eq!(interpret_module_load(0x12340000), Ok(0x12340000));
    assert_eq!(
        interpret_module_load(0),
        Err(ResolveError::ModuleLoadFailed)
    );
}

#[test]
fn interpret_symbol_lookup_rejects_empty_names_and_absent_symbols() {
    assert_eq!(interpret_symbol_lookup("Foo", Some(0x1040)), Ok(0x1040));
    assert_eq!(
        interpret_symbol_lookup("Foo", None),
        Err(ResolveError::SymbolNotFound)
    );
    assert_eq!(
        interpret_symbol_lookup("", Some(0x1040)),
        Err(ResolveError::SymbolNotFound)
    );
}

#[test]
fn interpret_enumeration_requires_success_and_a_non_null_base() {
    assert_eq!(interpret_enumeration(true, 0xFFFF800000000000), Ok(0xFFFF800000000000));
    assert_eq!(
        interpret_enumeration(true, 0),
        Err(ResolveError::EnumerationFailed)
    );
    assert_eq!(
        interpret_enumeration(false, 0xFFFF800000000000),
        Err(ResolveError::EnumerationFailed)
    );
}

#[test]
fn kernel_base_success_is_memoized_across_changed_os_state() {
    let mut locator = KernelBaseLocator::new();
    assert_eq!(locator.get_live_kernel_base(true, 0x1234), Ok(0x1234));
    assert_eq!(locator.get_live_kernel_base(false, 0), Ok(0x1234));
    assert_eq!(locator.get_live_kernel_base(true, 0x9999), Ok(0x1234));
}

#[test]
fn kernel_base_failure_is_memoized_and_never_retried() {
    let mut locator = KernelBaseLocator::new();
    assert_eq!(
        locator.get_live_kernel_base(false, 0),
        Err(ResolveError::EnumerationFailed)
    );
    assert_eq!(
        locator.get_live_kernel_base(true, 0x9999),
        Err(ResolveError::EnumerationFailed)
    );
}

#[test]
fn session_initialization_failure_acquires_nothing() {
    let mut core = SessionCore::new();
    assert_eq!(core.current_phase(), SessionPhase::Uninitialized);
    assert_eq!(
        core.record_initialization(false),
        Err(ResolveError::EngineInitFailed)
    );
    assert_eq!(core.current_phase(), SessionPhase::Uninitialized);
}

#[test]
fn session_lifecycle_runs_to_a_single_cleanup() {
    let mut core = SessionCore::new();
    assert_eq!(core.record_initialization(true), Ok(()));
    assert_eq!(core.current_phase(), SessionPhase::Initialized);
    core.record_cleanup();
    assert_eq!(core.current_phase(), SessionPhase::CleanedUp);
}

#[test]
fn wide_string_encodes_ascii_with_a_null_terminator() {
    assert_eq!(to_wide_string("AB"), vec![0x41, 0x42, 0]);
}

#[test]
fn wide_string_of_empty_input_is_just_the_terminator() {
    assert_eq!(to_wide_string(""), vec![0]);
}

#[test]
fn wide_string_encodes_the_basic_multilingual_plane_in_one_unit() {
    assert_eq!(to_wide_string("é"), vec![0xE9, 0]);
    assert_eq!(to_wide_string("C:\\"), vec![0x43, 0x3A, 0x5C, 0]);
}

#[test]
fn wide_string_encodes_supplementary_characters_as_surrogate_pairs() {
    assert_eq!(to_wide_string("\u{1D11E}"), vec![0xD834, 0xDD1E, 0]);
}

#[test]
fn wide_string_matches_the_std_encoder_on_a_mixed_sample() {
    let sample = "srv*C:\\Symbols*π𝄞";
    let expected: Vec<u16> = sample.encode_utf16().chain(std::iter::once(0)).collect();
    assert_eq!(to_wide_string(sample), expected);
}

#[test]
fn kernel_image_path_names_the_on_disk_kernel() {
    assert_eq!(kernel_image_path(), "C:\\Windows\\System32\\ntoskrnl.exe");
}
