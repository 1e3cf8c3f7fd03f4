//! Building the symbol search path handed to the resolution engine.

use vstd::prelude::*;
use vstd::string::StringExecFns;

verus! {

/// The search path built around a local cache directory: the engine's
/// `srv*<local-cache-dir>*<remote-symbol-server-url>` template with the
/// fixed remote symbol server.
pub open spec fn search_path_with(cache: Seq<char>) -> Seq<char> {
    "srv*"@ + cache + "*https://msdl.microsoft.com/download/symbols"@
}

/// The search path used when the caller supplies no cache directory.
pub open spec fn default_search_path() -> Seq<char> {
    search_path_with("C:\\Symbols"@)
}

/// Build the effective symbol search path: the caller's cache
/// directory interpolated into the fixed template, or the default path
/// when the caller supplies none.
pub fn effective_search_path(symbol_path: Option<&str>) -> (r: String)
    ensures
        match symbol_path {
            Some(p) => r@ == search_path_with(p@),
            None => r@ == default_search_path(),
        },
{
    let mut path = String::from_str("srv*");
    match symbol_path {
        Some(p) => path.append(p),
        None => path.append("C:\\Symbols"),
    }
    path.append("*https://msdl.microsoft.com/download/symbols");
    proof {
        assert(path@ =~= search_path_with(
            match symbol_path {
                Some(p) => p@,
                None => "C:\\Symbols"@,
            },
        ));
    }
    path
}

} // verus!
