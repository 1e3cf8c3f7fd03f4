//! Verified core of a kernel symbol resolver.
//!
//! The library holds the decision logic of the resolver: building the
//! symbol search path, interpreting what the operating system and the
//! symbol-resolution engine report, tracking the session lifecycle, and
//! translating an engine-relative symbol address into the address space
//! of the running kernel. The operating-system and engine calls
//! themselves are platform work that an unverified shell performs; it
//! feeds their outcomes into the functions here as plain values.

pub mod errors;
pub mod kernel_base;
pub mod resolve;
pub mod search_path;
pub mod session;
pub mod wide;
