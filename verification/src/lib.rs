//! A session plugin that tunes a process's out-of-memory kill priority.
//!
//! The verified core parses an optional numeric argument token, validates it
//! against the allowed adjustment range, and renders the decimal text that is
//! written into the per-process control file. The host-framework entry points
//! and the actual file write live outside the library.

use vstd::prelude::*;

pub mod codes;
pub mod score;
pub mod session;

verus! {

} // verus!
