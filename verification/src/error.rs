//! The library's own error type.

use vstd::prelude::*;

verus! {

/// Errors the library itself produces. Failures of remote calls stay with
/// the caller that made them.
#[derive(Clone, Debug)]
pub enum Error {
    /// A chat line held no command.
    RegexError,
    /// Anything else, with a description.
    Unknown(String),
}

} // verus!
