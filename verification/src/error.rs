//! The library's error kinds.

use vstd::prelude::*;

verus! {

/// Why the library refused an input.
#[derive(Clone, Copy, Debug, PartialEq, Eq, Structural)]
pub enum ErrorKind {
    /// A construction input that no model or registry can be built from.
    InvalidArgument,
}

} // verus!
