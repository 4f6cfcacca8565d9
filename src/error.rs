//! Errors of the processor core.

use vstd::prelude::*;

verus! {

/// A value outside the range its encoding allows.
#[derive(Debug, Clone, Copy, PartialEq, Eq)]
pub enum Error {
    IllegalValue,
}

} // verus!
