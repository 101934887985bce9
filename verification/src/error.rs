//! What can go wrong while a wire value is decoded.

use vstd::prelude::*;

verus! {

/// Why a wire value was refused.
#[derive(Debug, Clone, Copy, PartialEq, Eq)]
pub enum DecodeError {
    /// The array has the wrong number of elements: it ends before the
    /// position given, which is the first one missing, or it goes on beyond
    /// the last position that is read, and then its own length is given.
    InvalidLength(usize),
    /// The element at the position given is not what that position takes.
    InvalidElement(usize),
    /// The value is not an array where an array is called for.
    NotAnArray,
    /// A text that should hold JSON does not.
    InvalidJson,
}

} // verus!
