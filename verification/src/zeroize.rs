//! Erasure of values that may hold secret bytes.

use vstd::prelude::*;

verus! {

/// Erasure of a value that may hold secret bytes.
///
/// Erasure is total: it overwrites every byte of the value's declared
/// capacity with zero, not merely the bytes inside the logical length.
/// Each implementation states in its own contract exactly what its
/// storage looks like afterwards.
pub trait Zeroize {
    /// Overwrite the value's entire storage with zero bytes.
    fn zeroize(&mut self);
}

} // verus!
