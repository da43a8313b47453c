//! Value-based convenience queries: the same size, alignment and
//! drop-necessity questions, asked of a value's static type through a
//! reference, for contexts where only a value is at hand.

use vstd::prelude::*;

verus! {

/// Returns the size of the value's static type, in bytes.
///
/// Only sized types can be asked: the answer is a property of the type
/// alone, never of the particular value.
pub fn size_of<T>(_v: &T) -> (r: usize)
    ensures
        r as nat == vstd::layout::size_of::<T>(),
{
    core::mem::size_of::<T>()
}

/// Returns the minimum alignment of the value's static type, in bytes.
pub fn align_of<T>(_v: &T) -> (r: usize)
    ensures
        r as nat == vstd::layout::align_of::<T>(),
{
    core::mem::align_of::<T>()
}

/// Returns whether dropping a value of this type may run non-trivial
/// cleanup; the answer comes from the compiler and may over-approximate,
/// so no contract pins it.
pub fn needs_drop<T>(_v: &T) -> (r: bool) {
    core::mem::needs_drop::<T>()
}

} // verus!
