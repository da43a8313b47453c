//! Compile-time type introspection: queries on a type's size, minimum
//! alignment, zero-sized-ness and drop-necessity, together with assertion
//! helpers whose preconditions make a build fail when a type-level
//! invariant does not hold.

use vstd::prelude::*;

pub mod mem;

verus! {

use core::marker::PhantomData;
use vstd::arithmetic::power2::is_pow2;
use vstd::layout::align_of;
use vstd::layout::size_of;

/// Type information: a phantom marker that attaches the compile-time
/// queries to a type parameter without ever holding a value of it.
pub struct Type<T>(PhantomData<T>);

impl<T> Type<T> {
    /// Returns the number of bytes a value of `T` occupies.
    pub fn size() -> (r: usize)
        ensures
            r as nat == size_of::<T>(),
    {
        core::mem::size_of::<T>()
    }

    /// Returns the minimum alignment of `T` in bytes.
    pub fn align() -> (r: usize)
        ensures
            r as nat == align_of::<T>(),
    {
        core::mem::align_of::<T>()
    }

    /// Returns whether `T` is a zero-sized type.
    pub fn is_zst() -> (r: bool)
        ensures
            r == (size_of::<T>() == 0),
    {
        Self::size() == 0
    }

    /// Returns whether dropping a value of `T` may run non-trivial cleanup.
    ///
    /// Relies on `core::mem::needs_drop`, whose answer the compiler is free
    /// to over-approximate, so no contract pins the result; it only
    /// guarantees that a `false` answer means dropping has no side effect,
    /// a direction that has no ghost model here.
    pub fn needs_drop() -> (r: bool) {
        core::mem::needs_drop::<T>()
    }
}

/// Relies on `core::mem::needs_drop`: whether a type carries drop glue is
/// the compiler's own, possibly over-approximated, answer, so nothing is
/// promised of the result.
pub assume_specification<T: ?Sized>[ core::mem::needs_drop::<T> ]() -> (r: bool);

/// Build-time assertions on a single type.
///
/// Each check is an empty function whose precondition is the asserted
/// proposition: a verified caller that references a check for a type
/// violating it fails the build, and a satisfied check compiles away to
/// nothing. An unreferenced check costs its callers nothing.
pub struct Assert<T>(PhantomData<T>);

impl<T> Assert<T> {
    /// Asserts that dropping a `T` needs no cleanup call.
    ///
    /// Drop-necessity has no ghost model, so the check takes the answer of
    /// [`Type::needs_drop`]: a caller first tests the answer, and inside
    /// the branch where it is `false` this reference verifies.
    #[inline(always)]
    pub fn no_need_drop(type_needs_drop: bool)
        requires
            !type_needs_drop,
    {
    }

    /// Asserts that `T` is not a zero-sized type.
    #[inline(always)]
    pub fn is_not_zst()
        requires
            size_of::<T>() != 0,
    {
    }

    /// Asserts that `T` is a zero-sized type.
    #[inline(always)]
    pub fn is_zst()
        requires
            size_of::<T>() == 0,
    {
    }
}

/// Build-time assertions on a pair of types.
///
/// The comparisons are one-directional, left against right: a caller that
/// needs the opposite direction swaps the type arguments.
pub struct Assert2<L, R>(PhantomData<(L, R)>);

impl<L, R> Assert2<L, R> {
    /// Asserts that `L` and `R` have the same size.
    #[inline(always)]
    pub fn is_same_size()
        requires
            size_of::<L>() == size_of::<R>(),
    {
    }

    /// Asserts that `L` and `R` have the same minimum alignment.
    #[inline(always)]
    pub fn is_same_align()
        requires
            align_of::<L>() == align_of::<R>(),
    {
    }

    /// Asserts that the size of `L` is at least that of `R`.
    #[inline(always)]
    pub fn is_left_size_greater_or_equal()
        requires
            size_of::<L>() >= size_of::<R>(),
    {
    }

    /// Asserts that the size of `L` is less than that of `R`.
    #[inline(always)]
    pub fn is_left_size_less()
        requires
            size_of::<L>() < size_of::<R>(),
    {
    }

    /// Asserts that the minimum alignment of `L` is at least that of `R`.
    #[inline(always)]
    pub fn is_left_align_greater_or_equal()
        requires
            align_of::<L>() >= align_of::<R>(),
    {
    }

    /// Asserts that the minimum alignment of `L` is less than that of `R`.
    #[inline(always)]
    pub fn is_left_align_less()
        requires
            align_of::<L>() < align_of::<R>(),
    {
    }
}

/// Law: a type's minimum alignment is a positive power of two, and its
/// size is a multiple of that alignment.
pub proof fn lemma_align_is_power_of_two<T>()
    ensures
        align_of::<T>() > 0,
        is_pow2(align_of::<T>() as int),
        size_of::<T>() % align_of::<T>() == 0,
{
    broadcast use vstd::layout::group_align_properties;

}

/// Law: the minimum alignment of `T` divides every offset at which an
/// element of an array of `T` sits, the valid offsets of a `T` within an
/// aggregate.
pub proof fn lemma_align_divides_array_offsets<T>(k: nat)
    ensures
        (k * size_of::<T>()) % align_of::<T>() == 0,
{
    broadcast use vstd::layout::group_align_properties;

    let s = size_of::<T>() as int;
    let a = align_of::<T>() as int;
    assert(a > 0);
    assert(s % a == 0);
    let q = s / a;
    vstd::arithmetic::div_mod::lemma_fundamental_div_mod(s, a);
    assert(s == a * q);
    assert((k as int) * s == ((k as int) * q) * a) by (nonlinear_arith)
        requires
            s == a * q,
    ;
    vstd::arithmetic::div_mod::lemma_mod_multiples_basic((k as int) * q, a);
}

/// Law: for any pair of types, exactly one of "same size", "left size
/// smaller" and "left size greater" holds.
pub proof fn lemma_size_trichotomy<L, R>()
    ensures
        size_of::<L>() == size_of::<R>() || size_of::<L>() < size_of::<R>()
            || size_of::<L>() > size_of::<R>(),
        !(size_of::<L>() == size_of::<R>() && size_of::<L>() < size_of::<R>()),
        !(size_of::<L>() == size_of::<R>() && size_of::<L>() > size_of::<R>()),
        !(size_of::<L>() < size_of::<R>() && size_of::<L>() > size_of::<R>()),
{
}

} // verus!
