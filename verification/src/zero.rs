//! The zero-value capability itself: a type implementing `FromZeros` has a
//! canonical value whose entire memory representation is zero bytes and
//! which is a valid instance of the type. The leaf providers here cover
//! the base types whose zero value is a plain literal; composed types
//! receive their implementation from the generation engine.

use vstd::prelude::*;

verus! {

/// A canonical zero value: `zero_spec` names it, `zeroed` produces it.
pub trait FromZeros: Sized {
    /// The canonical zero value of the type.
    spec fn zero_spec() -> Self;

    /// Produces the canonical zero value.
    fn zeroed() -> (r: Self)
        ensures
            r == Self::zero_spec(),
    ;
}

/// Produces the canonical zero value of any capable type.
pub fn zeroed<T: FromZeros>() -> (r: T)
    ensures
        r == T::zero_spec(),
{
    T::zeroed()
}

impl FromZeros for () {
    open spec fn zero_spec() -> Self {
        ()
    }

    fn zeroed() -> Self {
        ()
    }
}

impl FromZeros for bool {
    open spec fn zero_spec() -> Self {
        false
    }

    fn zeroed() -> Self {
        false
    }
}

impl FromZeros for char {
    open spec fn zero_spec() -> Self {
        '\0'
    }

    fn zeroed() -> Self {
        '\0'
    }
}

impl FromZeros for i8 {
    open spec fn zero_spec() -> Self {
        0
    }

    fn zeroed() -> Self {
        0
    }
}

impl FromZeros for i16 {
    open spec fn zero_spec() -> Self {
        0
    }

    fn zeroed() -> Self {
        0
    }
}

impl FromZeros for i32 {
    open spec fn zero_spec() -> Self {
        0
    }

    fn zeroed() -> Self {
        0
    }
}

impl FromZeros for i64 {
    open spec fn zero_spec() -> Self {
        0
    }

    fn zeroed() -> Self {
        0
    }
}

impl FromZeros for i128 {
    open spec fn zero_spec() -> Self {
        0
    }

    fn zeroed() -> Self {
        0
    }
}

impl FromZeros for isize {
    open spec fn zero_spec() -> Self {
        0
    }

    fn zeroed() -> Self {
        0
    }
}

impl FromZeros for u8 {
    open spec fn zero_spec() -> Self {
        0
    }

    fn zeroed() -> Self {
        0
    }
}

impl FromZeros for u16 {
    open spec fn zero_spec() -> Self {
        0
    }

    fn zeroed() -> Self {
        0
    }
}

impl FromZeros for u32 {
    open spec fn zero_spec() -> Self {
        0
    }

    fn zeroed() -> Self {
        0
    }
}

impl FromZeros for u64 {
    open spec fn zero_spec() -> Self {
        0
    }

    fn zeroed() -> Self {
        0
    }
}

impl FromZeros for u128 {
    open spec fn zero_spec() -> Self {
        0
    }

    fn zeroed() -> Self {
        0
    }
}

impl FromZeros for usize {
    open spec fn zero_spec() -> Self {
        0
    }

    fn zeroed() -> Self {
        0
    }
}

} // verus!
