//! What the contracts of this library say and assume of a number type.
//!
//! The library computes with `+`, `-`, `*` and `/` on a type `T` of the
//! caller's choice. Its contracts are written on two levels.
//!
//! - What an operator *may* return: [`is_sum`], [`is_difference`],
//!   [`is_product`] and [`is_quotient`] relate two operands to a result of the
//!   operator. Every function states without condition that its result is
//!   built from such results, in the order of its formula.
//! - What an operator *does* return: vstd gives each operator a value
//!   (`add_spec`, ...) and a flag that says whether the operator really returns
//!   it (`obeys_add_spec`, ...). Where the flags hold, see
//!   [`arithmetic_obeys_spec`], every function also states the value of its
//!   result, and is thereby a function of its arguments.
//!
//! A function may be called where no operator can refuse its operands, see
//! [`cannot_fail`]; vstd gives each operator a precondition (`add_req`, ...).
//!
//! For the machine integers vstd defines preconditions, values and flags, so
//! every contract can be checked on integer arguments. For `f32` and `f64` it
//! leaves all three open. Their operators never fail, which is what
//! [`arithmetic_is_total`] asks, but their results may differ in the payload
//! of a NaN from one run to the next: of them only the first level speaks.

use vstd::prelude::*;
use vstd::std_specs::convert::FromSpec;
use vstd::std_specs::ops::{AddSpec, DivSpec, MulSpec, SubSpec};

verus! {

/// A copyable number type that is closed under `+`, `-`, `*` and `/`.
///
/// Every type with these operators is a `Scalar`; the trait only abbreviates
/// the bounds.
pub trait Scalar: Copy + core::ops::Add<Output = Self> + core::ops::Sub<Output = Self>
    + core::ops::Mul<Output = Self> + core::ops::Div<Output = Self> {
}

impl<T> Scalar for T where
    T: Copy + core::ops::Add<Output = T> + core::ops::Sub<Output = T> + core::ops::Mul<Output = T>
        + core::ops::Div<Output = T>,
 {
}

/// `r` is a value that `a + b` may return.
pub open spec fn is_sum<T: Scalar>(a: T, b: T, r: T) -> bool {
    call_ensures(<T as core::ops::Add>::add, (a, b), r)
}

/// `r` is a value that `a - b` may return.
pub open spec fn is_difference<T: Scalar>(a: T, b: T, r: T) -> bool {
    call_ensures(<T as core::ops::Sub>::sub, (a, b), r)
}

/// `r` is a value that `a * b` may return.
pub open spec fn is_product<T: Scalar>(a: T, b: T, r: T) -> bool {
    call_ensures(<T as core::ops::Mul>::mul, (a, b), r)
}

/// `r` is a value that `a / b` may return.
pub open spec fn is_quotient<T: Scalar>(a: T, b: T, r: T) -> bool {
    call_ensures(<T as core::ops::Div>::div, (a, b), r)
}

/// `r` is a value that the conversion of the integer `n` into `T` may return.
pub open spec fn is_whole<T: From<i16>>(n: i16, r: T) -> bool {
    call_ensures(<T as core::convert::From<i16>>::from, (n,), r)
}

/// `r` is a value that the fraction `n / d` may take in `T`: a quotient of a
/// conversion of `n` by a conversion of `d`.
pub open spec fn is_fraction<T: Scalar + From<i16>>(n: i16, d: i16, r: T) -> bool {
    exists|numerator: T, denominator: T|
        {
            &&& is_whole(n, numerator)
            &&& is_whole(d, denominator)
            &&& is_quotient(numerator, denominator, r)
        }
}

/// The four operators of `T` accept every pair of operands: none of them can
/// fail, whatever it is given. Number types that answer an overflow or a zero
/// divisor with a value of their own (an infinity, a NaN) are total; the
/// machine integers are not.
pub open spec fn arithmetic_is_total<T: Scalar>() -> bool {
    &&& forall|a: T, b: T| #[trigger] a.add_req(b)
    &&& forall|a: T, b: T| #[trigger] a.sub_req(b)
    &&& forall|a: T, b: T| #[trigger] a.mul_req(b)
    &&& forall|a: T, b: T| #[trigger] a.div_req(b)
}

/// Each of the four operators of `T` returns exactly the value that vstd gives
/// it, so that a result is a function of the operands alone.
pub open spec fn arithmetic_obeys_spec<T: Scalar>() -> bool {
    &&& T::obeys_add_spec()
    &&& T::obeys_sub_spec()
    &&& T::obeys_mul_spec()
    &&& T::obeys_div_spec()
}

/// Converting a 16-bit integer into `T` returns exactly the value that vstd
/// gives the conversion.
pub open spec fn conversion_obeys_spec<T: From<i16>>() -> bool {
    T::obeys_from_spec()
}

/// A computation over `T` cannot fail: either the arithmetic of `T` never
/// refuses an operand, or it returns the values that vstd gives it and
/// `operands_accepted` holds, which says that the computation, evaluated on
/// those values, meets no operand that an operator refuses.
pub open spec fn cannot_fail<T: Scalar>(operands_accepted: bool) -> bool {
    arithmetic_is_total::<T>() || (arithmetic_obeys_spec::<T>() && operands_accepted)
}

/// The value of the fraction `n / d` in `T`.
pub open spec fn fraction_spec<T: Scalar + From<i16>>(n: i16, d: i16) -> T {
    T::from_spec(n).div_spec(T::from_spec(d))
}

/// `n` and `d` are converted to the values that vstd gives them, and the
/// division accepts those.
pub open spec fn fraction_accepts<T: Scalar + From<i16>>(n: i16, d: i16) -> bool {
    &&& conversion_obeys_spec::<T>()
    &&& T::from_spec(n).div_req(T::from_spec(d))
}

/// The fraction `n / d` as a value of `T`.
pub fn fraction<T: Scalar + From<i16>>(n: i16, d: i16) -> (r: T)
    requires
        cannot_fail::<T>(fraction_accepts::<T>(n, d)),
    ensures
        is_fraction(n, d, r),
        arithmetic_obeys_spec::<T>() && conversion_obeys_spec::<T>() ==> r == fraction_spec::<T>(
            n,
            d,
        ),
{
    let numerator = T::from(n);
    let denominator = T::from(d);
    let r = numerator / denominator;
    proof {
        assert(is_whole(n, numerator));
        assert(is_whole(d, denominator));
        assert(is_quotient(numerator, denominator, r));
    }
    r
}

} // verus!
