//! Linear rescaling of a value from one interval into another.

use crate::numeric::{
    arithmetic_obeys_spec, cannot_fail, is_difference, is_product, is_quotient, is_sum,
};
use vstd::prelude::*;
use vstd::std_specs::ops::{AddSpec, DivSpec, MulSpec, SubSpec};

verus! {

/// `mapped` is a value that the mapping formula
/// `to.0 + (s - from.0) * (to.1 - to.0) / (from.1 - from.0)` may take: the
/// result of its six operations, each applied to the results of those before
/// it.
pub open spec fn map_range_yields<T: Copy>(
    from_range: (T, T),
    to_range: (T, T),
    s: T,
    mapped: T,
) -> bool where
    T: core::ops::Add<T, Output = T> + core::ops::Sub<T, Output = T> + core::ops::Mul<
        T,
        Output = T,
    > + core::ops::Div<T, Output = T>,
 {
    exists|offset: T, to_width: T, scaled: T, from_width: T, ratio: T|
        {
            &&& is_difference(s, from_range.0, offset)
            &&& is_difference(to_range.1, to_range.0, to_width)
            &&& is_product(offset, to_width, scaled)
            &&& is_difference(from_range.1, from_range.0, from_width)
            &&& is_quotient(scaled, from_width, ratio)
            &&& is_sum(to_range.0, ratio, mapped)
        }
}

/// The image of `s` under the linear map that sends `from_range` onto
/// `to_range`: the value of
/// `to.0 + (s - from.0) * (to.1 - to.0) / (from.1 - from.0)`.
pub open spec fn map_range_spec<T: Copy>(from_range: (T, T), to_range: (T, T), s: T) -> T where
    T: core::ops::Add<T, Output = T> + core::ops::Sub<T, Output = T> + core::ops::Mul<
        T,
        Output = T,
    > + core::ops::Div<T, Output = T>,
 {
    let offset = s.sub_spec(from_range.0);
    let to_width = to_range.1.sub_spec(to_range.0);
    let from_width = from_range.1.sub_spec(from_range.0);
    to_range.0.add_spec(offset.mul_spec(to_width).div_spec(from_width))
}

/// Every operation of [`map_range_spec`] accepts the operands that it meets.
/// For the machine integers this says that no step overflows and that
/// `from_range` is not empty.
pub open spec fn map_range_accepts<T: Copy>(
    from_range: (T, T),
    to_range: (T, T),
    s: T,
) -> bool where
    T: core::ops::Add<T, Output = T> + core::ops::Sub<T, Output = T> + core::ops::Mul<
        T,
        Output = T,
    > + core::ops::Div<T, Output = T>,
 {
    let offset = s.sub_spec(from_range.0);
    let to_width = to_range.1.sub_spec(to_range.0);
    let from_width = from_range.1.sub_spec(from_range.0);
    let scaled = offset.mul_spec(to_width);
    &&& s.sub_req(from_range.0)
    &&& to_range.1.sub_req(to_range.0)
    &&& offset.mul_req(to_width)
    &&& from_range.1.sub_req(from_range.0)
    &&& scaled.div_req(from_width)
    &&& to_range.0.add_req(scaled.div_spec(from_width))
}

/// Maps a number from an input range to an output range.
///
/// Nothing is validated: where the arithmetic of `T` is total, an empty
/// `from_range` is accepted and the result is whatever `T` makes of a division
/// by zero.
pub fn map_range<T: Copy>(from_range: (T, T), to_range: (T, T), s: T) -> (mapped: T) where
    T: core::ops::Add<T, Output = T> + core::ops::Sub<T, Output = T> + core::ops::Mul<
        T,
        Output = T,
    > + core::ops::Div<T, Output = T>,

    requires
        cannot_fail::<T>(map_range_accepts(from_range, to_range, s)),
    ensures
        map_range_yields(from_range, to_range, s, mapped),
        arithmetic_obeys_spec::<T>() ==> mapped == map_range_spec(from_range, to_range, s),
{
    let offset = s - from_range.0;
    let to_width = to_range.1 - to_range.0;
    let scaled = offset * to_width;
    let from_width = from_range.1 - from_range.0;
    let ratio = scaled / from_width;
    let mapped = to_range.0 + ratio;
    proof {
        assert(is_difference(s, from_range.0, offset));
        assert(is_difference(to_range.1, to_range.0, to_width));
        assert(is_product(offset, to_width, scaled));
        assert(is_difference(from_range.1, from_range.0, from_width));
        assert(is_quotient(scaled, from_width, ratio));
        assert(is_sum(to_range.0, ratio, mapped));
    }
    mapped
}

/// The mapping is a function of its arguments wherever the arithmetic is one:
/// where the operators of `T` return the values that vstd gives them, every
/// value that the formula may take is [`map_range_spec`], so two evaluations on
/// the same arguments agree.
pub proof fn lemma_map_range_is_deterministic<T: Copy>(
    from_range: (T, T),
    to_range: (T, T),
    s: T,
    first: T,
    second: T,
) where
    T: core::ops::Add<T, Output = T> + core::ops::Sub<T, Output = T> + core::ops::Mul<
        T,
        Output = T,
    > + core::ops::Div<T, Output = T>,

    requires
        arithmetic_obeys_spec::<T>(),
        map_range_yields(from_range, to_range, s, first),
        map_range_yields(from_range, to_range, s, second),
    ensures
        first == map_range_spec(from_range, to_range, s),
        second == first,
{
}

/// The quotient of two integers, rounded towards zero as the machine integers
/// round it.
pub open spec fn div_towards_zero(n: int, d: int) -> int {
    if n >= 0 {
        n / d
    } else {
        -((-n) / d)
    }
}

/// The mapping formula in the arithmetic of the integers.
pub open spec fn map_range_int(from_range: (int, int), to_range: (int, int), s: int) -> int {
    to_range.0 + div_towards_zero(
        (s - from_range.0) * (to_range.1 - to_range.0),
        from_range.1 - from_range.0,
    )
}

/// No step of [`map_range_int`] on these arguments leaves the 64-bit integers,
/// and `from_range` is not empty.
pub open spec fn map_range_fits_i64(from_range: (int, int), to_range: (int, int), s: int) -> bool {
    let offset = s - from_range.0;
    let to_width = to_range.1 - to_range.0;
    let from_width = from_range.1 - from_range.0;
    let scaled = offset * to_width;
    &&& i64::MIN <= offset <= i64::MAX
    &&& i64::MIN <= to_width <= i64::MAX
    &&& i64::MIN <= scaled <= i64::MAX
    &&& i64::MIN <= from_width <= i64::MAX
    &&& from_width != 0
    &&& i64::MIN <= div_towards_zero(scaled, from_width) <= i64::MAX
    &&& i64::MIN <= map_range_int(from_range, to_range, s) <= i64::MAX
}

/// On 64-bit integers the mapping is the formula of the integers: where no
/// step of that formula leaves the 64-bit integers, [`map_range`] accepts the
/// arguments and its value is [`map_range_int`].
pub proof fn lemma_map_range_on_integers(from_range: (i64, i64), to_range: (i64, i64), s: i64)
    requires
        map_range_fits_i64(
            (from_range.0 as int, from_range.1 as int),
            (to_range.0 as int, to_range.1 as int),
            s as int,
        ),
    ensures
        map_range_accepts(from_range, to_range, s),
        map_range_spec(from_range, to_range, s) == map_range_int(
            (from_range.0 as int, from_range.1 as int),
            (to_range.0 as int, to_range.1 as int),
            s as int,
        ),
{
    let offset = s.sub_spec(from_range.0);
    let to_width = to_range.1.sub_spec(to_range.0);
    assert(offset * to_width == (s - from_range.0) * (to_range.1 - to_range.0))
        by (nonlinear_arith)
        requires
            offset == s - from_range.0,
            to_width == to_range.1 - to_range.0,
    ;
}

/// Mapping a range onto itself leaves every value where it is: over the
/// integers, `map_range_int((a, b), (a, b), v)` is `v` for all `v` and all
/// `a != b`.
pub proof fn lemma_map_range_int_identity(a: int, b: int, v: int)
    requires
        a != b,
    ensures
        map_range_int((a, b), (a, b), v) == v,
{
    let offset = v - a;
    let width = b - a;
    assert((offset * width) / width == offset && (-(offset * width)) / width == -offset)
        by (nonlinear_arith)
        requires
            width != 0,
    ;
}

/// Mapping a range onto itself leaves every value where it is, on 64-bit
/// integers too: for `a != b` and `v`, where no step of the formula overflows,
/// `map_range((a, b), (a, b), v)` is `v`.
pub proof fn lemma_map_range_identity(a: i64, b: i64, v: i64)
    requires
        a != b,
        map_range_accepts((a, b), (a, b), v),
    ensures
        map_range_spec((a, b), (a, b), v) == v,
{
    lemma_map_range_int_identity(a as int, b as int, v as int);
    let offset = v.sub_spec(a);
    let width = b.sub_spec(a);
    assert(offset * width == (v - a) * (b - a)) by (nonlinear_arith)
        requires
            offset == v - a,
            width == b - a,
    ;
    lemma_map_range_on_integers((a, b), (a, b), v);
}

} // verus!
