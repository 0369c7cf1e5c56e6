//! The colour of a trajectory segment, derived from where the segment ends.

use crate::attractor::Position;
use crate::numeric::{
    arithmetic_obeys_spec, cannot_fail, conversion_obeys_spec, fraction, fraction_accepts,
    fraction_spec, is_fraction, is_whole, Scalar,
};
use crate::range::{map_range, map_range_accepts, map_range_spec, map_range_yields};
use vstd::prelude::*;
use vstd::std_specs::convert::FromSpec;

verus! {

/// A colour given by hue, saturation, lightness and opacity.
#[derive(Debug, PartialEq)]
pub struct Hsla<T> {
    pub hue: T,
    pub saturation: T,
    pub lightness: T,
    pub alpha: T,
}

/// How a position is turned into a colour: the `x` coordinate is rescaled from
/// `x_range` into `hue_range`, the `y` coordinate from `y_range` into
/// `lightness_range`; saturation and opacity are the same for every position.
#[derive(Debug, PartialEq)]
pub struct Palette<T> {
    pub x_range: (T, T),
    pub hue_range: (T, T),
    pub y_range: (T, T),
    pub lightness_range: (T, T),
    pub saturation: T,
    pub alpha: T,
}

impl<T: Scalar> Palette<T> {
    /// `palette` holds values that the classic palette may take: `x` in
    /// `(-13, 13)` gives a hue in `(25, 35)`, `y` in `(-28, 28)` gives a
    /// lightness in `(3/10, 7/10)`, the saturation is `4/5` and the opacity
    /// `1/2`.
    pub open spec fn classic_yields(palette: Self) -> bool where T: From<i16> {
        &&& is_whole(-13i16, palette.x_range.0)
        &&& is_whole(13i16, palette.x_range.1)
        &&& is_whole(25i16, palette.hue_range.0)
        &&& is_whole(35i16, palette.hue_range.1)
        &&& is_whole(-28i16, palette.y_range.0)
        &&& is_whole(28i16, palette.y_range.1)
        &&& is_fraction(3i16, 10i16, palette.lightness_range.0)
        &&& is_fraction(7i16, 10i16, palette.lightness_range.1)
        &&& is_fraction(4i16, 5i16, palette.saturation)
        &&& is_fraction(1i16, 2i16, palette.alpha)
    }

    /// The classic palette: `x` in `(-13, 13)` gives a hue in `(25, 35)`, `y` in
    /// `(-28, 28)` gives a lightness in `(3/10, 7/10)`, the saturation is `4/5`
    /// and the opacity `1/2`.
    pub open spec fn classic_spec() -> Self where T: From<i16> {
        Palette {
            x_range: (T::from_spec(-13i16), T::from_spec(13i16)),
            hue_range: (T::from_spec(25i16), T::from_spec(35i16)),
            y_range: (T::from_spec(-28i16), T::from_spec(28i16)),
            lightness_range: (fraction_spec::<T>(3i16, 10i16), fraction_spec::<T>(7i16, 10i16)),
            saturation: fraction_spec::<T>(4i16, 5i16),
            alpha: fraction_spec::<T>(1i16, 2i16),
        }
    }

    /// All four fractions of [`Palette::classic_spec`] can be built.
    pub open spec fn classic_accepts() -> bool where T: From<i16> {
        &&& fraction_accepts::<T>(3i16, 10i16)
        &&& fraction_accepts::<T>(7i16, 10i16)
        &&& fraction_accepts::<T>(4i16, 5i16)
        &&& fraction_accepts::<T>(1i16, 2i16)
    }

    /// The classic palette.
    pub fn classic() -> (palette: Self) where T: From<i16>
        requires
            cannot_fail::<T>(Self::classic_accepts()),
        ensures
            Self::classic_yields(palette),
            arithmetic_obeys_spec::<T>() && conversion_obeys_spec::<T>() ==> palette
                == Self::classic_spec(),
    {
        Palette {
            x_range: (T::from(-13i16), T::from(13i16)),
            hue_range: (T::from(25i16), T::from(35i16)),
            y_range: (T::from(-28i16), T::from(28i16)),
            lightness_range: (fraction(3i16, 10i16), fraction(7i16, 10i16)),
            saturation: fraction(4i16, 5i16),
            alpha: fraction(1i16, 2i16),
        }
    }

    /// `color` is a colour that this palette may give to the position `p`: its
    /// hue is a rescaling of `p.x`, its lightness a rescaling of `p.y`, its
    /// saturation and opacity are the palette's.
    pub open spec fn color_yields(self, p: Position<T>, color: Hsla<T>) -> bool {
        &&& map_range_yields(self.x_range, self.hue_range, p.x, color.hue)
        &&& color.saturation == self.saturation
        &&& map_range_yields(self.y_range, self.lightness_range, p.y, color.lightness)
        &&& color.alpha == self.alpha
    }

    /// The colour that this palette gives to the position `p`.
    pub open spec fn color_spec(self, p: Position<T>) -> Hsla<T> {
        Hsla {
            hue: map_range_spec(self.x_range, self.hue_range, p.x),
            saturation: self.saturation,
            lightness: map_range_spec(self.y_range, self.lightness_range, p.y),
            alpha: self.alpha,
        }
    }

    /// Both rescalings of [`Palette::color_spec`] meet only operands that the
    /// operators of `T` accept.
    pub open spec fn color_accepts(self, p: Position<T>) -> bool {
        &&& map_range_accepts(self.x_range, self.hue_range, p.x)
        &&& map_range_accepts(self.y_range, self.lightness_range, p.y)
    }

    /// The colour of a segment that ends at `p`.
    pub fn color_at(&self, p: &Position<T>) -> (color: Hsla<T>)
        requires
            cannot_fail::<T>(self.color_accepts(*p)),
        ensures
            self.color_yields(*p, color),
            arithmetic_obeys_spec::<T>() ==> color == self.color_spec(*p),
    {
        let hue = map_range(self.x_range, self.hue_range, p.x);
        let lightness = map_range(self.y_range, self.lightness_range, p.y);
        Hsla { hue, saturation: self.saturation, lightness, alpha: self.alpha }
    }
}

} // verus!
