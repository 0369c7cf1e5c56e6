//! The line segments that the trajectory leaves behind, one for each step.

use crate::attractor::{
    lemma_step_is_deterministic, orbit, step, step_accepts, step_spec, step_yields, LorenzParams,
    Position,
};
use crate::color::{Hsla, Palette};
use crate::numeric::{arithmetic_obeys_spec, cannot_fail, Scalar};
use vstd::prelude::*;

verus! {

/// The number of integration steps in one tick of the simulation.
pub const STEPS_PER_TICK: usize = 50;

/// A list of points that will have a line drawn between each pair of
/// consecutive points.
#[derive(Debug, PartialEq)]
pub struct LineStrip<T> {
    pub points: Vec<Position<T>>,
}

impl<T: Copy> Clone for LineStrip<T> {
    fn clone(&self) -> (copy: Self)
        ensures
            copy@ == self@,
    {
        let copy = LineStrip { points: self.points.clone() };
        assert(copy@ =~= self@);
        copy
    }
}

impl<T> View for LineStrip<T> {
    type V = Seq<Position<T>>;

    open spec fn view(&self) -> Seq<Position<T>> {
        self.points@
    }
}

/// The line drawn by one integration step, with its colour.
#[derive(Debug, PartialEq)]
pub struct Segment<T> {
    pub line: LineStrip<T>,
    pub color: Hsla<T>,
}

impl<T> Segment<T> {
    /// The segment is a line between exactly two points.
    pub open spec fn is_straight(self) -> bool {
        self.line@.len() == 2
    }

    /// The point at which the segment begins.
    pub open spec fn start(self) -> Position<T> {
        self.line@[0]
    }

    /// The point at which the segment ends.
    pub open spec fn end(self) -> Position<T> {
        self.line@[1]
    }
}

/// `trail` is an unbroken line from `first` to `last`: every segment joins two
/// points, the first segment begins at `first`, each later one begins where
/// the one before it ended, and the last one ends at `last`. An empty trail
/// goes nowhere.
pub open spec fn is_chain<T>(trail: Seq<Segment<T>>, first: Position<T>, last: Position<T>) -> bool {
    &&& forall|i: int| 0 <= i < trail.len() ==> (#[trigger] trail[i]).is_straight()
    &&& forall|i: int| 0 < i < trail.len() ==> (#[trigger] trail[i]).start() == trail[i - 1].end()
    &&& if trail.len() == 0 {
        last == first
    } else {
        trail[0].start() == first && trail[trail.len() - 1].end() == last
    }
}

/// Every segment of `trail` was drawn by one Euler step: it ends at a position
/// that a step may reach from where it begins, and has a colour that `palette`
/// may give to the position at which it ends.
pub open spec fn is_trajectory<T: Scalar>(
    trail: Seq<Segment<T>>,
    params: LorenzParams<T>,
    palette: Palette<T>,
) -> bool {
    forall|i: int|
        0 <= i < trail.len() ==> {
            &&& step_yields((#[trigger] trail[i]).start(), params, trail[i].end())
            &&& palette.color_yields(trail[i].end(), trail[i].color)
        }
}

/// `trail` is the trajectory from `start`: its `i`-th segment runs from the
/// position after `i` steps to the position after `i + 1` steps, and has the
/// colour that `palette` gives to the position at which it ends.
pub open spec fn follows_orbit<T: Scalar>(
    trail: Seq<Segment<T>>,
    start: Position<T>,
    params: LorenzParams<T>,
    palette: Palette<T>,
) -> bool {
    forall|i: int|
        0 <= i < trail.len() ==> {
            &&& (#[trigger] trail[i]).line@ == seq![
                orbit(start, params, i as nat),
                orbit(start, params, (i + 1) as nat),
            ]
            &&& trail[i].color == palette.color_spec(orbit(start, params, (i + 1) as nat))
        }
}

/// Each of the first `steps` steps from `start`, and the colouring of the
/// position that it reaches, meets only operands that the operators of `T`
/// accept.
pub open spec fn trace_accepts<T: Scalar>(
    start: Position<T>,
    params: LorenzParams<T>,
    palette: Palette<T>,
    steps: nat,
) -> bool {
    forall|i: nat|
        i < steps ==> {
            &&& step_accepts(#[trigger] orbit(start, params, i), params)
            &&& palette.color_accepts(step_spec(orbit(start, params, i), params))
        }
}

/// A trajectory is a function of its start, the parameters and the palette
/// wherever the arithmetic is one: where the operators of `T` return the
/// values that vstd gives them, a chain of steps from `start` passes through
/// the positions of [`orbit`], in its colours, and ends where `orbit` does. So
/// two runs from the same start draw the same trail.
pub proof fn lemma_trajectory_is_deterministic<T: Scalar>(
    trail: Seq<Segment<T>>,
    start: Position<T>,
    last: Position<T>,
    params: LorenzParams<T>,
    palette: Palette<T>,
)
    requires
        arithmetic_obeys_spec::<T>(),
        is_chain(trail, start, last),
        is_trajectory(trail, params, palette),
    ensures
        follows_orbit(trail, start, params, palette),
        last == orbit(start, params, trail.len()),
    decreases trail.len(),
{
    if trail.len() > 0 {
        let n = trail.len() - 1;
        let drawn = trail.take(n);
        let joint = trail[n].start();
        assert(is_chain(drawn, start, joint)) by {
            if n > 0 {
                assert(drawn[n - 1] == trail[n - 1]);
            }
        }
        lemma_trajectory_is_deterministic(drawn, start, joint, params, palette);
        assert forall|i: int| 0 <= i < trail.len() implies {
            &&& (#[trigger] trail[i]).line@ == seq![
                orbit(start, params, i as nat),
                orbit(start, params, (i + 1) as nat),
            ]
            &&& trail[i].color == palette.color_spec(orbit(start, params, (i + 1) as nat))
        } by {
            if i < n {
                assert(drawn[i] == trail[i]);
            } else {
                lemma_step_is_deterministic(joint, params, last, last);
                assert(trail[n].line@ =~= seq![joint, last]);
            }
        }
    }
}

/// Advances `position` by `steps` Euler steps and returns the segment that
/// each step has drawn, in the order of the steps.
pub fn trace<T: Scalar>(
    position: &mut Position<T>,
    params: &LorenzParams<T>,
    palette: &Palette<T>,
    steps: usize,
) -> (trail: Vec<Segment<T>>)
    requires
        cannot_fail::<T>(trace_accepts(*old(position), *params, *palette, steps as nat)),
    ensures
        trail.len() == steps,
        is_chain(trail@, *old(position), *final(position)),
        is_trajectory(trail@, *params, *palette),
        arithmetic_obeys_spec::<T>() ==> {
            &&& *final(position) == orbit(*old(position), *params, steps as nat)
            &&& follows_orbit(trail@, *old(position), *params, *palette)
        },
{
    let ghost start = *position;
    let mut trail: Vec<Segment<T>> = Vec::new();
    let mut taken: usize = 0;
    while taken < steps
        invariant
            taken <= steps,
            trail.len() == taken,
            cannot_fail::<T>(trace_accepts(start, *params, *palette, steps as nat)),
            is_chain(trail@, start, *position),
            is_trajectory(trail@, *params, *palette),
            arithmetic_obeys_spec::<T>() ==> *position == orbit(start, *params, taken as nat),
        decreases steps - taken,
    {
        let previous = *position;
        step(position, params);
        let color = palette.color_at(position);
        let line = LineStrip { points: vec![previous, *position] };
        trail.push(Segment { line, color });
        taken += 1;
    }
    proof {
        if arithmetic_obeys_spec::<T>() {
            lemma_trajectory_is_deterministic(trail@, start, *position, *params, *palette);
        }
    }
    trail
}

/// One tick of the simulation: advances `position` by [`STEPS_PER_TICK`] Euler
/// steps and returns the segments to draw.
pub fn lorenz_system<T: Scalar>(
    position: &mut Position<T>,
    params: &LorenzParams<T>,
    palette: &Palette<T>,
) -> (trail: Vec<Segment<T>>)
    requires
        cannot_fail::<T>(
            trace_accepts(*old(position), *params, *palette, STEPS_PER_TICK as nat),
        ),
    ensures
        trail.len() == STEPS_PER_TICK,
        is_chain(trail@, *old(position), *final(position)),
        is_trajectory(trail@, *params, *palette),
        arithmetic_obeys_spec::<T>() ==> {
            &&& *final(position) == orbit(*old(position), *params, STEPS_PER_TICK as nat)
            &&& follows_orbit(trail@, *old(position), *params, *palette)
        },
{
    trace(position, params, palette, STEPS_PER_TICK)
}

} // verus!
