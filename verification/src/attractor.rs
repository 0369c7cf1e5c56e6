//! The Lorenz system and its explicit Euler integrator.

use crate::numeric::{
    arithmetic_obeys_spec, cannot_fail, conversion_obeys_spec, fraction, fraction_accepts,
    fraction_spec, is_difference, is_fraction, is_product, is_sum, is_whole, Scalar,
};
use vstd::prelude::*;
use vstd::std_specs::convert::FromSpec;
use vstd::std_specs::ops::{AddSpec, MulSpec, SubSpec};

verus! {

/// A point of the trajectory.
#[derive(Debug, PartialEq)]
pub struct Position<T> {
    pub x: T,
    pub y: T,
    pub z: T,
}

impl<T: Copy> Clone for Position<T> {
    fn clone(&self) -> (copy: Self)
        ensures
            copy == *self,
    {
        *self
    }
}

impl<T: Copy> Copy for Position<T> {

}

/// The time derivative of a position.
#[derive(Debug, PartialEq)]
pub struct Velocity<T> {
    pub dx: T,
    pub dy: T,
    pub dz: T,
}

/// The three parameters of the Lorenz system and the integrator's time step.
#[derive(Debug, PartialEq)]
pub struct LorenzParams<T> {
    pub sigma: T,
    pub beta: T,
    pub rho: T,
    pub dt: T,
}

/// `v` is a value that the right-hand side of the Lorenz equations may take at
/// `p`: `dx` a result of `sigma * (y - x)`, `dy` of `x * (rho - z) - y` and
/// `dz` of `x * y - beta * z`.
pub open spec fn derivative_yields<T: Scalar>(
    p: Position<T>,
    params: LorenzParams<T>,
    v: Velocity<T>,
) -> bool {
    exists|y_less_x: T, rho_less_z: T, x_rho: T, x_y: T, beta_z: T|
        {
            &&& is_difference(p.y, p.x, y_less_x)
            &&& is_product(params.sigma, y_less_x, v.dx)
            &&& is_difference(params.rho, p.z, rho_less_z)
            &&& is_product(p.x, rho_less_z, x_rho)
            &&& is_difference(x_rho, p.y, v.dy)
            &&& is_product(p.x, p.y, x_y)
            &&& is_product(params.beta, p.z, beta_z)
            &&& is_difference(x_y, beta_z, v.dz)
        }
}

/// The right-hand side of the Lorenz equations at `p`:
/// `dx = sigma * (y - x)`, `dy = x * (rho - z) - y`, `dz = x * y - beta * z`.
pub open spec fn derivative_spec<T: Scalar>(p: Position<T>, params: LorenzParams<T>) -> Velocity<T> {
    Velocity {
        dx: params.sigma.mul_spec(p.y.sub_spec(p.x)),
        dy: p.x.mul_spec(params.rho.sub_spec(p.z)).sub_spec(p.y),
        dz: p.x.mul_spec(p.y).sub_spec(params.beta.mul_spec(p.z)),
    }
}

/// Every operation of [`derivative_spec`] accepts the operands that it meets.
pub open spec fn derivative_accepts<T: Scalar>(p: Position<T>, params: LorenzParams<T>) -> bool {
    &&& p.y.sub_req(p.x)
    &&& params.sigma.mul_req(p.y.sub_spec(p.x))
    &&& params.rho.sub_req(p.z)
    &&& p.x.mul_req(params.rho.sub_spec(p.z))
    &&& p.x.mul_spec(params.rho.sub_spec(p.z)).sub_req(p.y)
    &&& p.x.mul_req(p.y)
    &&& params.beta.mul_req(p.z)
    &&& p.x.mul_spec(p.y).sub_req(params.beta.mul_spec(p.z))
}

/// `q` is a position that `p` may reach by moving along `v` for the time `dt`:
/// each coordinate of `q` is a result of adding, to that coordinate of `p`, a
/// result of its derivative times `dt`.
pub open spec fn displace_yields<T: Scalar>(
    p: Position<T>,
    v: Velocity<T>,
    dt: T,
    q: Position<T>,
) -> bool {
    exists|x_gain: T, y_gain: T, z_gain: T|
        {
            &&& is_product(v.dx, dt, x_gain)
            &&& is_sum(p.x, x_gain, q.x)
            &&& is_product(v.dy, dt, y_gain)
            &&& is_sum(p.y, y_gain, q.y)
            &&& is_product(v.dz, dt, z_gain)
            &&& is_sum(p.z, z_gain, q.z)
        }
}

/// `p` moved along `v` for the time `dt`: each coordinate grows by its
/// derivative times `dt`.
pub open spec fn displace_spec<T: Scalar>(p: Position<T>, v: Velocity<T>, dt: T) -> Position<T> {
    Position {
        x: p.x.add_spec(v.dx.mul_spec(dt)),
        y: p.y.add_spec(v.dy.mul_spec(dt)),
        z: p.z.add_spec(v.dz.mul_spec(dt)),
    }
}

/// Every operation of [`displace_spec`] accepts the operands that it meets.
pub open spec fn displace_accepts<T: Scalar>(p: Position<T>, v: Velocity<T>, dt: T) -> bool {
    &&& v.dx.mul_req(dt)
    &&& p.x.add_req(v.dx.mul_spec(dt))
    &&& v.dy.mul_req(dt)
    &&& p.y.add_req(v.dy.mul_spec(dt))
    &&& v.dz.mul_req(dt)
    &&& p.z.add_req(v.dz.mul_spec(dt))
}

/// `q` is a position that one explicit Euler step may reach from `p`: the
/// derivative is taken at `p`, and all three coordinates move by it.
pub open spec fn step_yields<T: Scalar>(
    p: Position<T>,
    params: LorenzParams<T>,
    q: Position<T>,
) -> bool {
    exists|v: Velocity<T>|
        {
            &&& derivative_yields(p, params, v)
            &&& displace_yields(p, v, params.dt, q)
        }
}

/// The position one explicit Euler step after `p`.
pub open spec fn step_spec<T: Scalar>(p: Position<T>, params: LorenzParams<T>) -> Position<T> {
    displace_spec(p, derivative_spec(p, params), params.dt)
}

/// Every operation of [`step_spec`] accepts the operands that it meets.
pub open spec fn step_accepts<T: Scalar>(p: Position<T>, params: LorenzParams<T>) -> bool {
    &&& derivative_accepts(p, params)
    &&& displace_accepts(p, derivative_spec(p, params), params.dt)
}

/// The position reached from `start` after `n` Euler steps, each taken from
/// the position that the step before it reached.
pub open spec fn orbit<T: Scalar>(start: Position<T>, params: LorenzParams<T>, n: nat) -> Position<T>
    decreases n,
{
    if n == 0 {
        start
    } else {
        step_spec(orbit(start, params, (n - 1) as nat), params)
    }
}

impl<T: Scalar> Position<T> {
    /// `start` is a value that the starting point `(1/10, 0, 1/10)` may take:
    /// `x` and `z` are one and the same tenth.
    pub open spec fn seed_yields(start: Self) -> bool where T: From<i16> {
        &&& is_fraction(1i16, 10i16, start.x)
        &&& is_whole(0i16, start.y)
        &&& start.z == start.x
    }

    /// The starting point of the trajectory, `(1/10, 0, 1/10)`.
    pub open spec fn seed_spec() -> Self where T: From<i16> {
        Position {
            x: fraction_spec::<T>(1i16, 10i16),
            y: T::from_spec(0i16),
            z: fraction_spec::<T>(1i16, 10i16),
        }
    }

    /// The point from which the trajectory starts.
    pub fn seed() -> (start: Self) where T: From<i16>
        requires
            cannot_fail::<T>(fraction_accepts::<T>(1i16, 10i16)),
        ensures
            Self::seed_yields(start),
            arithmetic_obeys_spec::<T>() && conversion_obeys_spec::<T>() ==> start
                == Self::seed_spec(),
    {
        let tenth = fraction(1i16, 10i16);
        Position { x: tenth, y: T::from(0i16), z: tenth }
    }
}

impl<T: Scalar> LorenzParams<T> {
    /// `params` are values that the parameters of the classic attractor may
    /// take: `sigma = 10`, `beta = 8/3`, `rho = 28`, and a time step of
    /// `1/1000`.
    pub open spec fn classic_yields(params: Self) -> bool where T: From<i16> {
        &&& is_whole(10i16, params.sigma)
        &&& is_fraction(8i16, 3i16, params.beta)
        &&& is_whole(28i16, params.rho)
        &&& is_fraction(1i16, 1000i16, params.dt)
    }

    /// The parameters of the classic attractor, `sigma = 10`, `beta = 8/3`,
    /// `rho = 28`, integrated with a time step of `1/1000`.
    pub open spec fn classic_spec() -> Self where T: From<i16> {
        LorenzParams {
            sigma: T::from_spec(10i16),
            beta: fraction_spec::<T>(8i16, 3i16),
            rho: T::from_spec(28i16),
            dt: fraction_spec::<T>(1i16, 1000i16),
        }
    }

    /// Both fractions of [`LorenzParams::classic_spec`] can be built.
    pub open spec fn classic_accepts() -> bool where T: From<i16> {
        &&& fraction_accepts::<T>(8i16, 3i16)
        &&& fraction_accepts::<T>(1i16, 1000i16)
    }

    /// The parameters of the classic attractor.
    pub fn classic() -> (params: Self) where T: From<i16>
        requires
            cannot_fail::<T>(Self::classic_accepts()),
        ensures
            Self::classic_yields(params),
            arithmetic_obeys_spec::<T>() && conversion_obeys_spec::<T>() ==> params
                == Self::classic_spec(),
    {
        LorenzParams {
            sigma: T::from(10i16),
            beta: fraction(8i16, 3i16),
            rho: T::from(28i16),
            dt: fraction(1i16, 1000i16),
        }
    }
}

/// The derivative of the Lorenz system at `p`.
pub fn derivative<T: Scalar>(p: &Position<T>, params: &LorenzParams<T>) -> (v: Velocity<T>)
    requires
        cannot_fail::<T>(derivative_accepts(*p, *params)),
    ensures
        derivative_yields(*p, *params, v),
        arithmetic_obeys_spec::<T>() ==> v == derivative_spec(*p, *params),
{
    let y_less_x = p.y - p.x;
    let dx = params.sigma * y_less_x;
    let rho_less_z = params.rho - p.z;
    let x_rho = p.x * rho_less_z;
    let dy = x_rho - p.y;
    let x_y = p.x * p.y;
    let beta_z = params.beta * p.z;
    let dz = x_y - beta_z;
    let v = Velocity { dx, dy, dz };
    proof {
        assert(is_difference(p.y, p.x, y_less_x));
        assert(is_product(params.sigma, y_less_x, v.dx));
        assert(is_difference(params.rho, p.z, rho_less_z));
        assert(is_product(p.x, rho_less_z, x_rho));
        assert(is_difference(x_rho, p.y, v.dy));
        assert(is_product(p.x, p.y, x_y));
        assert(is_product(params.beta, p.z, beta_z));
        assert(is_difference(x_y, beta_z, v.dz));
    }
    v
}

/// Advances `position` by one explicit Euler step.
///
/// The derivative is computed from the position as it was before the call,
/// before any coordinate is written: `dy` and `dz` depend on the old `x`.
pub fn step<T: Scalar>(position: &mut Position<T>, params: &LorenzParams<T>)
    requires
        cannot_fail::<T>(step_accepts(*old(position), *params)),
    ensures
        step_yields(*old(position), *params, *final(position)),
        arithmetic_obeys_spec::<T>() ==> *final(position) == step_spec(*old(position), *params),
{
    let v = derivative(position, params);
    let x_gain = v.dx * params.dt;
    let y_gain = v.dy * params.dt;
    let z_gain = v.dz * params.dt;
    let ghost before = *position;
    position.x = position.x + x_gain;
    position.y = position.y + y_gain;
    position.z = position.z + z_gain;
    proof {
        assert(is_product(v.dx, params.dt, x_gain));
        assert(is_sum(before.x, x_gain, position.x));
        assert(is_product(v.dy, params.dt, y_gain));
        assert(is_sum(before.y, y_gain, position.y));
        assert(is_product(v.dz, params.dt, z_gain));
        assert(is_sum(before.z, z_gain, position.z));
        assert(displace_yields(before, v, params.dt, *position));
    }
}

/// A step is a function of the position and the parameters wherever the
/// arithmetic is one: where the operators of `T` return the values that vstd
/// gives them, every position that a step may reach from `p` is
/// [`step_spec`], so two steps from the same position arrive at the same one.
pub proof fn lemma_step_is_deterministic<T: Scalar>(
    p: Position<T>,
    params: LorenzParams<T>,
    first: Position<T>,
    second: Position<T>,
)
    requires
        arithmetic_obeys_spec::<T>(),
        step_yields(p, params, first),
        step_yields(p, params, second),
    ensures
        first == step_spec(p, params),
        second == first,
{
}

/// The origin is an equilibrium of the Lorenz system, whatever the parameters:
/// in the exact arithmetic of 64-bit integers a step from `(0, 0, 0)` meets no
/// overflow and arrives at `(0, 0, 0)`, and so does every number of steps.
pub proof fn lemma_origin_is_fixed(params: LorenzParams<i64>, n: nat)
    ensures
        step_accepts(Position { x: 0i64, y: 0i64, z: 0i64 }, params),
        orbit(Position { x: 0i64, y: 0i64, z: 0i64 }, params, n) == (Position {
            x: 0i64,
            y: 0i64,
            z: 0i64,
        }),
    decreases n,
{
    let origin = Position { x: 0i64, y: 0i64, z: 0i64 };
    let v = derivative_spec(origin, params);
    assert(derivative_accepts(origin, params) && v == Velocity { dx: 0i64, dy: 0i64, dz: 0i64 })
        by {
        let y_less_x = origin.y.sub_spec(origin.x);
        let rho_less_z = params.rho.sub_spec(origin.z);
        assert(params.sigma * y_less_x == 0) by (nonlinear_arith)
            requires
                y_less_x == 0,
        ;
        assert(origin.x * rho_less_z == 0) by (nonlinear_arith)
            requires
                origin.x == 0,
        ;
        assert(origin.x * origin.y == 0) by (nonlinear_arith)
            requires
                origin.x == 0,
        ;
        assert(params.beta * origin.z == 0) by (nonlinear_arith)
            requires
                origin.z == 0,
        ;
    }
    assert(v.dx * params.dt == 0 && v.dy * params.dt == 0 && v.dz * params.dt == 0)
        by (nonlinear_arith)
        requires
            v.dx == 0 && v.dy == 0 && v.dz == 0,
    ;
    assert(step_spec(origin, params) == origin);
    if n > 0 {
        lemma_origin_is_fixed(params, (n - 1) as nat);
    }
}

/// A trajectory can be continued: `m + n` steps from `start` reach the
/// position that `n` steps reach from where `m` steps from `start` arrived.
pub proof fn lemma_orbit_continues<T: Scalar>(
    start: Position<T>,
    params: LorenzParams<T>,
    m: nat,
    n: nat,
)
    ensures
        orbit(start, params, m + n) == orbit(orbit(start, params, m), params, n),
    decreases n,
{
    if n > 0 {
        lemma_orbit_continues(start, params, m, (n - 1) as nat);
        assert((m + n - 1) as nat == m + (n - 1) as nat);
    }
}

} // verus!
