//! A rotating mount: the sweep between two boundaries, slewing towards a target, and
//! turning by hand.
//!
//! Angles are in thousandths of a degree and are never normalised. Time is in milliseconds.

use vstd::prelude::*;

verus! {

/// Rotation velocity, in degrees per second, which is thousandths of a degree per
/// millisecond.
pub const ROT_VELOCITY: i64 = 45;

/// Left boundary of the sweep, relative to the base angle.
pub const LEFT_BOUNDARY: i64 = -60_000;

/// Right boundary of the sweep, relative to the base angle.
pub const RIGHT_BOUNDARY: i64 = 60_000;

/// The widest angle, either way, from which any single step, slewing or by hand, leads to
/// an angle that the machine word still holds.
pub const STEER_LIMIT: i64 = 9_000_000_000_000_000_000;

/// The way a mount rotates.
#[derive(Clone, Copy, Debug, PartialEq, Eq, Structural)]
pub enum Direction {
    /// Towards smaller angles.
    Left,
    /// Towards larger angles.
    Right,
}

impl Direction {
    /// The change of angle that a rotation by `amount` this way makes: `-amount` to the
    /// left, `amount` to the right.
    pub open spec fn signed(self, amount: int) -> int {
        match self {
            Direction::Left => -amount,
            Direction::Right => amount,
        }
    }
}

/// The angle that a mount covers in `dt` milliseconds at full speed.
pub open spec fn rotation_step(dt: nat) -> int {
    ROT_VELOCITY as int * dt as int
}

/// Whether the machine word of an angle holds `angle`.
pub open spec fn fits(angle: int) -> bool {
    i64::MIN as int <= angle <= i64::MAX as int
}

/// The size of an angle, whatever its sign.
pub open spec fn magnitude(angle: int) -> int {
    if angle >= 0 {
        angle
    } else {
        -angle
    }
}

/// A rotating mount.
pub struct Swivel {
    base_angle: i32,
    angle: i64,
    rot_direction: Direction,
}

/// What a [`Swivel`] stands for: the angle that its sweep is centred on, the angle that it
/// faces and the way it last rotated.
pub struct SwivelState {
    pub base_angle: int,
    pub angle: int,
    pub rot_direction: Direction,
}

impl SwivelState {
    /// A mount at rest at `angle`, about to sweep to the left.
    pub open spec fn fresh(angle: int) -> SwivelState {
        SwivelState { base_angle: angle, angle, rot_direction: Direction::Left }
    }

    /// The smallest angle of the sweep.
    pub open spec fn left_limit(self) -> int {
        self.base_angle + LEFT_BOUNDARY as int
    }

    /// The largest angle of the sweep.
    pub open spec fn right_limit(self) -> int {
        self.base_angle + RIGHT_BOUNDARY as int
    }

    /// How far outside its sweep range the mount faces: zero inside the range, ends
    /// included.
    pub open spec fn overshoot(self) -> int {
        if self.angle < self.left_limit() {
            self.left_limit() - self.angle
        } else if self.angle > self.right_limit() {
            self.angle - self.right_limit()
        } else {
            0
        }
    }

    /// The way the next sweep step goes: back inwards at or beyond a boundary, else on as
    /// before.
    pub open spec fn sweep_direction(self) -> Direction {
        if self.angle >= self.right_limit() {
            Direction::Left
        } else if self.angle <= self.left_limit() {
            Direction::Right
        } else {
            self.rot_direction
        }
    }

    /// One sweep step of `dt` milliseconds: a full step along [`Self::sweep_direction`].
    /// The step is not cut short at a boundary, so the mount may pass it by less than one
    /// step before it turns back.
    pub open spec fn sweep(self, dt: nat) -> SwivelState {
        let direction = self.sweep_direction();
        SwivelState {
            angle: self.angle + direction.signed(rotation_step(dt)),
            rot_direction: direction,
            ..self
        }
    }

    /// How far one slewing step of `dt` milliseconds goes when the target is
    /// `angle_to_target` away: a full step, or what is left of the way if that is less.
    pub open spec fn slew_travel(angle_to_target: int, dt: nat) -> int {
        if magnitude(angle_to_target) <= rotation_step(dt) {
            magnitude(angle_to_target)
        } else {
            rotation_step(dt)
        }
    }

    /// The way a slewing step goes: right for a target at a positive angle or dead ahead,
    /// left for one at a negative angle.
    pub open spec fn slew_direction(angle_to_target: int) -> Direction {
        if angle_to_target >= 0 {
            Direction::Right
        } else {
            Direction::Left
        }
    }

    /// One slewing step of `dt` milliseconds towards a target that lies `angle_to_target`
    /// away from where the mount faces.
    pub open spec fn rotate_towards(self, angle_to_target: int, dt: nat) -> SwivelState {
        let direction = Self::slew_direction(angle_to_target);
        SwivelState {
            angle: self.angle + direction.signed(Self::slew_travel(angle_to_target, dt)),
            rot_direction: direction,
            ..self
        }
    }

    /// One full step of `dt` milliseconds the given way, wherever the mount faces.
    pub open spec fn turn(self, direction: Direction, dt: nat) -> SwivelState {
        SwivelState {
            angle: self.angle + direction.signed(rotation_step(dt)),
            rot_direction: direction,
            ..self
        }
    }

    /// Whether the mount is within [`STEER_LIMIT`] of zero. From there any slewing step
    /// and any two steps by hand lead to angles that the machine word holds.
    pub open spec fn steerable(self) -> bool {
        -(STEER_LIMIT as int) <= self.angle <= STEER_LIMIT as int
    }

    /// The mount after a run of sweep steps of the given lengths.
    pub open spec fn sweep_all(self, dts: Seq<nat>) -> SwivelState
        decreases dts.len(),
    {
        if dts.len() == 0 {
            self
        } else {
            self.sweep_all(dts.drop_last()).sweep(dts.last())
        }
    }

    /// The mount after `ticks` slewing steps of `dt` milliseconds each towards a target
    /// that stays at the absolute angle `bearing`.
    pub open spec fn track(self, bearing: int, dt: nat, ticks: nat) -> SwivelState
        decreases ticks,
    {
        if ticks == 0 {
            self
        } else {
            let before = self.track(bearing, dt, (ticks - 1) as nat);
            before.rotate_towards(bearing - before.angle, dt)
        }
    }
}

/// The longest tick of a run, zero for an empty run.
pub open spec fn longest_tick(dts: Seq<nat>) -> nat
    decreases dts.len(),
{
    if dts.len() == 0 {
        0
    } else if dts.last() >= longest_tick(dts.drop_last()) {
        dts.last()
    } else {
        longest_tick(dts.drop_last())
    }
}

/// A mount that does nothing but sweep never faces further outside its sweep range than
/// it did at the start or than the longest single step of the run takes it, whichever is
/// more. So one that starts inside the range is never further outside than one step.
pub proof fn lemma_sweep_bounded(start: SwivelState, dts: Seq<nat>)
    ensures
        start.sweep_all(dts).base_angle == start.base_angle,
        start.sweep_all(dts).overshoot() <= if start.overshoot() >= rotation_step(
            longest_tick(dts),
        ) {
            start.overshoot()
        } else {
            rotation_step(longest_tick(dts))
        },
    decreases dts.len(),
{
    if dts.len() > 0 {
        lemma_sweep_bounded(start, dts.drop_last());
    }
}

/// One slewing step takes a full step off the angle to the target, or all of it if that is
/// less.
pub proof fn lemma_slew_closes_in(start: SwivelState, bearing: int, dt: nat)
    ensures
        magnitude(bearing - start.rotate_towards(bearing - start.angle, dt).angle) == if magnitude(
            bearing - start.angle,
        ) >= rotation_step(dt) {
            magnitude(bearing - start.angle) - rotation_step(dt)
        } else {
            0
        },
{
}

/// Slewing towards a target that stays put closes the angle to it by one full step per
/// tick until nothing is left: the angle never grows, and it is zero from the first tick
/// on at which the steps taken add up to the angle at the start.
pub proof fn lemma_aim_converges(start: SwivelState, bearing: int, dt: nat, ticks: nat)
    ensures
        magnitude(bearing - start.track(bearing, dt, ticks).angle) == if magnitude(
            bearing - start.angle,
        ) >= ticks * rotation_step(dt) {
            magnitude(bearing - start.angle) - ticks * rotation_step(dt)
        } else {
            0
        },
        ticks > 0 ==> magnitude(bearing - start.track(bearing, dt, ticks).angle) <= magnitude(
            bearing - start.track(bearing, dt, (ticks - 1) as nat).angle,
        ),
    decreases ticks,
{
    let step = rotation_step(dt);
    if ticks == 0 {
        assert(ticks * step == 0) by (nonlinear_arith)
            requires
                ticks == 0,
        ;
    } else {
        let fewer = (ticks - 1) as nat;
        let before = start.track(bearing, dt, fewer);
        lemma_aim_converges(start, bearing, dt, fewer);
        lemma_slew_closes_in(before, bearing, dt);
        assert(ticks * step == fewer * step + step && fewer * step >= 0) by (nonlinear_arith)
            requires
                ticks == fewer + 1,
                step >= 0,
        ;
    }
}

impl View for Swivel {
    type V = SwivelState;

    closed spec fn view(&self) -> SwivelState {
        SwivelState {
            base_angle: self.base_angle as int,
            angle: self.angle as int,
            rot_direction: self.rot_direction,
        }
    }
}

impl Swivel {
    /// A mount at rest at `angle`, about to sweep to the left.
    pub fn new(angle: i32) -> (swivel: Self)
        ensures
            swivel@ == SwivelState::fresh(angle as int),
    {
        Swivel { base_angle: angle, angle: angle as i64, rot_direction: Direction::Left }
    }

    /// The angle that the mount faces.
    pub fn angle(&self) -> (angle: i64)
        ensures
            angle == self@.angle,
    {
        self.angle
    }

    /// The angle that the sweep is centred on.
    pub fn base_angle(&self) -> (angle: i32)
        ensures
            angle == self@.base_angle,
    {
        self.base_angle
    }

    /// The way the mount last rotated.
    pub fn rot_direction(&self) -> (direction: Direction)
        ensures
            direction == self@.rot_direction,
    {
        self.rot_direction
    }

    /// Whether the mount can be slewed or turned by hand.
    pub fn is_steerable(&self) -> (steerable: bool)
        ensures
            steerable == self@.steerable(),
    {
        -STEER_LIMIT <= self.angle && self.angle <= STEER_LIMIT
    }

    /// Sweeps for `dt` milliseconds.
    pub fn sweep(&mut self, dt: u32)
        ensures
            final(self)@ == old(self)@.sweep(dt as nat),
    {
        let base: i64 = self.base_angle as i64;
        if self.angle <= base + LEFT_BOUNDARY {
            self.rot_direction = Direction::Right;
        }
        if self.angle >= base + RIGHT_BOUNDARY {
            self.rot_direction = Direction::Left;
        }
        let step: i64 = ROT_VELOCITY * (dt as i64);
        match self.rot_direction {
            Direction::Left => {
                self.angle = self.angle - step;
            },
            Direction::Right => {
                self.angle = self.angle + step;
            },
        }
    }

    /// Slews for `dt` milliseconds towards a target that lies `angle_to_target` away from
    /// where the mount faces, and stops short of passing it.
    pub fn rotate_towards(&mut self, angle_to_target: i32, dt: u32)
        requires
            fits(old(self)@.rotate_towards(angle_to_target as int, dt as nat).angle),
        ensures
            final(self)@ == old(self)@.rotate_towards(angle_to_target as int, dt as nat),
    {
        let error: i64 = angle_to_target as i64;
        let size: i64 = if error >= 0 { error } else { -error };
        let mut rot_velocity: i64 = ROT_VELOCITY * (dt as i64);
        if size - rot_velocity <= 0 {
            rot_velocity = size;
        }
        if error >= 0 {
            self.rot_direction = Direction::Right;
            self.angle = self.angle + rot_velocity;
        } else {
            self.rot_direction = Direction::Left;
            self.angle = self.angle - rot_velocity;
        }
    }

    /// Turns for `dt` milliseconds the given way.
    pub fn turn(&mut self, direction: Direction, dt: u32)
        requires
            fits(old(self)@.turn(direction, dt as nat).angle),
        ensures
            final(self)@ == old(self)@.turn(direction, dt as nat),
    {
        let step: i64 = ROT_VELOCITY * (dt as i64);
        self.rot_direction = direction;
        match direction {
            Direction::Left => {
                self.angle = self.angle - step;
            },
            Direction::Right => {
                self.angle = self.angle + step;
            },
        }
    }
}

} // verus!
