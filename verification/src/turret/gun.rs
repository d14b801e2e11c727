//! The gun: it sweeps while idle, slews towards a held target and decides when to fire.

use vstd::prelude::*;
use super::fire_mode::FireMode;
use super::geometry::Point;
use super::rate_timer::{RateTimer, TimerState};
use super::swivel::{
    fits, lemma_sweep_bounded, longest_tick, magnitude, rotation_step, Direction, Swivel,
    SwivelState, ROT_VELOCITY,
};
use super::GunType;

verus! {

/// The angle to the target, in thousandths of a degree, below which the gun counts as
/// locked on.
pub const AIM_LOCK: i64 = 10;

/// A target that a gun holds: who it is and where it was last seen.
pub struct Target {
    pub identifier: String,
    pub position: Point,
}

/// What a [`Target`] stands for.
pub struct TargetView {
    pub identifier: Seq<char>,
    pub position: Point,
}

impl View for Target {
    type V = TargetView;

    open spec fn view(&self) -> TargetView {
        TargetView { identifier: self.identifier@, position: self.position }
    }
}

/// A gun on a pivot.
pub struct Gun {
    x: i32,
    y: i32,
    height: i32,
    swivel: Swivel,
    target: Option<Target>,
    is_firing: bool,
    gun_type: GunType,
    rate_timer: RateTimer,
}

/// What a [`Gun`] stands for.
pub struct GunState {
    /// The pivot.
    pub position: Point,
    /// The distance from the pivot to the muzzle.
    pub height: int,
    pub swivel: SwivelState,
    pub target: Option<TargetView>,
    pub is_firing: bool,
    pub gun_type: GunType,
    pub rate_timer: TimerState,
}

impl GunState {
    /// A gun at `position` that faces `angle`, holds no target and has not fired.
    pub open spec fn fresh(
        position: Point,
        height: int,
        angle: int,
        gun_type: GunType,
        fire_mode: FireMode,
    ) -> GunState {
        GunState {
            position,
            height,
            swivel: SwivelState::fresh(angle),
            target: None,
            is_firing: false,
            gun_type,
            rate_timer: TimerState::fresh(fire_mode),
        }
    }

    /// An attempt to fire in a tick of `dt` milliseconds. A missile gun fires if its rate
    /// timer allows it, which starts the timer over; if not, the tick is credited to the
    /// timer as idle time. A laser fires in any case.
    pub open spec fn maybe_fire(self, dt: nat) -> GunState {
        match self.gun_type {
            GunType::Missile => if self.rate_timer.can_shoot() {
                GunState {
                    rate_timer: self.rate_timer.after_can_shoot().reset(),
                    is_firing: true,
                    ..self
                }
            } else {
                GunState { rate_timer: self.rate_timer.increment(dt), is_firing: false, ..self }
            },
            GunType::Laser => GunState { is_firing: true, ..self },
        }
    }

    /// One tick of `dt` milliseconds, with the held target, if any, seen `angle_to_target`
    /// away from where the gun points.
    ///
    /// The rate timer's burst cycle is advanced first. Without a target the gun sweeps,
    /// credits the tick to the timer and does not fire. With a target nearer than
    /// [`AIM_LOCK`] it stays put and attempts to fire. With a target further off it credits
    /// the tick to the timer and slews; if this step brings it onto the target, it attempts
    /// to fire in this same tick, else it does not fire.
    pub open spec fn update(self, dt: nat, angle_to_target: int) -> GunState {
        let ticked = GunState { rate_timer: self.rate_timer.update(dt), ..self };
        if self.target.is_none() {
            GunState {
                swivel: self.swivel.sweep(dt),
                rate_timer: ticked.rate_timer.increment(dt),
                is_firing: false,
                ..ticked
            }
        } else if magnitude(angle_to_target) < AIM_LOCK as int {
            ticked.maybe_fire(dt)
        } else {
            let idle = GunState {
                rate_timer: ticked.rate_timer.increment(dt),
                is_firing: false,
                ..ticked
            };
            let decided = if magnitude(angle_to_target) <= rotation_step(dt) {
                idle.maybe_fire(dt)
            } else {
                idle
            };
            GunState { swivel: self.swivel.rotate_towards(angle_to_target, dt), ..decided }
        }
    }

    /// The gun takes a target.
    pub open spec fn acquire_target(self, identifier: Seq<char>, position: Point) -> GunState {
        GunState { target: Some(TargetView { identifier, position }), ..self }
    }

    /// The gun lets its target go and stops firing.
    pub open spec fn release_target(self) -> GunState {
        GunState { target: None, is_firing: false, ..self }
    }

    /// The held target, if there is one, is seen at a new place.
    pub open spec fn refresh_target_position(self, position: Point) -> GunState {
        match self.target {
            Some(target) => GunState {
                target: Some(TargetView { identifier: target.identifier, position }),
                ..self
            },
            None => self,
        }
    }

    /// One full step to the left by hand.
    pub open spec fn turn_left(self, dt: nat) -> GunState {
        GunState { swivel: self.swivel.turn(Direction::Left, dt), ..self }
    }

    /// One full step to the right by hand.
    pub open spec fn turn_right(self, dt: nat) -> GunState {
        GunState { swivel: self.swivel.turn(Direction::Right, dt), ..self }
    }

    /// Whether the gun has something to fire at if it fires.
    pub open spec fn aimed(self) -> bool {
        self.is_firing ==> self.target.is_some()
    }

    /// The gun after a run of ticks of the given lengths, the target seen at the given
    /// angle in each.
    pub open spec fn update_all(self, dts: Seq<nat>, angles: Seq<int>) -> GunState
        recommends
            dts.len() == angles.len(),
        decreases dts.len(),
    {
        if dts.len() == 0 {
            self
        } else {
            self.update_all(dts.drop_last(), angles.drop_last()).update(dts.last(), angles.last())
        }
    }

    /// The gun after `ticks` ticks of `dt` milliseconds each with a target that stays at
    /// the absolute angle `bearing`.
    pub open spec fn track(self, bearing: int, dt: nat, ticks: nat) -> GunState
        decreases ticks,
    {
        if ticks == 0 {
            self
        } else {
            let before = self.track(bearing, dt, (ticks - 1) as nat);
            before.update(dt, bearing - before.swivel.angle)
        }
    }
}

/// A gun fires at a target only: whatever is done to a gun that is not firing into the
/// void, it is not firing into the void after it.
pub proof fn lemma_firing_gun_holds_target(
    gun: GunState,
    dt: nat,
    angle_to_target: int,
    identifier: Seq<char>,
    position: Point,
)
    requires
        gun.aimed(),
    ensures
        gun.update(dt, angle_to_target).aimed(),
        gun.acquire_target(identifier, position).aimed(),
        gun.release_target().aimed(),
        gun.refresh_target_position(position).aimed(),
        gun.turn_left(dt).aimed(),
        gun.turn_right(dt).aimed(),
{
}

/// A gun without a target sweeps as a sensor does, whatever angle it is told: over any run
/// of ticks it keeps no target, does not fire, and moves as its mount sweeps.
pub proof fn lemma_idle_gun_sweeps(start: GunState, dts: Seq<nat>, angles: Seq<int>)
    requires
        start.target.is_none(),
        dts.len() == angles.len(),
    ensures
        start.update_all(dts, angles).target.is_none(),
        start.update_all(dts, angles).swivel == start.swivel.sweep_all(dts),
        dts.len() > 0 ==> !start.update_all(dts, angles).is_firing,
    decreases dts.len(),
{
    if dts.len() > 0 {
        lemma_idle_gun_sweeps(start, dts.drop_last(), angles.drop_last());
    }
}

/// A gun without a target never points further outside its sweep range than it did at
/// the start or than the longest single step of the run takes it, whichever is more.
pub proof fn lemma_idle_gun_stays_in_range(start: GunState, dts: Seq<nat>, angles: Seq<int>)
    requires
        start.target.is_none(),
        dts.len() == angles.len(),
    ensures
        start.update_all(dts, angles).swivel.overshoot() <= if start.swivel.overshoot()
            >= rotation_step(longest_tick(dts)) {
            start.swivel.overshoot()
        } else {
            rotation_step(longest_tick(dts))
        },
{
    lemma_idle_gun_sweeps(start, dts, angles);
    lemma_sweep_bounded(start.swivel, dts);
}

/// A gun that holds a target which stays put closes in on it: it keeps the target, the
/// angle to the target never grows from one tick to the next, and the gun is locked on
/// from the first tick on at which full steps add up to the angle at the start.
pub proof fn lemma_gun_locks_on(start: GunState, bearing: int, dt: nat, ticks: nat)
    requires
        start.target.is_some(),
    ensures
        start.track(bearing, dt, ticks).target == start.target,
        ticks > 0 ==> magnitude(bearing - start.track(bearing, dt, ticks).swivel.angle)
            <= magnitude(bearing - start.track(bearing, dt, (ticks - 1) as nat).swivel.angle),
        ticks * rotation_step(dt) >= magnitude(bearing - start.swivel.angle) ==> magnitude(
            bearing - start.track(bearing, dt, ticks).swivel.angle,
        ) < AIM_LOCK as int,
        magnitude(bearing - start.track(bearing, dt, ticks).swivel.angle) < AIM_LOCK as int
            || magnitude(bearing - start.track(bearing, dt, ticks).swivel.angle) <= magnitude(
            bearing - start.swivel.angle,
        ) - ticks * rotation_step(dt),
    decreases ticks,
{
    let step = rotation_step(dt);
    if ticks == 0 {
        assert(ticks * step == 0) by (nonlinear_arith)
            requires
                ticks == 0,
        ;
    } else {
        let fewer = (ticks - 1) as nat;
        lemma_gun_locks_on(start, bearing, dt, fewer);
        assert(ticks * step == fewer * step + step && fewer * step >= 0) by (nonlinear_arith)
            requires
                ticks == fewer + 1,
                step >= 0,
        ;
    }
}

/// What an optional [`Target`] stands for.
pub open spec fn target_view(target: Option<Target>) -> Option<TargetView> {
    match target {
        Some(target) => Some(target@),
        None => None,
    }
}

impl View for Gun {
    type V = GunState;

    closed spec fn view(&self) -> GunState {
        GunState {
            position: Point { x: self.x, y: self.y },
            height: self.height as int,
            swivel: self.swivel@,
            target: target_view(self.target),
            is_firing: self.is_firing,
            gun_type: self.gun_type,
            rate_timer: self.rate_timer@,
        }
    }
}

impl Gun {
    /// A gun on a pivot at `(x, y)`, `height` long from pivot to muzzle, that faces
    /// `angle`, the centre of its sweep. The width of the barrel plays no part.
    pub fn new(
        x: i32,
        y: i32,
        _width: i32,
        height: i32,
        angle: i32,
        gun_type: GunType,
        fire_mode: FireMode,
    ) -> (gun: Self)
        ensures
            gun@ == GunState::fresh(
                Point { x, y },
                height as int,
                angle as int,
                gun_type,
                fire_mode,
            ),
    {
        Self {
            x,
            y,
            height,
            swivel: Swivel::new(angle),
            target: None,
            is_firing: false,
            gun_type,
            rate_timer: RateTimer::new(fire_mode),
        }
    }

    /// Runs one tick of `elapsed` milliseconds and tells whether the gun fires in it.
    /// `angle_to_target` is the signed angle from the line pivot to muzzle to the line
    /// pivot to target; it is not looked at while no target is held.
    pub fn update(&mut self, elapsed: u32, angle_to_target: i32) -> (firing: bool)
        requires
            old(self)@.target.is_some() ==> fits(
                old(self)@.update(elapsed as nat, angle_to_target as int).swivel.angle,
            ),
        ensures
            final(self)@ == old(self)@.update(elapsed as nat, angle_to_target as int),
            firing == final(self)@.is_firing,
    {
        self.rate_timer.update(elapsed);

        if self.target.is_none() {
            self.swivel.sweep(elapsed);
            self.rate_timer.increment(elapsed);
            self.is_firing = false;
        } else {
            let error: i64 = angle_to_target as i64;
            let size: i64 = if error >= 0 { error } else { -error };
            if size < AIM_LOCK {
                self.maybe_fire(elapsed);
            } else {
                self.is_firing = false;
                self.rate_timer.increment(elapsed);

                if size - ROT_VELOCITY * (elapsed as i64) <= 0 {
                    self.maybe_fire(elapsed);
                }
                self.swivel.rotate_towards(angle_to_target, elapsed);
            }
        }
        self.is_firing
    }

    /// Takes a target. Nothing is checked: it is for the caller to take only what it sees.
    pub fn acquire_target(&mut self, target_identifier: &String, target_position: Point)
        ensures
            final(self)@ == old(self)@.acquire_target(target_identifier@, target_position),
    {
        self.target = Some(
            Target { identifier: target_identifier.clone(), position: target_position },
        );
    }

    /// Lets the target go and stops firing.
    pub fn release_target(&mut self)
        ensures
            final(self)@ == old(self)@.release_target(),
    {
        self.target = None;
        self.is_firing = false;
    }

    /// Moves the held target, if there is one, to where it is seen now.
    pub fn refresh_target_position(&mut self, new_target_position: Point)
        ensures
            final(self)@ == old(self)@.refresh_target_position(new_target_position),
    {
        match self.get_target_identifier() {
            None => {},
            Some(identifier) => {
                self.target = Some(Target { identifier, position: new_target_position });
            },
        }
    }

    /// Who the held target is, if there is one.
    pub fn get_target_identifier(&self) -> (identifier: Option<String>)
        ensures
            match identifier {
                Some(name) => self@.target.is_some() && name@ == self@.target.unwrap().identifier,
                None => self@.target.is_none(),
            },
    {
        match &self.target {
            None => None,
            Some(target) => Some(target.identifier.clone()),
        }
    }

    /// Where the held target was last seen, if there is one.
    pub fn get_target_position(&self) -> (position: Option<Point>)
        ensures
            match position {
                Some(place) => self@.target.is_some() && place == self@.target.unwrap().position,
                None => self@.target.is_none(),
            },
    {
        match &self.target {
            None => None,
            Some(target) => Some(target.position),
        }
    }

    /// Turns left by hand for `dt` milliseconds, whatever target is held.
    pub fn turn_left(&mut self, dt: u32)
        requires
            fits(old(self)@.turn_left(dt as nat).swivel.angle),
        ensures
            final(self)@ == old(self)@.turn_left(dt as nat),
    {
        self.swivel.turn(Direction::Left, dt);
    }

    /// Turns right by hand for `dt` milliseconds, whatever target is held.
    pub fn turn_right(&mut self, dt: u32)
        requires
            fits(old(self)@.turn_right(dt as nat).swivel.angle),
        ensures
            final(self)@ == old(self)@.turn_right(dt as nat),
    {
        self.swivel.turn(Direction::Right, dt);
    }

    /// Whether the gun fired in the last tick.
    pub fn is_firing(&self) -> (firing: bool)
        ensures
            firing == self@.is_firing,
    {
        self.is_firing
    }

    /// Attempts to fire in a tick of `dt` milliseconds.
    fn maybe_fire(&mut self, dt: u32)
        ensures
            final(self)@ == old(self)@.maybe_fire(dt as nat),
    {
        match self.gun_type {
            GunType::Missile => {
                if self.rate_timer.can_shoot() {
                    self.rate_timer.reset();
                    self.is_firing = true;
                } else {
                    self.rate_timer.increment(dt);
                    self.is_firing = false;
                }
            },
            GunType::Laser => {
                self.is_firing = true;
            },
        }
    }

    /// The pivot.
    pub fn position(&self) -> (position: Point)
        ensures
            position == self@.position,
    {
        Point { x: self.x, y: self.y }
    }

    /// The distance from the pivot to the muzzle.
    pub fn height(&self) -> (height: i32)
        ensures
            height == self@.height,
    {
        self.height
    }

    /// The angle at which the gun points.
    pub fn get_angle(&self) -> (angle: i64)
        ensures
            angle == self@.swivel.angle,
    {
        self.swivel.angle()
    }

    /// What the gun shoots.
    pub fn gun_type(&self) -> (gun_type: GunType)
        ensures
            gun_type == self@.gun_type,
    {
        self.gun_type
    }

    /// Whether the gun can be slewed or turned by hand.
    pub fn is_steerable(&self) -> (steerable: bool)
        ensures
            steerable == self@.swivel.steerable(),
    {
        self.swivel.is_steerable()
    }
}

} // verus!
