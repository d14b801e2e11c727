//! The sensor: a sweeping cone of view and the test of what lies in it.

use vstd::prelude::*;
use super::geometry::{triangle_contains, in_triangle, Point};
use super::swivel::{
    fits, lemma_sweep_bounded, longest_tick, rotation_step, Swivel, SwivelState,
};

verus! {

/// How far a sensor sees, in thousandths of a world unit.
pub const SENSOR_RADIUS: i32 = 240_000;

/// By how much the triangle of view reaches past the radius, in thousandths of a world
/// unit.
pub const VIEW_MARGIN: i32 = 10_000;

/// Half the opening of the cone of view, in thousandths of a degree.
pub const HALF_FIELD_OF_VIEW: i64 = 30_000;

/// A sensor on a fixed mount point.
pub struct Sensor {
    x: i32,
    y: i32,
    radius: i32,
    swivel: Swivel,
}

/// What a [`Sensor`] stands for.
pub struct SensorState {
    pub position: Point,
    pub radius: int,
    pub swivel: SwivelState,
}

impl SensorState {
    /// A sensor at `position` that faces `angle`, the centre of its sweep.
    pub open spec fn fresh(position: Point, angle: int) -> SensorState {
        SensorState { position, radius: SENSOR_RADIUS as int, swivel: SwivelState::fresh(angle) }
    }

    /// One sweep step of `elapsed` milliseconds.
    pub open spec fn update(self, elapsed: nat) -> SensorState {
        SensorState { swivel: self.swivel.sweep(elapsed), ..self }
    }

    /// One slewing step of `dt` milliseconds towards a target that lies `angle_to_target`
    /// away from the axis of the cone.
    pub open spec fn rotate_towards(self, angle_to_target: int, dt: nat) -> SensorState {
        SensorState { swivel: self.swivel.rotate_towards(angle_to_target, dt), ..self }
    }

    /// Whether `other` lies in the triangle of view whose far corners are `right` and
    /// `left`.
    pub open spec fn sees(self, right: Point, left: Point, other: Point) -> bool {
        in_triangle(self.position, right, left, other)
    }

    /// How far from the sensor the far corners of the triangle of view lie.
    pub open spec fn view_reach(self) -> int {
        self.radius + VIEW_MARGIN as int
    }

    /// The sensor after a run of sweep steps of the given lengths.
    pub open spec fn update_all(self, dts: Seq<nat>) -> SensorState
        decreases dts.len(),
    {
        if dts.len() == 0 {
            self
        } else {
            self.update_all(dts.drop_last()).update(dts.last())
        }
    }
}

/// A sensor that does nothing but sweep stays where it is mounted, sees as far as before,
/// and never faces further outside its sweep range than it did at the start or than the
/// longest single step of the run takes it, whichever is more.
pub proof fn lemma_sensor_stays_in_range(start: SensorState, dts: Seq<nat>)
    ensures
        start.update_all(dts).position == start.position,
        start.update_all(dts).radius == start.radius,
        start.update_all(dts).swivel == start.swivel.sweep_all(dts),
        start.update_all(dts).swivel.overshoot() <= if start.swivel.overshoot()
            >= rotation_step(longest_tick(dts)) {
            start.swivel.overshoot()
        } else {
            rotation_step(longest_tick(dts))
        },
    decreases dts.len(),
{
    if dts.len() > 0 {
        lemma_sensor_stays_in_range(start, dts.drop_last());
    }
    lemma_sweep_bounded(start.swivel, dts);
}

impl View for Sensor {
    type V = SensorState;

    closed spec fn view(&self) -> SensorState {
        SensorState {
            position: Point { x: self.x, y: self.y },
            radius: self.radius as int,
            swivel: self.swivel@,
        }
    }
}

impl Sensor {
    /// A sensor at `(x, y)` that faces `angle`, the centre of its sweep.
    pub fn new(x: i32, y: i32, angle: i32) -> (sensor: Self)
        ensures
            sensor@ == SensorState::fresh(Point { x, y }, angle as int),
    {
        Self { x, y, radius: SENSOR_RADIUS, swivel: Swivel::new(angle) }
    }

    /// Sweeps for `elapsed` milliseconds.
    pub fn update(&mut self, elapsed: u32)
        ensures
            final(self)@ == old(self)@.update(elapsed as nat),
    {
        self.swivel.sweep(elapsed);
    }

    /// Slews for `dt` milliseconds towards a target. `angle_to_target` is the signed angle
    /// from the axis of the cone to the line from the sensor to the target.
    pub fn rotate_towards(&mut self, angle_to_target: i32, dt: u32)
        requires
            fits(old(self)@.rotate_towards(angle_to_target as int, dt as nat).swivel.angle),
        ensures
            final(self)@ == old(self)@.rotate_towards(angle_to_target as int, dt as nat),
    {
        self.swivel.rotate_towards(angle_to_target, dt);
    }

    /// Whether `other` lies in the triangle of view. `right` and `left` are its far
    /// corners: the points at [`Self::view_reach`] from the sensor, [`HALF_FIELD_OF_VIEW`]
    /// to the right and to the left of the axis of the cone.
    pub fn sees(&self, right: Point, left: Point, other: Point) -> (seen: bool)
        ensures
            seen == self@.sees(right, left, other),
    {
        triangle_contains(Point { x: self.x, y: self.y }, right, left, other)
    }

    /// Where the sensor is mounted.
    pub fn position(&self) -> (position: Point)
        ensures
            position == self@.position,
    {
        Point { x: self.x, y: self.y }
    }

    /// How far the sensor sees.
    pub fn radius(&self) -> (radius: i32)
        ensures
            radius == self@.radius,
    {
        self.radius
    }

    /// The angle of the axis of the cone.
    pub fn get_angle(&self) -> (angle: i64)
        ensures
            angle == self@.swivel.angle,
    {
        self.swivel.angle()
    }

    /// How far from the sensor the far corners of the triangle of view lie.
    pub fn view_reach(&self) -> (reach: i64)
        ensures
            reach == self@.view_reach(),
    {
        self.radius as i64 + VIEW_MARGIN as i64
    }

    /// Whether the sensor can be slewed.
    pub fn is_steerable(&self) -> (steerable: bool)
        ensures
            steerable == self@.swivel.steerable(),
    {
        self.swivel.is_steerable()
    }
}

} // verus!
