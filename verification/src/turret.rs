//! The turret engagement core: a sensor that sweeps a cone of view, a gun that tracks and
//! fires under a rate limit, and the controller that ties them together.
//!
//! All quantities are whole numbers: time in milliseconds, angles in thousandths of a
//! degree, positions in thousandths of a world unit. What takes trigonometry is measured
//! by the caller and handed in: the angle from the gun to its target, and the far corners
//! of the sensor's triangle of view.

use vstd::prelude::*;
use ai::{candidate_views, AiState, BasicAI, Candidate, Controls, Rig, State};
use base::Base;
use fire_mode::FireMode;
use geometry::Point;
use gun::Gun;
use sensor::Sensor;

pub mod ai;
pub mod base;
pub mod clock;
pub mod fire_mode;
pub mod geometry;
pub mod gun;
pub mod monster;
pub mod rate_timer;
pub mod sensor;
pub mod swivel;

verus! {

/// Width of a turret's gun, in thousandths of a world unit.
pub const GUN_WIDTH: i32 = 2_000;

/// Length of a turret's gun from pivot to muzzle, in thousandths of a world unit.
pub const GUN_HEIGHT: i32 = 12_000;

/// What a gun shoots.
#[derive(Clone, Copy, Debug, PartialEq, Eq, Structural)]
pub enum GunType {
    /// Single shots, paced by the rate timer.
    Missile,
    /// A beam that stays on for as long as the gun is on target.
    Laser,
}

/// A turret: base, sensor, gun and the controller that drives them.
pub struct Turret {
    identifier: String,
    base: Base,
    gun: Gun,
    sensor: Sensor,
    gun_type: GunType,
    ai: BasicAI,
}

/// What a [`Turret`] stands for.
pub struct TurretState {
    pub identifier: Seq<char>,
    pub base: Base,
    pub gun_type: GunType,
    /// Controller, sensor and gun.
    pub rig: Rig,
}

impl TurretState {
    /// A turret at `position` that faces `angle` and searches.
    pub open spec fn fresh(
        identifier: Seq<char>,
        position: Point,
        angle: int,
        gun_type: GunType,
        fire_mode: FireMode,
    ) -> TurretState {
        TurretState {
            identifier,
            base: Base { x: position.x, y: position.y },
            gun_type,
            rig: Rig {
                ai: AiState { state: State::Searching, scan_due: false },
                sensor: sensor::SensorState::fresh(position, angle),
                gun: gun::GunState::fresh(
                    position,
                    GUN_HEIGHT as int,
                    angle,
                    gun_type,
                    fire_mode,
                ),
            },
        }
    }

    /// Whether gun and controller agree: the gun holds a target exactly while the
    /// controller is engaging.
    pub open spec fn consistent(self) -> bool {
        self.rig.gun.target.is_some() <==> self.rig.ai.state == State::Engaging
    }

    /// The first half of a tick: see [`Rig::update`].
    pub open spec fn update(
        self,
        candidates: Seq<ai::CandidateView>,
        dt: nat,
        controls: Controls,
        angle_to_target: int,
    ) -> TurretState {
        TurretState {
            rig: self.rig.update(self.base, candidates, dt, controls, angle_to_target),
            ..self
        }
    }

    /// The second half of a tick: see [`Rig::scan`].
    pub open spec fn scan(
        self,
        candidates: Seq<ai::CandidateView>,
        right: Point,
        left: Point,
    ) -> TurretState {
        TurretState { rig: self.rig.scan(candidates, right, left), ..self }
    }
}

impl View for Turret {
    type V = TurretState;

    closed spec fn view(&self) -> TurretState {
        TurretState {
            identifier: self.identifier@,
            base: self.base,
            gun_type: self.gun_type,
            rig: Rig { ai: self.ai@, sensor: self.sensor@, gun: self.gun@ },
        }
    }
}

impl Turret {
    /// A turret at `(x, y)` that faces `angle` and searches.
    pub fn new(
        identifier: String,
        x: i32,
        y: i32,
        angle: i32,
        gun_type: GunType,
        fire_mode: FireMode,
    ) -> (turret: Self)
        ensures
            turret@ == TurretState::fresh(
                identifier@,
                Point { x, y },
                angle as int,
                gun_type,
                fire_mode,
            ),
            turret@.consistent(),
    {
        Self {
            identifier,
            base: Base::new(x, y),
            gun: Gun::new(x, y, GUN_WIDTH, GUN_HEIGHT, angle, gun_type, fire_mode),
            sensor: Sensor::new(x, y, angle),
            gun_type,
            ai: BasicAI::new(),
        }
    }

    /// Runs the first half of a tick of `dt` milliseconds and tells whether
    /// [`Self::scan`] is due. `angle_to_target` is what [`Gun::update`] asks for.
    pub fn update(
        &mut self,
        candidates: &Vec<Candidate>,
        dt: u32,
        controls: Controls,
        angle_to_target: i32,
    ) -> (scan_due: bool)
        requires
            old(self)@.rig.needs_steering() ==> old(self)@.rig.gun.swivel.steerable(),
        ensures
            final(self)@ == old(self)@.update(
                candidate_views(candidates@),
                dt as nat,
                controls,
                angle_to_target as int,
            ),
            scan_due == final(self)@.rig.ai.scan_due,
            old(self)@.consistent() ==> final(self)@.consistent(),
    {
        self.ai.update(
            &self.base,
            &mut self.sensor,
            &mut self.gun,
            candidates,
            dt,
            controls,
            angle_to_target,
        )
    }

    /// Runs the second half of a tick. `right` and `left` are what [`Sensor::sees`] asks
    /// for, found for where the sensor faces now.
    pub fn scan(&mut self, candidates: &Vec<Candidate>, right: Point, left: Point)
        ensures
            final(self)@ == old(self)@.scan(candidate_views(candidates@), right, left),
            old(self)@.consistent() ==> final(self)@.consistent(),
    {
        self.ai.scan(&self.sensor, &mut self.gun, candidates, right, left);
    }

    /// Whether the gun fired in the last tick.
    pub fn is_firing(&self) -> (firing: bool)
        ensures
            firing == self@.rig.gun.is_firing,
    {
        self.gun.is_firing()
    }

    /// What the gun shoots.
    pub fn get_gun_type(&self) -> (gun_type: &GunType)
        ensures
            *gun_type == self@.gun_type,
    {
        &self.gun_type
    }

    /// The name of the turret.
    pub fn get_identifier(&self) -> (identifier: &String)
        ensures
            identifier@ == self@.identifier,
    {
        &self.identifier
    }

    /// The angle at which the gun points.
    pub fn get_cannon_angle(&self) -> (angle: i64)
        ensures
            angle == self@.rig.gun.swivel.angle,
    {
        self.gun.get_angle()
    }

    /// Where the held target was last seen, if there is one.
    pub fn get_target_position(&self) -> (position: Option<Point>)
        ensures
            match position {
                Some(place) => self@.rig.gun.target.is_some() && place
                    == self@.rig.gun.target.unwrap().position,
                None => self@.rig.gun.target.is_none(),
            },
    {
        self.gun.get_target_position()
    }

    /// What the controller is doing.
    pub fn state(&self) -> (state: State)
        ensures
            state == self@.rig.ai.state,
    {
        self.ai.state()
    }

    /// Whether [`Self::update`] can run: it cannot once the gun, while it holds a target or
    /// the operator has the turret, has been turned so far that the next step might not fit
    /// the machine word.
    pub fn can_update(&self) -> (ready: bool)
        ensures
            ready == (self@.rig.needs_steering() ==> self@.rig.gun.swivel.steerable()),
    {
        let needs_steering = self.gun.get_target_position().is_some() || self.ai.state()
            == State::ManualOverride;
        !needs_steering || self.gun.is_steerable()
    }

    /// Whether the gun is within the range of angles from which it can be slewed or turned
    /// by hand. [`Self::update`] asks for this while the gun holds a target or the operator
    /// has the turret.
    pub fn is_steerable(&self) -> (steerable: bool)
        ensures
            steerable == self@.rig.gun.swivel.steerable(),
    {
        self.gun.is_steerable()
    }

    /// The base.
    pub fn base(&self) -> (base: &Base)
        ensures
            *base == self@.base,
    {
        &self.base
    }

    /// The gun.
    pub fn gun(&self) -> (gun: &Gun)
        ensures
            gun@ == self@.rig.gun,
    {
        &self.gun
    }

    /// The sensor.
    pub fn sensor(&self) -> (sensor: &Sensor)
        ensures
            sensor@ == self@.rig.sensor,
    {
        &self.sensor
    }
}

} // verus!
