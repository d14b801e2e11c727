//! The controller of a turret: it searches, engages, and yields to the operator.
//!
//! A tick has two halves. [`BasicAI::update`] moves gun and sensor and settles everything
//! that needs no fresh look through the sensor. Where a look is due it says so, and
//! [`BasicAI::scan`] then takes the first candidate that the sensor, where it faces now,
//! sees.

use vstd::prelude::*;
use super::base::Base;
use super::geometry::Point;
use super::gun::{Gun, GunState};
use super::sensor::{Sensor, SensorState};

verus! {

/// What the controller is doing.
#[derive(Clone, Copy, Debug, PartialEq, Eq, Structural)]
pub enum State {
    /// Sweeping, with an eye out for a target.
    Searching,
    /// Holding a target and keeping the gun on it.
    Engaging,
    /// In the operator's hands.
    ManualOverride,
}

/// What the operator does in one tick.
#[derive(Clone, Copy, Debug, PartialEq, Eq, Structural)]
pub struct Controls {
    /// The override switch was pressed in this tick.
    pub toggle_override: bool,
    /// The key for turning left is down.
    pub turn_left: bool,
    /// The key for turning right is down.
    pub turn_right: bool,
}

/// Something that the turret might shoot at: who it is and where it is now.
pub struct Candidate {
    pub identifier: String,
    pub position: Point,
}

/// What a [`Candidate`] stands for.
pub struct CandidateView {
    pub identifier: Seq<char>,
    pub position: Point,
}

impl View for Candidate {
    type V = CandidateView;

    open spec fn view(&self) -> CandidateView {
        CandidateView { identifier: self.identifier@, position: self.position }
    }
}

/// What a list of candidates stands for.
pub open spec fn candidate_views(candidates: Seq<Candidate>) -> Seq<CandidateView> {
    Seq::new(candidates.len(), |i: int| candidates[i]@)
}

/// The place in the list, at or after `from`, of the first candidate called `identifier`
/// that is still in the zone of `base`.
pub open spec fn find_target(
    candidates: Seq<CandidateView>,
    identifier: Seq<char>,
    base: Base,
    from: int,
) -> Option<int>
    decreases candidates.len() - from,
{
    if from < 0 || from >= candidates.len() {
        None
    } else if candidates[from].identifier == identifier && base.in_zone(
        candidates[from].position,
    ) {
        Some(from)
    } else {
        find_target(candidates, identifier, base, from + 1)
    }
}

/// The place in the list, at or after `from`, of the first candidate that the sensor sees
/// in the triangle of view with the far corners `right` and `left`.
pub open spec fn find_visible(
    candidates: Seq<CandidateView>,
    sensor: SensorState,
    right: Point,
    left: Point,
    from: int,
) -> Option<int>
    decreases candidates.len() - from,
{
    if from < 0 || from >= candidates.len() {
        None
    } else if sensor.sees(right, left, candidates[from].position) {
        Some(from)
    } else {
        find_visible(candidates, sensor, right, left, from + 1)
    }
}

/// What [`find_visible`] finds is a candidate that is seen, and none before it is; where
/// it finds nothing, none is seen.
pub proof fn lemma_find_visible_is_first(
    candidates: Seq<CandidateView>,
    sensor: SensorState,
    right: Point,
    left: Point,
    from: int,
)
    requires
        0 <= from,
    ensures
        match find_visible(candidates, sensor, right, left, from) {
            Some(found) => {
                &&& from <= found < candidates.len()
                &&& sensor.sees(right, left, candidates[found].position)
                &&& forall|i: int|
                    from <= i < found ==> !sensor.sees(right, left, #[trigger] candidates[i].position)
            },
            None => forall|i: int|
                from <= i < candidates.len() ==> !sensor.sees(
                    right,
                    left,
                    #[trigger] candidates[i].position,
                ),
        },
    decreases candidates.len() - from,
{
    if from < candidates.len() && !sensor.sees(right, left, candidates[from].position) {
        lemma_find_visible_is_first(candidates, sensor, right, left, from + 1);
    }
}

/// What [`find_target`] finds is a candidate of that name in the zone, and none before it
/// is; where it finds nothing, there is none.
pub proof fn lemma_find_target_is_first(
    candidates: Seq<CandidateView>,
    identifier: Seq<char>,
    base: Base,
    from: int,
)
    requires
        0 <= from,
    ensures
        match find_target(candidates, identifier, base, from) {
            Some(found) => {
                &&& from <= found < candidates.len()
                &&& candidates[found].identifier == identifier
                &&& base.in_zone(candidates[found].position)
                &&& forall|i: int|
                    from <= i < found ==> !((#[trigger] candidates[i]).identifier == identifier
                        && base.in_zone(candidates[i].position))
            },
            None => forall|i: int|
                from <= i < candidates.len() ==> !((#[trigger] candidates[i]).identifier
                    == identifier && base.in_zone(candidates[i].position)),
        },
    decreases candidates.len() - from,
{
    if from < candidates.len() && !(candidates[from].identifier == identifier && base.in_zone(
        candidates[from].position,
    )) {
        lemma_find_target_is_first(candidates, identifier, base, from + 1);
    }
}

/// The controller of one turret.
pub struct BasicAI {
    state: State,
    scan_due: bool,
}

/// What a [`BasicAI`] stands for: what it is doing, and whether the tick under way still
/// waits for its look through the sensor.
pub struct AiState {
    pub state: State,
    pub scan_due: bool,
}

impl View for BasicAI {
    type V = AiState;

    closed spec fn view(&self) -> AiState {
        AiState { state: self.state, scan_due: self.scan_due }
    }
}

/// A controller together with the sensor and the gun that it drives.
pub struct Rig {
    pub ai: AiState,
    pub sensor: SensorState,
    pub gun: GunState,
}

impl Rig {
    /// The controller commits to a target and hands it to the gun.
    pub open spec fn acquire_target(self, identifier: Seq<char>, position: Point) -> Rig {
        Rig {
            ai: AiState { state: State::Engaging, ..self.ai },
            gun: self.gun.acquire_target(identifier, position),
            ..self
        }
    }

    /// The controller goes back to searching and the gun lets its target go.
    pub open spec fn stand_by(self) -> Rig {
        Rig {
            ai: AiState { state: State::Searching, ..self.ai },
            gun: self.gun.release_target(),
            ..self
        }
    }

    /// The first half of a tick while searching. The override switch hands the turret to
    /// the operator and nothing else happens. Otherwise gun and sensor move, and a look
    /// through the sensor is due.
    pub open spec fn search(self, dt: nat, controls: Controls, angle_to_target: int) -> Rig {
        if controls.toggle_override {
            Rig { ai: AiState { state: State::ManualOverride, scan_due: false }, ..self }
        } else {
            Rig {
                ai: AiState { state: State::Searching, scan_due: true },
                sensor: self.sensor.update(dt),
                gun: self.gun.update(dt, angle_to_target),
            }
        }
    }

    /// A tick while engaging. The gun moves and decides on firing. Then the held target is
    /// looked up by name among the candidates that are in the zone of `base`: the first
    /// such candidate gives the target its new place; if there is none, or no target is
    /// held, the controller stands by.
    pub open spec fn engage(
        self,
        base: Base,
        candidates: Seq<CandidateView>,
        dt: nat,
        angle_to_target: int,
    ) -> Rig {
        let moved = Rig {
            ai: AiState { scan_due: false, ..self.ai },
            gun: self.gun.update(dt, angle_to_target),
            ..self
        };
        match moved.gun.target {
            Some(target) => match find_target(candidates, target.identifier, base, 0) {
                Some(found) => Rig {
                    gun: moved.gun.refresh_target_position(candidates[found].position),
                    ..moved
                },
                None => moved.stand_by(),
            },
            None => moved.stand_by(),
        }
    }

    /// A tick in the operator's hands. The override switch sends the controller back to
    /// searching and makes the gun let go of any target. After that the keys that are down
    /// turn the gun, left before right. Neither the sensor nor the gun moves on its own.
    pub open spec fn obey(self, dt: nat, controls: Controls) -> Rig {
        let rested = Rig { ai: AiState { scan_due: false, ..self.ai }, ..self };
        let switched = if controls.toggle_override {
            rested.stand_by()
        } else {
            rested
        };
        let left = if controls.turn_left {
            Rig { gun: switched.gun.turn_left(dt), ..switched }
        } else {
            switched
        };
        if controls.turn_right {
            Rig { gun: left.gun.turn_right(dt), ..left }
        } else {
            left
        }
    }

    /// Whether the next tick may slew the gun or turn it by hand, rather than let it sweep
    /// or rest: it may while the gun holds a target or the operator has the turret.
    pub open spec fn needs_steering(self) -> bool {
        self.gun.target.is_some() || self.ai.state == State::ManualOverride
    }

    /// The first half of a tick of `dt` milliseconds: [`Self::search`], [`Self::engage`]
    /// or [`Self::obey`], by what the controller is doing.
    pub open spec fn update(
        self,
        base: Base,
        candidates: Seq<CandidateView>,
        dt: nat,
        controls: Controls,
        angle_to_target: int,
    ) -> Rig {
        match self.ai.state {
            State::Searching => self.search(dt, controls, angle_to_target),
            State::Engaging => self.engage(base, candidates, dt, angle_to_target),
            State::ManualOverride => self.obey(dt, controls),
        }
    }

    /// The second half of a tick: the look through the sensor. Where a look is due and the
    /// controller is searching, the first candidate in the list that the sensor sees
    /// becomes the target. In any case no look is due after it.
    pub open spec fn scan(self, candidates: Seq<CandidateView>, right: Point, left: Point) -> Rig {
        let rested = Rig { ai: AiState { scan_due: false, ..self.ai }, ..self };
        if self.ai.scan_due && self.ai.state == State::Searching {
            match find_visible(candidates, self.sensor, right, left, 0) {
                Some(found) => rested.acquire_target(
                    candidates[found].identifier,
                    candidates[found].position,
                ),
                None => rested,
            }
        } else {
            rested
        }
    }

    /// A whole tick: [`Self::update`], then [`Self::scan`] with the far corners of the
    /// triangle of view as they are found after the sensor has moved.
    pub open spec fn tick(
        self,
        base: Base,
        candidates: Seq<CandidateView>,
        dt: nat,
        controls: Controls,
        angle_to_target: int,
        right: Point,
        left: Point,
    ) -> Rig {
        self.update(base, candidates, dt, controls, angle_to_target).scan(candidates, right, left)
    }
}

/// A tick that starts in the operator's hands acquires nothing, whatever the candidates
/// are and wherever the sensor looks: the sensor does not move, and the gun holds what it
/// held before, or nothing once the override switch has given the turret back. Without the
/// switch the turret stays in the operator's hands.
pub proof fn lemma_manual_override_acquires_nothing(
    rig: Rig,
    base: Base,
    candidates: Seq<CandidateView>,
    dt: nat,
    controls: Controls,
    angle_to_target: int,
    right: Point,
    left: Point,
)
    requires
        rig.ai.state == State::ManualOverride,
    ensures
        ({
            let after = rig.tick(base, candidates, dt, controls, angle_to_target, right, left);
            &&& after.sensor == rig.sensor
            &&& after.ai.state == if controls.toggle_override {
                State::Searching
            } else {
                State::ManualOverride
            }
            &&& after.gun.target == if controls.toggle_override {
                None
            } else {
                rig.gun.target
            }
        }),
{
}

/// The gun holds a target exactly while the controller is engaging: a tick keeps this so.
pub proof fn lemma_target_held_iff_engaging(
    rig: Rig,
    base: Base,
    candidates: Seq<CandidateView>,
    dt: nat,
    controls: Controls,
    angle_to_target: int,
    right: Point,
    left: Point,
)
    requires
        rig.gun.target.is_some() <==> rig.ai.state == State::Engaging,
    ensures
        ({
            let after = rig.tick(base, candidates, dt, controls, angle_to_target, right, left);
            after.gun.target.is_some() <==> after.ai.state == State::Engaging
        }),
{
}

impl BasicAI {
    /// A controller that is searching.
    pub fn new() -> (ai: Self)
        ensures
            ai@ == (AiState { state: State::Searching, scan_due: false }),
    {
        BasicAI { state: State::Searching, scan_due: false }
    }

    /// What the controller is doing.
    pub fn state(&self) -> (state: State)
        ensures
            state == self@.state,
    {
        self.state
    }

    /// Whether the tick under way still waits for [`Self::scan`].
    pub fn scan_due(&self) -> (due: bool)
        ensures
            due == self@.scan_due,
    {
        self.scan_due
    }

    /// Runs the first half of a tick of `dt` milliseconds and tells whether a look through
    /// the sensor is due. `angle_to_target` is what [`Gun::update`] asks for. While the gun
    /// holds a target or the operator has the turret, the gun must be within the range of
    /// angles from which the machine word holds its next step.
    pub fn update(
        &mut self,
        base: &Base,
        sensor: &mut Sensor,
        gun: &mut Gun,
        candidates: &Vec<Candidate>,
        dt: u32,
        controls: Controls,
        angle_to_target: i32,
    ) -> (scan_due: bool)
        requires
            old(gun)@.target.is_some() || old(self)@.state == State::ManualOverride ==> old(
                gun,
            )@.swivel.steerable(),
        ensures
            ({
                let before = Rig { ai: old(self)@, sensor: old(sensor)@, gun: old(gun)@ };
                let after = before.update(
                    *base,
                    candidate_views(candidates@),
                    dt as nat,
                    controls,
                    angle_to_target as int,
                );
                &&& final(self)@ == after.ai
                &&& final(sensor)@ == after.sensor
                &&& final(gun)@ == after.gun
                &&& scan_due == after.ai.scan_due
            }),
    {
        self.scan_due = false;
        match self.state {
            State::Searching => {
                if controls.toggle_override {
                    self.state = State::ManualOverride;
                } else {
                    gun.update(dt, angle_to_target);
                    sensor.update(dt);
                    self.scan_due = true;
                }
            },
            State::Engaging => {
                gun.update(dt, angle_to_target);

                match gun.get_target_identifier() {
                    Some(target_identifier) => {
                        match Self::find_target(candidates, &target_identifier, base) {
                            Some(found) => {
                                gun.refresh_target_position(candidates[found].position);
                            },
                            None => self.stand_by(gun),
                        }
                    },
                    None => self.stand_by(gun),
                }
            },
            State::ManualOverride => {
                if controls.toggle_override {
                    self.stand_by(gun);
                }

                if controls.turn_left {
                    gun.turn_left(dt);
                }

                if controls.turn_right {
                    gun.turn_right(dt);
                }
            },
        }
        self.scan_due
    }

    /// Runs the second half of a tick: the look through the sensor. `right` and `left` are
    /// the far corners of the triangle of view, as [`Sensor::sees`] asks for them, found
    /// for where the sensor faces now.
    pub fn scan(
        &mut self,
        sensor: &Sensor,
        gun: &mut Gun,
        candidates: &Vec<Candidate>,
        right: Point,
        left: Point,
    )
        ensures
            ({
                let before = Rig { ai: old(self)@, sensor: sensor@, gun: old(gun)@ };
                let after = before.scan(candidate_views(candidates@), right, left);
                &&& final(self)@ == after.ai
                &&& final(gun)@ == after.gun
            }),
    {
        let due = self.scan_due && self.state == State::Searching;
        self.scan_due = false;
        if due {
            match Self::find_visible(candidates, sensor, right, left) {
                Some(found) => {
                    self.acquire_target(
                        gun,
                        &candidates[found].identifier,
                        candidates[found].position,
                    );
                },
                None => {},
            }
        }
    }

    /// The place in the list of the first candidate called `identifier` that is still in
    /// the zone of `base`.
    pub fn find_target(candidates: &Vec<Candidate>, identifier: &String, base: &Base) -> (found:
        Option<usize>)
        ensures
            found.is_some() ==> found.unwrap() < candidates.len(),
            find_target(candidate_views(candidates@), identifier@, *base, 0) == match found {
                Some(place) => Some(place as int),
                None => None,
            },
            forall|i: int|
                0 <= i < (match found {
                    Some(place) => place as int,
                    None => candidates.len() as int,
                }) ==> !((#[trigger] candidates[i]).identifier@ == identifier@ && base.in_zone(
                    candidates[i].position,
                )),
    {
        let ghost views = candidate_views(candidates@);
        let mut i: usize = 0;
        while i < candidates.len()
            invariant
                i <= candidates.len(),
                views == candidate_views(candidates@),
                find_target(views, identifier@, *base, 0) == find_target(
                    views,
                    identifier@,
                    *base,
                    i as int,
                ),
                forall|j: int|
                    0 <= j < i ==> !((#[trigger] candidates[j]).identifier@ == identifier@
                        && base.in_zone(candidates[j].position)),
            decreases candidates.len() - i,
        {
            assert(views[i as int] == candidates@[i as int]@);
            if candidates[i].identifier == *identifier && base.covers(candidates[i].position) {
                return Some(i);
            }
            i = i + 1;
        }
        None
    }

    /// The place in the list of the first candidate that the sensor sees.
    pub fn find_visible(
        candidates: &Vec<Candidate>,
        sensor: &Sensor,
        right: Point,
        left: Point,
    ) -> (found: Option<usize>)
        ensures
            found.is_some() ==> found.unwrap() < candidates.len(),
            find_visible(candidate_views(candidates@), sensor@, right, left, 0) == match found {
                Some(place) => Some(place as int),
                None => None,
            },
            forall|i: int|
                0 <= i < (match found {
                    Some(place) => place as int,
                    None => candidates.len() as int,
                }) ==> !sensor@.sees(right, left, (#[trigger] candidates[i]).position),
    {
        let ghost views = candidate_views(candidates@);
        let mut i: usize = 0;
        while i < candidates.len()
            invariant
                i <= candidates.len(),
                views == candidate_views(candidates@),
                find_visible(views, sensor@, right, left, 0) == find_visible(
                    views,
                    sensor@,
                    right,
                    left,
                    i as int,
                ),
                forall|j: int|
                    0 <= j < i ==> !sensor@.sees(right, left, (#[trigger] candidates[j]).position),
            decreases candidates.len() - i,
        {
            assert(views[i as int] == candidates@[i as int]@);
            if Self::sees_hostile_targets(sensor, right, left, &candidates[i]) {
                return Some(i);
            }
            i = i + 1;
        }
        None
    }

    /// Whether the sensor sees the candidate.
    pub fn sees_hostile_targets(
        sensor: &Sensor,
        right: Point,
        left: Point,
        candidate: &Candidate,
    ) -> (seen: bool)
        ensures
            seen == sensor@.sees(right, left, candidate@.position),
    {
        sensor.sees(right, left, candidate.position)
    }

    /// Commits to a target and hands it to the gun.
    pub fn acquire_target(
        &mut self,
        gun: &mut Gun,
        target_identifier: &String,
        target_position: Point,
    )
        ensures
            final(self)@ == (AiState { state: State::Engaging, ..old(self)@ }),
            final(gun)@ == old(gun)@.acquire_target(target_identifier@, target_position),
    {
        self.state = State::Engaging;
        gun.acquire_target(target_identifier, target_position);
    }

    /// Goes back to searching and makes the gun let its target go.
    pub fn stand_by(&mut self, gun: &mut Gun)
        ensures
            final(self)@ == (AiState { state: State::Searching, ..old(self)@ }),
            final(gun)@ == old(gun)@.release_target(),
    {
        self.state = State::Searching;
        gun.release_target();
    }
}

} // verus!
