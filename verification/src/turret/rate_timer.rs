//! Rate-limited firing: one shot per interval, or bursts separated by cooldowns.

use vstd::prelude::*;
use super::clock::Clock;
use super::fire_mode::FireMode;

verus! {

/// Least time between two shots in normal mode, in milliseconds.
pub const NORMAL_RATE_OF_FIRE: u64 = 1000;

/// Least time between two shots of one burst, in milliseconds.
pub const BURST_RATE_OF_FIRE: u64 = 200;

/// How long a burst window stays open, in milliseconds.
pub const BURST_DURATION: u64 = 1000;

/// How long the timer must rest after a burst before the next one, in milliseconds.
pub const BURST_COOLDOWN: u64 = 6000;

/// Paces the shots of one gun.
pub struct RateTimer {
    fire_mode: FireMode,
    time_since_last_shot: Clock,
    time_since_burst_start: Clock,
    time_since_burst_cooldown: Clock,
    is_bursting: bool,
}

/// What a [`RateTimer`] stands for: its mode, its three elapsed times in milliseconds and
/// whether a burst window is open.
pub struct TimerState {
    pub fire_mode: FireMode,
    pub since_last_shot: nat,
    pub since_burst_start: nat,
    pub since_burst_cooldown: nat,
    pub is_bursting: bool,
}

impl TimerState {
    /// A timer on which no time has passed.
    pub open spec fn fresh(fire_mode: FireMode) -> TimerState {
        TimerState {
            fire_mode,
            since_last_shot: 0,
            since_burst_start: 0,
            since_burst_cooldown: 0,
            is_bursting: false,
        }
    }

    /// Idle time `dt` is credited. In normal mode it counts towards the next shot. In burst
    /// mode it counts towards the next shot and the burst window while a burst is on; once
    /// the cooldown is over it counts towards the next shot alone and the window is rewound;
    /// before that it counts towards the cooldown and nothing else.
    pub open spec fn increment(self, dt: nat) -> TimerState {
        match self.fire_mode {
            FireMode::Normal => TimerState { since_last_shot: self.since_last_shot + dt, ..self },
            FireMode::Burst => if self.is_bursting {
                TimerState {
                    since_last_shot: self.since_last_shot + dt,
                    since_burst_start: self.since_burst_start + dt,
                    ..self
                }
            } else if self.since_burst_cooldown >= BURST_COOLDOWN as nat {
                TimerState {
                    since_last_shot: self.since_last_shot + dt,
                    since_burst_start: 0,
                    ..self
                }
            } else {
                TimerState { since_burst_cooldown: self.since_burst_cooldown + dt, ..self }
            },
        }
    }

    /// A shot was fired: the time since the last shot starts over, the burst window and
    /// the cooldown stay as they are.
    pub open spec fn reset(self) -> TimerState {
        TimerState { since_last_shot: 0, ..self }
    }

    /// Whether a shot is allowed now.
    pub open spec fn can_shoot(self) -> bool {
        match self.fire_mode {
            FireMode::Normal => self.since_last_shot >= NORMAL_RATE_OF_FIRE as nat,
            FireMode::Burst => {
                &&& self.since_last_shot >= BURST_RATE_OF_FIRE as nat
                &&& self.since_burst_start < BURST_DURATION as nat
                &&& self.since_burst_cooldown >= BURST_COOLDOWN as nat
            },
        }
    }

    /// The state that asking [`RateTimer::can_shoot`] leaves behind: in burst mode a
    /// positive answer opens the burst window if none is open.
    pub open spec fn after_can_shoot(self) -> TimerState {
        if self.fire_mode == FireMode::Burst && self.can_shoot() {
            TimerState { is_bursting: true, ..self }
        } else {
            self
        }
    }

    /// The timer with an expired burst closed: window and cooldown start over.
    pub open spec fn close_expired_burst(self) -> TimerState {
        if self.is_bursting && self.since_burst_start >= BURST_DURATION as nat {
            TimerState {
                is_bursting: false,
                since_burst_start: 0,
                since_burst_cooldown: 0,
                ..self
            }
        } else {
            self
        }
    }

    /// One tick of the burst cycle: an expired burst is closed, then, with no burst on and
    /// the cooldown still running, `dt` is credited to the cooldown. Nothing changes in
    /// normal mode.
    pub open spec fn update(self, dt: nat) -> TimerState {
        match self.fire_mode {
            FireMode::Normal => self,
            FireMode::Burst => {
                let closed = self.close_expired_burst();
                if !closed.is_bursting && closed.since_burst_cooldown < BURST_COOLDOWN as nat {
                    TimerState { since_burst_cooldown: closed.since_burst_cooldown + dt, ..closed }
                } else {
                    closed
                }
            },
        }
    }

    /// The timer after a run of idle ticks of the given lengths, each tick being an
    /// [`update`](Self::update) followed by an [`increment`](Self::increment).
    pub open spec fn idle(self, dts: Seq<nat>) -> TimerState
        decreases dts.len(),
    {
        if dts.len() == 0 {
            self
        } else {
            self.idle(dts.drop_last()).update(dts.last()).increment(dts.last())
        }
    }
}

/// The sum of a run of tick lengths.
pub open spec fn total_time(dts: Seq<nat>) -> nat
    decreases dts.len(),
{
    if dts.len() == 0 {
        0
    } else {
        total_time(dts.drop_last()) + dts.last()
    }
}

/// In normal mode, after a shot, the timer allows the next shot exactly when the idle time
/// that has passed since, however it was cut into ticks, adds up to the rate of fire.
pub proof fn lemma_normal_rate_limit(timer: TimerState, dts: Seq<nat>)
    requires
        timer.fire_mode == FireMode::Normal,
    ensures
        timer.reset().idle(dts).can_shoot() <==> total_time(dts) >= NORMAL_RATE_OF_FIRE as nat,
{
    lemma_normal_idle(timer.reset(), dts);
}

proof fn lemma_normal_idle(timer: TimerState, dts: Seq<nat>)
    requires
        timer.fire_mode == FireMode::Normal,
    ensures
        timer.idle(dts) == (TimerState {
            since_last_shot: timer.since_last_shot + total_time(dts),
            ..timer
        }),
    decreases dts.len(),
{
    if dts.len() > 0 {
        lemma_normal_idle(timer, dts.drop_last());
    }
}

/// One thing that is done to a timer.
pub enum TimerOp {
    /// A tick of the burst cycle: [`TimerState::update`].
    Update(nat),
    /// Idle time is credited: [`TimerState::increment`].
    Increment(nat),
    /// An attempt to fire: the timer is asked, and where it allows the shot, the shot is
    /// fired and recorded.
    Attempt,
}

/// A timer with the number of shots fired in the burst that is on, or that was on last.
pub struct BurstLog {
    pub timer: TimerState,
    pub shots_in_burst: nat,
}

impl BurstLog {
    /// The log after one more thing was done to the timer. A shot that opens a burst
    /// starts the count at one, a shot inside a burst adds one to it.
    pub open spec fn step(self, op: TimerOp) -> BurstLog {
        match op {
            TimerOp::Update(dt) => BurstLog { timer: self.timer.update(dt), ..self },
            TimerOp::Increment(dt) => BurstLog { timer: self.timer.increment(dt), ..self },
            TimerOp::Attempt => if self.timer.can_shoot() {
                BurstLog {
                    timer: self.timer.after_can_shoot().reset(),
                    shots_in_burst: if self.timer.is_bursting {
                        self.shots_in_burst + 1
                    } else {
                        1
                    },
                }
            } else {
                self
            },
        }
    }

    /// The log after a run of things was done to the timer, one after the other.
    pub open spec fn steps(self, ops: Seq<TimerOp>) -> BurstLog
        decreases ops.len(),
    {
        if ops.len() == 0 {
            self
        } else {
            self.steps(ops.drop_last()).step(ops.last())
        }
    }

    /// The log of a timer to which a run of things was done, with no shot on record at
    /// the start.
    pub open spec fn run(start: TimerState, ops: Seq<TimerOp>) -> BurstLog {
        (BurstLog { timer: start, shots_in_burst: 0 }).steps(ops)
    }

    /// What holds of every log of a timer that started between bursts: outside a burst
    /// the window reads zero, and inside one it has run for at least a full interval per
    /// shot but the last, on top of the time since that last shot.
    spec fn paced(self) -> bool {
        &&& self.timer.fire_mode == FireMode::Burst
        &&& !self.timer.is_bursting ==> self.timer.since_burst_start == 0
        &&& self.timer.is_bursting ==> self.shots_in_burst >= 1 && self.timer.since_burst_start
            >= self.timer.since_last_shot + BURST_RATE_OF_FIRE as nat * (self.shots_in_burst
            - 1)
        &&& self.shots_in_burst * BURST_RATE_OF_FIRE as nat <= BURST_DURATION as nat
    }
}

/// In burst mode no burst holds more shots than intervals fit into its window, which is
/// five: however a timer that starts between bursts is ticked, credited and asked.
pub proof fn lemma_burst_holds_five_shots(start: TimerState, ops: Seq<TimerOp>)
    requires
        start.fire_mode == FireMode::Burst,
        !start.is_bursting,
        start.since_burst_start == 0,
    ensures
        BurstLog::run(start, ops).shots_in_burst <= BURST_DURATION as nat
            / BURST_RATE_OF_FIRE as nat,
        BurstLog::run(start, ops).shots_in_burst <= 5,
{
    lemma_run_is_paced(start, ops);
}

proof fn lemma_run_is_paced(start: TimerState, ops: Seq<TimerOp>)
    requires
        start.fire_mode == FireMode::Burst,
        !start.is_bursting,
        start.since_burst_start == 0,
    ensures
        BurstLog::run(start, ops).paced(),
{
    lemma_steps_stay_paced(BurstLog { timer: start, shots_in_burst: 0 }, ops);
}

proof fn lemma_steps_stay_paced(log: BurstLog, ops: Seq<TimerOp>)
    requires
        log.paced(),
    ensures
        log.steps(ops).paced(),
    decreases ops.len(),
{
    if ops.len() > 0 {
        lemma_steps_stay_paced(log, ops.drop_last());
    }
}

/// While the cooldown runs, no shot is allowed.
pub proof fn lemma_no_shot_during_cooldown(timer: TimerState)
    requires
        timer.fire_mode == FireMode::Burst,
        timer.since_burst_cooldown < BURST_COOLDOWN as nat,
    ensures
        !timer.can_shoot(),
{
}

impl View for RateTimer {
    type V = TimerState;

    closed spec fn view(&self) -> TimerState {
        TimerState {
            fire_mode: self.fire_mode,
            since_last_shot: self.time_since_last_shot@,
            since_burst_start: self.time_since_burst_start@,
            since_burst_cooldown: self.time_since_burst_cooldown@,
            is_bursting: self.is_bursting,
        }
    }
}

impl RateTimer {
    /// A timer in the given mode on which no time has passed.
    pub fn new(fire_mode: FireMode) -> (timer: Self)
        ensures
            timer@ == TimerState::fresh(fire_mode),
    {
        RateTimer {
            fire_mode,
            time_since_last_shot: Clock::new(),
            time_since_burst_start: Clock::new(),
            time_since_burst_cooldown: Clock::new(),
            is_bursting: false,
        }
    }

    /// Credits `dt` milliseconds of idle time.
    pub fn increment(&mut self, dt: u32)
        ensures
            final(self)@ == old(self)@.increment(dt as nat),
    {
        match self.fire_mode {
            FireMode::Normal => {
                self.time_since_last_shot.advance(dt);
            },
            FireMode::Burst => {
                if self.is_bursting {
                    self.time_since_last_shot.advance(dt);
                    self.time_since_burst_start.advance(dt);
                } else {
                    if self.time_since_burst_cooldown.has_reached(BURST_COOLDOWN) {
                        self.time_since_last_shot.advance(dt);
                        self.time_since_burst_start.restart();
                    } else {
                        self.time_since_burst_cooldown.advance(dt);
                    }
                }
            },
        }
    }

    /// Records that a shot was fired.
    pub fn reset(&mut self)
        ensures
            final(self)@ == old(self)@.reset(),
    {
        self.time_since_last_shot.restart();
    }

    /// Whether a shot is allowed now. In burst mode a positive answer opens the burst
    /// window if none is open.
    pub fn can_shoot(&mut self) -> (ready: bool)
        ensures
            ready == old(self)@.can_shoot(),
            final(self)@ == old(self)@.after_can_shoot(),
    {
        match self.fire_mode {
            FireMode::Normal => self.time_since_last_shot.has_reached(NORMAL_RATE_OF_FIRE),
            FireMode::Burst => {
                let can_shoot = self.time_since_last_shot.has_reached(BURST_RATE_OF_FIRE)
                    && !self.time_since_burst_start.has_reached(BURST_DURATION)
                    && self.time_since_burst_cooldown.has_reached(BURST_COOLDOWN);

                if !self.is_bursting && can_shoot {
                    self.is_bursting = true;
                }

                can_shoot
            },
        }
    }

    /// Advances the burst cycle by one tick of `dt` milliseconds.
    pub fn update(&mut self, dt: u32)
        ensures
            final(self)@ == old(self)@.update(dt as nat),
    {
        match self.fire_mode {
            FireMode::Normal => {},
            FireMode::Burst => {
                if self.is_bursting && self.time_since_burst_start.has_reached(BURST_DURATION) {
                    self.is_bursting = false;
                    self.time_since_burst_start.restart();
                    self.time_since_burst_cooldown.restart();
                }

                if !self.is_bursting && !self.time_since_burst_cooldown.has_reached(BURST_COOLDOWN) {
                    self.time_since_burst_cooldown.advance(dt);
                }
            },
        }
    }
}

} // verus!
