//! What to ask of the timer at each tick, and which checkpoint is armed
//! afterwards.
//!
//! The engine never waits and never reads anything itself. Its caller reads
//! the game and the timer once per tick, hands both over, carries out what
//! comes back, and keeps the [`Run`] for the next tick.

use vstd::prelude::*;
use crate::settings::Settings;
use crate::state::State;
use crate::state::TICKS_PER_SECOND;
use crate::trigger::Triggers;

verus! {

/// What the timer reports of itself. The timer owns this value: the engine
/// reads it at the start of a tick and never changes it.
#[derive(Clone, Copy, Debug, PartialEq, Eq, Structural)]
pub enum TimerState {
    NotRunning,
    Running,
    Paused,
    Ended,
    Unknown,
}

impl TimerState {
    /// The timer can be started from this state.
    pub open spec fn may_start(self) -> bool {
        self is NotRunning || self is Ended || self is Unknown
    }

    /// Whether the timer can be started from this state.
    pub fn can_start(&self) -> (b: bool)
        ensures
            b == self.may_start(),
    {
        match self {
            TimerState::NotRunning | TimerState::Ended | TimerState::Unknown => true,
            TimerState::Running | TimerState::Paused => false,
        }
    }
}

/// The outcome of one tick: what to ask of the timer, and the checkpoint that
/// is armed from now on. Each request is made at most once per tick, in the
/// order start, split, reset.
#[derive(Clone, Copy, Debug, PartialEq, Eq, Structural)]
pub struct Decision {
    pub start: bool,
    pub split: bool,
    pub reset: bool,
    /// The checkpoint that the next split is awarded for.
    pub armed: Triggers,
    /// The in-game time to show, in whole seconds.
    pub elapsed_seconds: u32,
}

/// The timer is to be started: it can be, and the in-game timer has just left
/// zero.
pub open spec fn starts(timer_state: TimerState, current: State, old_state: State) -> bool {
    timer_state.may_start() && current.begins_run(old_state)
}

/// A split is due: the timer runs and the player has reached the armed
/// checkpoint.
pub open spec fn splits(timer_state: TimerState, current: State, armed: Triggers) -> bool {
    timer_state is Running && armed.region().contains(current.position())
}

/// The timer is to be reset: it is not idle, and the reading shows that no
/// run is in progress.
pub open spec fn resets(timer_state: TimerState, current: State) -> bool {
    !(timer_state is NotRunning) && current.abandons_run()
}

/// The checkpoint armed after a tick. An idle timer or a reset arms the first
/// checkpoint again, whatever was armed; otherwise a split arms the next
/// one; otherwise nothing changes.
pub open spec fn armed_after(
    timer_state: TimerState,
    current: State,
    armed: Triggers,
    flags: Seq<bool>,
) -> Triggers {
    if timer_state is NotRunning || resets(timer_state, current) {
        Triggers::first_enabled(flags)
    } else if splits(timer_state, current, armed) {
        armed.next_enabled(flags)
    } else {
        armed
    }
}

/// The outcome of a tick at which the timer reports `timer_state`, the game
/// reads `current` after `old_state`, and `armed` is the armed checkpoint.
pub open spec fn decision(
    timer_state: TimerState,
    current: State,
    old_state: State,
    armed: Triggers,
    flags: Seq<bool>,
) -> Decision {
    Decision {
        start: starts(timer_state, current, old_state),
        split: splits(timer_state, current, armed),
        reset: resets(timer_state, current),
        armed: armed_after(timer_state, current, armed, flags),
        elapsed_seconds: current.timer / TICKS_PER_SECOND,
    }
}

/// Decides one tick. All of it goes by the timer state as it was read at the
/// start of the tick: a start, split or reset asked for here has no effect on
/// the rest of the decision.
pub fn decide(
    timer_state: TimerState,
    current: &State,
    old_state: &State,
    current_trigger: &Triggers,
    settings: &Settings,
) -> (d: Decision)
    ensures
        d == decision(timer_state, *current, *old_state, *current_trigger, settings@),
{
    let mut armed = *current_trigger;

    let start = timer_state.can_start() && current.should_start(old_state);

    let split = timer_state == TimerState::Running && armed.should_split(current);
    if split {
        armed = armed.next_trigger(settings);
    }
    let reset = timer_state != TimerState::NotRunning && current.should_reset();
    if reset {
        armed = Triggers::first_trigger(settings);
    }
    // While the timer is idle the first checkpoint is armed at every tick,
    // so that nothing armed during an earlier run or under other settings
    // is carried into the next run.
    if timer_state == TimerState::NotRunning {
        armed = Triggers::first_trigger(settings);
    }
    Decision { start, split, reset, armed, elapsed_seconds: current.elapsed_seconds() }
}

/// What is kept from tick to tick while the game is attached: the last
/// complete reading and the armed checkpoint.
#[derive(Clone, Copy, Debug, PartialEq, Eq, Structural)]
pub struct Run {
    pub current_state: State,
    pub current_trigger: Triggers,
}

impl Run {
    /// The run after a tick with the given reading. A tick without a reading
    /// changes nothing.
    pub open spec fn after(self, timer_state: TimerState, reading: Option<State>, flags: Seq<bool>)
        -> Run {
        match reading {
            Some(current) => Run {
                current_state: current,
                current_trigger: armed_after(timer_state, current, self.current_trigger, flags),
            },
            None => self,
        }
    }

    /// The run at the moment the game is attached: nothing read yet, the
    /// first checkpoint armed.
    pub fn new(settings: &Settings) -> (run: Run)
        ensures
            run.current_state == State::blank(),
            run.current_trigger == Triggers::first_enabled(settings@),
    {
        Run { current_state: State::default(), current_trigger: Triggers::first_trigger(settings) }
    }

    /// One tick. `reading` is what was read of the game, or `None` if the
    /// read failed. A failed read decides nothing and leaves the run as it
    /// was, so that the next reading is compared with the last complete one.
    pub fn tick(&mut self, timer_state: TimerState, reading: Option<State>, settings: &Settings)
        -> (d: Option<Decision>)
        ensures
            *final(self) == old(self).after(timer_state, reading, settings@),
            reading is None ==> d is None,
            reading matches Some(current) ==> d == Some(
                decision(
                    timer_state,
                    current,
                    old(self).current_state,
                    old(self).current_trigger,
                    settings@,
                ),
            ),
    {
        match reading {
            Some(current) => {
                let d = decide(
                    timer_state,
                    &current,
                    &self.current_state,
                    &self.current_trigger,
                    settings,
                );
                self.current_state = current;
                self.current_trigger = d.armed;
                Some(d)
            },
            None => None,
        }
    }
}

/// While the timer stays idle, every tick arms the first checkpoint that is
/// switched on, whatever was armed before and whatever is read: a second idle
/// tick under the same settings arms the same checkpoint again.
pub proof fn lemma_idle_rearm_is_idempotent(
    armed: Triggers,
    first_reading: State,
    second_reading: State,
    flags: Seq<bool>,
)
    ensures
        armed_after(TimerState::NotRunning, first_reading, armed, flags) == Triggers::first_enabled(
            flags,
        ),
        armed_after(
            TimerState::NotRunning,
            second_reading,
            armed_after(TimerState::NotRunning, first_reading, armed, flags),
            flags,
        ) == armed_after(TimerState::NotRunning, first_reading, armed, flags),
{
}

/// A start is asked for exactly at the tick at which the in-game timer leaves
/// zero, provided the timer can be started, and not at the tick after it,
/// whatever that tick reads and whatever the timer reports then.
pub proof fn lemma_start_fires_once(
    before: State,
    at: State,
    after: State,
    timer_state_at: TimerState,
    timer_state_after: TimerState,
)
    requires
        before.timer == 0,
        at.timer != 0,
    ensures
        starts(timer_state_at, at, before) == timer_state_at.may_start(),
        !starts(timer_state_after, after, at),
{
}

/// The same over two ticks of a run: once a reading with a running in-game
/// timer is kept, the next tick asks for no start, and a failed read between
/// the two changes nothing of that.
pub proof fn lemma_no_second_start(
    run: Run,
    at: State,
    after: State,
    timer_state_at: TimerState,
    timer_state_between: TimerState,
    timer_state_after: TimerState,
    flags: Seq<bool>,
)
    requires
        at.timer != 0,
    ensures
        ({
            let kept = run.after(timer_state_at, Some(at), flags).after(
                timer_state_between,
                None,
                flags,
            );
            &&& kept == run.after(timer_state_at, Some(at), flags)
            &&& !decision(
                timer_state_after,
                after,
                kept.current_state,
                kept.current_trigger,
                flags,
            ).start
        }),
{
}

} // verus!
