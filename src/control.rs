use vstd::prelude::*;

use crate::automaton::{next_generation, update_automata};
use crate::grid::Grid;
use crate::rule::TransitionRule;
use crate::seeder::{next_seed, seeded_grid, PseudoRandomSeeder, INITIAL_SEED};

verus! {

/// Brightness of a live cell on the LED matrix.
pub const BRIGHTNESS: u8 = 7;

/// Whether the automaton evolves on each tick.
#[derive(Clone, Copy, PartialEq, Eq, Structural, Debug)]
pub enum RunState {
    Running,
    Paused,
}

/// One sample of a button: pressed, released, or a read that failed.
#[derive(Clone, Copy, PartialEq, Eq, Structural, Debug)]
pub enum Reading {
    Pressed,
    Released,
    Unread,
}

/// What the periodic timer must do after a decision.
#[derive(Clone, Copy, PartialEq, Eq, Structural, Debug)]
pub enum TimerCommand {
    /// Leave the timer as it is.
    Keep,
    /// Clear the pending tick event.
    ClearPending,
    /// Stop counting and clear the pending tick event.
    Stop,
    /// Clear the pending tick event and start counting.
    Start,
}

/// The other run state.
pub open spec fn toggled(s: RunState) -> RunState {
    match s {
        RunState::Running => RunState::Paused,
        RunState::Paused => RunState::Running,
    }
}

/// Whether a button whose latch is `latched` acts on `reading`: only an
/// unlatched button that reads pressed does.
pub open spec fn fires(latched: bool, reading: Reading) -> bool {
    !latched && reading == Reading::Pressed
}

/// The latch after `reading`: set by a press, cleared by a release, kept when
/// the read failed.
pub open spec fn latch_next(latched: bool, reading: Reading) -> bool {
    match reading {
        Reading::Pressed => true,
        Reading::Released => false,
        Reading::Unread => latched,
    }
}

/// How many times a button acts over the polls `readings`, from a latch that
/// starts as `latched`.
pub open spec fn fire_count(latched: bool, readings: Seq<Reading>) -> nat
    decreases readings.len(),
{
    if readings.len() == 0 {
        0
    } else {
        (if fires(latched, readings[0]) {
            1nat
        } else {
            0nat
        }) + fire_count(latch_next(latched, readings[0]), readings.drop_first())
    }
}

/// The latch after the polls `readings`, from a latch that starts as `latched`.
pub open spec fn latch_after(latched: bool, readings: Seq<Reading>) -> bool
    decreases readings.len(),
{
    if readings.len() == 0 {
        latched
    } else {
        latch_after(latch_next(latched, readings[0]), readings.drop_first())
    }
}

/// `n` polls in a row that read the button pressed.
pub open spec fn held(n: nat) -> Seq<Reading> {
    Seq::new(n, |_i: int| Reading::Pressed)
}

/// The "already handled this press" flag of one button.
pub struct DebounceLatch {
    pub latched: bool,
}

impl DebounceLatch {
    /// A latch that is clear.
    pub fn new() -> (l: DebounceLatch)
        ensures
            !l.latched,
    {
        DebounceLatch { latched: false }
    }

    /// Takes one reading of the button; returns whether the button's action
    /// is due.
    pub fn poll(&mut self, reading: Reading) -> (fire: bool)
        ensures
            fire == fires(old(self).latched, reading),
            final(self).latched == latch_next(old(self).latched, reading),
    {
        match reading {
            Reading::Pressed => {
                let fire = !self.latched;
                self.latched = true;
                fire
            },
            Reading::Released => {
                self.latched = false;
                false
            },
            Reading::Unread => false,
        }
    }
}

/// Polls split in two: the count and the latch carry over from the first part
/// to the second.
pub proof fn lemma_fire_count_append(latched: bool, a: Seq<Reading>, b: Seq<Reading>)
    ensures
        fire_count(latched, a + b) == fire_count(latched, a) + fire_count(
            latch_after(latched, a),
            b,
        ),
        latch_after(latched, a + b) == latch_after(latch_after(latched, a), b),
    decreases a.len(),
{
    if a.len() == 0 {
        assert(a + b =~= b);
    } else {
        assert((a + b).drop_first() =~= a.drop_first() + b);
        lemma_fire_count_append(latch_next(latched, a[0]), a.drop_first(), b);
    }
}

/// A press held over any number of polls acts once at most: once at its
/// first poll when the button was not latched, never when it was, and it
/// leaves the button latched.
pub proof fn lemma_held_press_fires_once(latched: bool, n: nat)
    requires
        n >= 1,
    ensures
        fire_count(latched, held(n)) == if latched {
            0nat
        } else {
            1nat
        },
        latch_after(latched, held(n)),
    decreases n,
{
    let rest = held((n - 1) as nat);
    assert(held(n).drop_first() =~= rest);
    assert(held(n)[0] == Reading::Pressed);
    if n > 1 {
        lemma_held_press_fires_once(true, (n - 1) as nat);
    } else {
        assert(rest.len() == 0);
        assert(fire_count(true, rest) == 0);
        assert(latch_after(true, rest));
    }
}

/// A press, a release and a press again act twice, however long each press
/// is held.
pub proof fn lemma_press_release_press_fires_twice(m: nat, k: nat)
    requires
        m >= 1,
        k >= 1,
    ensures
        fire_count(false, held(m) + seq![Reading::Released] + held(k)) == 2,
{
    let release = seq![Reading::Released];
    lemma_held_press_fires_once(false, m);
    lemma_fire_count_append(false, held(m), release);
    assert(release.drop_first().len() == 0);
    assert(fire_count(false, release.drop_first()) == 0);
    assert(latch_after(false, release.drop_first()) == false);
    assert(fire_count(true, release) == 0);
    assert(latch_after(true, release) == false);
    lemma_fire_count_append(false, held(m) + release, held(k));
    lemma_held_press_fires_once(false, k);
}

/// The abstract state of an [`Engine`].
pub struct EngineView {
    pub grid: Seq<bool>,
    pub state: RunState,
    pub timer_enabled: bool,
    pub seed: u16,
    pub a_latched: bool,
    pub b_latched: bool,
}

/// The invariant of an engine: the timer counts exactly while running.
pub open spec fn engine_wf(v: EngineView) -> bool {
    &&& v.grid.len() == 25
    &&& v.timer_enabled == (v.state == RunState::Running)
}

/// The engine after one poll of the buttons reading `a` and `b`. Button B
/// acts first, under the run state the poll started in: while running it
/// reseeds, while paused it steps once. Button A then toggles the run state
/// and starts or stops the timer.
pub open spec fn after_poll<R: TransitionRule>(
    v: EngineView,
    rule: R,
    a: Reading,
    b: Reading,
) -> EngineView {
    let fa = fires(v.a_latched, a);
    let fb = fires(v.b_latched, b);
    let running = v.state == RunState::Running;
    let state = if fa {
        toggled(v.state)
    } else {
        v.state
    };
    EngineView {
        grid: if fb && running {
            seeded_grid(v.seed)
        } else if fb {
            next_generation(v.grid, rule)
        } else {
            v.grid
        },
        state,
        timer_enabled: if fa {
            state == RunState::Running
        } else {
            v.timer_enabled
        },
        seed: if fb && running {
            next_seed(v.seed)
        } else {
            v.seed
        },
        a_latched: latch_next(v.a_latched, a),
        b_latched: latch_next(v.b_latched, b),
    }
}

/// What the timer must do after one poll reading `a` and `b`.
pub open spec fn poll_command(v: EngineView, a: Reading, b: Reading) -> TimerCommand {
    if fires(v.a_latched, a) {
        if v.state == RunState::Running {
            TimerCommand::Stop
        } else {
            TimerCommand::Start
        }
    } else if fires(v.b_latched, b) && v.state == RunState::Running {
        TimerCommand::ClearPending
    } else {
        TimerCommand::Keep
    }
}

/// The engine after one tick: one generation while running, nothing while
/// paused.
pub open spec fn after_tick<R: TransitionRule>(v: EngineView, rule: R) -> EngineView {
    if v.state == RunState::Running {
        EngineView { grid: next_generation(v.grid, rule), ..v }
    } else {
        v
    }
}

/// What one poll asks of the outside: a timer command, and whether the grid
/// must be shown again.
pub struct Response {
    pub timer: TimerCommand,
    pub redraw: bool,
}

/// The automaton with its run state, timer model, seeder and button latches.
/// Every change to it goes through `&mut self`, so whoever holds it holds it
/// alone.
pub struct Engine<R> {
    grid: Grid,
    state: RunState,
    timer_enabled: bool,
    seeder: PseudoRandomSeeder,
    button_a: DebounceLatch,
    button_b: DebounceLatch,
    rule: R,
}

impl<R> View for Engine<R> {
    type V = EngineView;

    closed spec fn view(&self) -> EngineView {
        EngineView {
            grid: self.grid@,
            state: self.state,
            timer_enabled: self.timer_enabled,
            seed: self.seeder.seed,
            a_latched: self.button_a.latched,
            b_latched: self.button_b.latched,
        }
    }
}

impl<R: TransitionRule> Engine<R> {
    /// The rule the engine applies.
    pub closed spec fn spec_rule(&self) -> R {
        self.rule
    }

    /// An engine that runs `rule`, started on the grid drawn from `seed`,
    /// running, with the timer counting and both buttons unlatched.
    pub fn with_seed(rule: R, seed: u16) -> (e: Engine<R>)
        ensures
            e@ == (EngineView {
                grid: seeded_grid(seed),
                state: RunState::Running,
                timer_enabled: true,
                seed: next_seed(seed),
                a_latched: false,
                b_latched: false,
            }),
            e.spec_rule() == rule,
            engine_wf(e@),
    {
        let mut seeder = PseudoRandomSeeder::with_seed(seed);
        let grid = seeder.random_automata();
        Engine {
            grid,
            state: RunState::Running,
            timer_enabled: true,
            seeder,
            button_a: DebounceLatch::new(),
            button_b: DebounceLatch::new(),
            rule,
        }
    }

    /// An engine that runs `rule`, started from the initial seed.
    pub fn new(rule: R) -> (e: Engine<R>)
        ensures
            e@ == (EngineView {
                grid: seeded_grid(INITIAL_SEED),
                state: RunState::Running,
                timer_enabled: true,
                seed: next_seed(INITIAL_SEED),
                a_latched: false,
                b_latched: false,
            }),
            e.spec_rule() == rule,
            engine_wf(e@),
    {
        Engine::with_seed(rule, INITIAL_SEED)
    }

    /// One poll of the two buttons.
    pub fn poll(&mut self, a: Reading, b: Reading) -> (resp: Response)
        ensures
            final(self)@ == after_poll(old(self)@, old(self).spec_rule(), a, b),
            final(self).spec_rule() == old(self).spec_rule(),
            resp.timer == poll_command(old(self)@, a, b),
            resp.redraw == fires(old(self)@.b_latched, b),
            engine_wf(old(self)@) ==> engine_wf(final(self)@),
    {
        let running = match self.state {
            RunState::Running => true,
            RunState::Paused => false,
        };
        let mut timer = TimerCommand::Keep;
        let fire_b = self.button_b.poll(b);
        if fire_b {
            if running {
                self.grid = self.seeder.random_automata();
                timer = TimerCommand::ClearPending;
            } else {
                self.grid = update_automata(self.grid, &self.rule);
            }
        }
        let fire_a = self.button_a.poll(a);
        if fire_a {
            if running {
                self.state = RunState::Paused;
                self.timer_enabled = false;
                timer = TimerCommand::Stop;
            } else {
                self.state = RunState::Running;
                self.timer_enabled = true;
                timer = TimerCommand::Start;
            }
        }
        Response { timer, redraw: fire_b }
    }

    /// One tick of the timer; returns whether the grid must be shown again.
    pub fn on_tick(&mut self) -> (redraw: bool)
        ensures
            final(self)@ == after_tick(old(self)@, old(self).spec_rule()),
            final(self).spec_rule() == old(self).spec_rule(),
            redraw == (old(self)@.state == RunState::Running),
            engine_wf(old(self)@) ==> engine_wf(final(self)@),
    {
        match self.state {
            RunState::Running => {
                self.grid = update_automata(self.grid, &self.rule);
                true
            },
            RunState::Paused => false,
        }
    }

    /// The current grid.
    pub fn grid(&self) -> (g: Grid)
        ensures
            g@ == self@.grid,
    {
        self.grid
    }

    /// The current run state.
    pub fn state(&self) -> (s: RunState)
        ensures
            s == self@.state,
    {
        self.state
    }

    /// Whether the timer is counting.
    pub fn timer_enabled(&self) -> (on: bool)
        ensures
            on == self@.timer_enabled,
    {
        self.timer_enabled
    }

    /// The seed of the next reseed.
    pub fn seed(&self) -> (s: u16)
        ensures
            s == self@.seed,
    {
        self.seeder.seed
    }
}

/// Pausing freezes the automaton: from a running engine, an edge of button A
/// pauses it and stops the timer, and a tick then changes nothing.
pub proof fn lemma_pause_freezes<R: TransitionRule>(v: EngineView, rule: R, b: Reading)
    requires
        engine_wf(v),
        v.state == RunState::Running,
        !v.a_latched,
    ensures
        after_poll(v, rule, Reading::Pressed, b).state == RunState::Paused,
        !after_poll(v, rule, Reading::Pressed, b).timer_enabled,
        poll_command(v, Reading::Pressed, b) == TimerCommand::Stop,
        after_tick(after_poll(v, rule, Reading::Pressed, b), rule) == after_poll(
            v,
            rule,
            Reading::Pressed,
            b,
        ),
{
}

/// Resuming restarts the automaton: from a paused engine, an edge of button
/// A resumes it and starts the timer, and a tick then advances the grid by
/// exactly one generation.
pub proof fn lemma_resume_advances<R: TransitionRule>(v: EngineView, rule: R, b: Reading)
    requires
        engine_wf(v),
        v.state == RunState::Paused,
        !v.a_latched,
    ensures
        after_poll(v, rule, Reading::Pressed, b).state == RunState::Running,
        after_poll(v, rule, Reading::Pressed, b).timer_enabled,
        poll_command(v, Reading::Pressed, b) == TimerCommand::Start,
        after_tick(after_poll(v, rule, Reading::Pressed, b), rule).grid == next_generation(
            after_poll(v, rule, Reading::Pressed, b).grid,
            rule,
        ),
{
}

/// A reseed depends on the seed alone: two running engines at the same seed
/// draw the same grid and move on to the same seed on an edge of button B,
/// whatever grids they held before.
pub proof fn lemma_reseed_depends_on_seed_only<R: TransitionRule>(
    v1: EngineView,
    v2: EngineView,
    rule: R,
    a: Reading,
)
    requires
        v1.seed == v2.seed,
        v1.state == RunState::Running,
        v2.state == RunState::Running,
        !v1.b_latched,
        !v2.b_latched,
    ensures
        after_poll(v1, rule, a, Reading::Pressed).grid == seeded_grid(v1.seed),
        after_poll(v2, rule, a, Reading::Pressed).grid == seeded_grid(v1.seed),
        after_poll(v1, rule, a, Reading::Pressed).seed == next_seed(v1.seed),
        after_poll(v2, rule, a, Reading::Pressed).seed == next_seed(v1.seed),
{
}

} // verus!
