use life_torus::automaton::update_automata;
use life_torus::control::{DebounceLatch, Engine, Reading, RunState, TimerCommand};
use life_torus::rule::Conway;
use life_torus::seeder::PseudoRandomSeeder;

#[test]
fn engine_starts_running_on_initial_draw() {
    let e = Engine::new(Conway);
    assert_eq!(e.state(), RunState::Running);
    assert!(e.timer_enabled());
    let mut s = PseudoRandomSeeder::new();
    assert_eq!(e.grid().cells, s.random_automata().cells);
    assert_eq!(e.seed(), 13988);
}

#[test]
fn latch_fires_once_per_held_press() {
    let mut l = DebounceLatch::new();
    assert!(l.poll(Reading::Pressed));
    for _ in 0..10 {
        assert!(!l.poll(Reading::Pressed));
    }
    assert!(l.latched);
}

#[test]
fn latch_fires_again_after_release() {
    let mut l = DebounceLatch::new();
    assert!(l.poll(Reading::Pressed));
    assert!(!l.poll(Reading::Pressed));
    assert!(!l.poll(Reading::Released));
    assert!(!l.latched);
    assert!(l.poll(Reading::Pressed));
}

#[test]
fn failed_read_keeps_latch() {
    let mut l = DebounceLatch::new();
    assert!(!l.poll(Reading::Unread));
    assert!(!l.latched);
    assert!(l.poll(Reading::Pressed));
    assert!(!l.poll(Reading::Unread));
    assert!(l.latched);
    assert!(!l.poll(Reading::Pressed));
}

#[test]
fn pause_stops_ticks() {
    let mut e = Engine::new(Conway);
    let before = e.grid();
    let resp = e.poll(Reading::Pressed, Reading::Released);
    assert_eq!(resp.timer, TimerCommand::Stop);
    assert!(!resp.redraw);
    assert_eq!(e.state(), RunState::Paused);
    assert!(!e.timer_enabled());
    assert!(!e.on_tick());
    assert!(!e.on_tick());
    assert_eq!(e.grid().cells, before.cells);
}

#[test]
fn resume_then_tick_advances_once() {
    let mut e = Engine::new(Conway);
    e.poll(Reading::Pressed, Reading::Released);
    e.poll(Reading::Released, Reading::Released);
    let resp = e.poll(Reading::Pressed, Reading::Released);
    assert_eq!(resp.timer, TimerCommand::Start);
    assert_eq!(e.state(), RunState::Running);
    assert!(e.timer_enabled());
    let before = e.grid();
    assert!(e.on_tick());
    assert_eq!(e.grid().cells, update_automata(before, &Conway).cells);
}

#[test]
fn held_button_a_toggles_once() {
    let mut e = Engine::new(Conway);
    for _ in 0..6 {
        e.poll(Reading::Pressed, Reading::Unread);
        assert_eq!(e.state(), RunState::Paused);
    }
    e.poll(Reading::Released, Reading::Unread);
    e.poll(Reading::Pressed, Reading::Unread);
    assert_eq!(e.state(), RunState::Running);
}

#[test]
fn button_b_while_running_reseeds() {
    let mut e = Engine::new(Conway);
    let seed = e.seed();
    let resp = e.poll(Reading::Released, Reading::Pressed);
    assert_eq!(resp.timer, TimerCommand::ClearPending);
    assert!(resp.redraw);
    let mut s = PseudoRandomSeeder::with_seed(seed);
    assert_eq!(e.grid().cells, s.random_automata().cells);
    assert_eq!(e.seed(), s.seed);
    assert_eq!(e.state(), RunState::Running);
}

#[test]
fn button_b_while_paused_steps_once() {
    let mut e = Engine::new(Conway);
    e.poll(Reading::Pressed, Reading::Released);
    let before = e.grid();
    let seed = e.seed();
    let resp = e.poll(Reading::Pressed, Reading::Pressed);
    assert_eq!(resp.timer, TimerCommand::Keep);
    assert!(resp.redraw);
    assert_eq!(e.grid().cells, update_automata(before, &Conway).cells);
    assert_eq!(e.seed(), seed);
    assert_eq!(e.state(), RunState::Paused);
    assert!(!e.poll(Reading::Pressed, Reading::Pressed).redraw);
}

#[test]
fn both_buttons_in_one_poll() {
    let mut e = Engine::new(Conway);
    let seed = e.seed();
    let resp = e.poll(Reading::Pressed, Reading::Pressed);
    assert_eq!(resp.timer, TimerCommand::Stop);
    assert!(resp.redraw);
    let mut s = PseudoRandomSeeder::with_seed(seed);
    assert_eq!(e.grid().cells, s.random_automata().cells);
    assert_eq!(e.state(), RunState::Paused);
}
