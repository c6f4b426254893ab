use kernel::dispatch::{Event, HandlerTable, InterruptControllerHandle, Session};
use kernel::game::{GameMode, Pong};
use kernel::render::DrawCmd;

fn handle() -> InterruptControllerHandle {
    InterruptControllerHandle { register_base: 0xFEE0_0000 }
}

fn full_table() -> HandlerTable {
    HandlerTable::new().keyboard().timer().startup()
}

#[test]
fn builder_registers_slots() {
    let t = HandlerTable::new();
    assert!(!t.startup && !t.timer && !t.keyboard);
    let t = t.timer();
    assert!(!t.startup && t.timer && !t.keyboard);
    let t = t.startup().keyboard();
    assert!(t.startup && t.timer && t.keyboard);
}

#[test]
fn startup_runs_once_and_draws_the_menu() {
    let mut s = Session::new(full_table(), handle(), Pong::new(800, 600));
    assert!(!s.started);
    let cmds = s.startup();
    assert!(s.started);
    assert!(!s.lock_held);
    assert_eq!(cmds.len(), 7);
    assert_eq!(cmds[0], DrawCmd::Clear);
    assert_eq!(s.game, Pong::new(800, 600)); // the startup callback only reads
}

#[test]
fn unregistered_kinds_are_ignored() {
    let table = HandlerTable::new().startup(); // no timer, no keyboard
    let mut s = Session::new(table, handle(), Pong::new(800, 600));
    s.startup();
    let before = s.game;
    let cmds = s.dispatch(Event::Timer);
    assert!(cmds.is_empty());
    assert_eq!(s.game, before);
    let cmds = s.dispatch(Event::Key('1'));
    assert!(cmds.is_empty());
    assert_eq!(s.game, before);
}

#[test]
fn dispatch_drives_the_game() {
    let mut s = Session::new(full_table(), handle(), Pong::new(800, 600));
    s.startup();
    s.dispatch(Event::Key('1'));
    assert_eq!(s.game.game_mode, GameMode::OnePlayer);
    let ball_before = (s.game.ball_x, s.game.ball_y);
    s.dispatch(Event::Timer);
    assert_ne!((s.game.ball_x, s.game.ball_y), ball_before);
    // A dispatched callback renders the fully updated state.
    let cmds = s.dispatch(Event::Key('w'));
    assert_eq!(cmds[0], DrawCmd::Clear);
    assert!(cmds.len() > 1);
}

#[test]
fn lock_is_free_after_every_dispatch() {
    // Each dispatched callback acquires and releases the lock before it
    // returns: the lock is never held across two consecutive dispatches.
    let mut s = Session::new(full_table(), handle(), Pong::new(800, 600));
    s.startup();
    assert!(!s.lock_held);
    for i in 0..50 {
        if i % 3 == 0 {
            s.dispatch(Event::Timer);
        } else if i % 3 == 1 {
            s.dispatch(Event::Key('w'));
        } else {
            s.dispatch(Event::Key('s'));
        }
        assert!(!s.lock_held);
    }
}
