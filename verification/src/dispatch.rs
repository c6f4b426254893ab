//! The event dispatch framework: a registry of callback slots (startup,
//! timer, keyboard) and the session that invokes them for hardware events.
//!
//! The surrounding program owns the never-returning interrupt loop; each
//! round of that loop hands one event to [`Session::dispatch`].  Every
//! dispatch acquires the mutual-exclusion lock around the shared game
//! state and releases it before returning, so the lock is never held
//! across two consecutive dispatch invocations and a dispatched callback
//! can never block on it.  The startup callback runs exactly once, before
//! any timer or key event is dispatched.

use vstd::prelude::*;
use crate::game::{Pong, spec_key, spec_update};
use crate::render::{DrawCmd, spec_draw_output};

verus! {

/// Opaque reference to the programmed interrupt controller's mapped
/// register block, used only to arm interrupt sources; owned by the
/// dispatch session for the remainder of execution.
#[derive(PartialEq, Eq, Structural, Clone, Copy, Debug)]
pub struct InterruptControllerHandle {
    pub register_base: u64,
}

/// One hardware event as the interrupt controller delivers it: a timer
/// tick, or a key event already decoded to a printable character.
#[derive(PartialEq, Eq, Structural, Clone, Copy, Debug)]
pub enum Event {
    Timer,
    Key(char),
}

/// The registry of callback slots: at most one callback per event kind.
/// An unregistered kind is silently ignored at dispatch time.
#[derive(PartialEq, Eq, Structural, Clone, Copy, Debug)]
pub struct HandlerTable {
    pub startup: bool,
    pub timer: bool,
    pub keyboard: bool,
}

impl HandlerTable {
    /// An empty registry: no callback registered yet.
    pub fn new() -> (t: HandlerTable)
        ensures
            t == (HandlerTable { startup: false, timer: false, keyboard: false }),
    {
        HandlerTable { startup: false, timer: false, keyboard: false }
    }

    /// Register the startup callback.
    pub fn startup(self) -> (t: HandlerTable)
        ensures
            t == (HandlerTable { startup: true, ..self }),
    {
        HandlerTable { startup: true, ..self }
    }

    /// Register the timer-tick callback.
    pub fn timer(self) -> (t: HandlerTable)
        ensures
            t == (HandlerTable { timer: true, ..self }),
    {
        HandlerTable { timer: true, ..self }
    }

    /// Register the key-event callback.
    pub fn keyboard(self) -> (t: HandlerTable)
        ensures
            t == (HandlerTable { keyboard: true, ..self }),
    {
        HandlerTable { keyboard: true, ..self }
    }
}

/// The running dispatch state: the callback registry, the controller
/// handle, the shared game state, and the mutual-exclusion lock guarding
/// it.  `lock_held` is the lock's state between instructions; `started`
/// records that the startup callback has run.
#[derive(PartialEq, Eq, Structural, Clone, Copy, Debug)]
pub struct Session {
    pub handlers: HandlerTable,
    pub controller: InterruptControllerHandle,
    pub game: Pong,
    pub lock_held: bool,
    pub started: bool,
}

impl Session {
    /// Between dispatches the game state is well formed and the lock is
    /// free: a handler that kept it would deadlock the machine, since
    /// acquisition spins and nothing this close to hardware can block.
    pub open spec fn wf(self) -> bool {
        &&& self.game.wf()
        &&& !self.lock_held
    }

    /// Consume the callback registry and the controller handle and enter
    /// dispatch duty.  The caller then runs the startup callback once and
    /// loops over [`Session::dispatch`] forever.
    pub fn new(handlers: HandlerTable, controller: InterruptControllerHandle, game: Pong) -> (s:
        Session)
        requires
            game.wf(),
        ensures
            s == (Session { handlers, controller, game, lock_held: false, started: false }),
            s.wf(),
    {
        Session { handlers, controller, game, lock_held: false, started: false }
    }

    /// Run the startup callback: exactly once (the precondition forbids a
    /// second run), before any timer or key event is dispatched.  The
    /// callback reads the game state under the lock and renders it; the
    /// lock is free again when the call returns.
    pub fn startup(&mut self) -> (cmds: Vec<DrawCmd>)
        requires
            old(self).wf(),
            !old(self).started,
        ensures
            final(self).wf(),
            final(self).started,
            !final(self).lock_held,
            *final(self) == (Session { started: true, ..*old(self) }),
            old(self).handlers.startup ==> spec_draw_output(old(self).game, cmds@),
            !old(self).handlers.startup ==> cmds@ == Seq::<DrawCmd>::empty(),
    {
        self.lock_held = true;
        let cmds = if self.handlers.startup {
            self.game.draw()
        } else {
            Vec::new()
        };
        self.lock_held = false;
        self.started = true;
        cmds
    }

    /// Dispatch one hardware event to its registered callback, fully
    /// completing before the next dispatch of any kind begins.  The
    /// callback mutates the game state only under the lock and renders
    /// the updated state; the lock is acquired and released within this
    /// call, so it is never held across two consecutive dispatches.  An
    /// event whose kind has no registered callback is silently ignored.
    pub fn dispatch(&mut self, ev: Event) -> (cmds: Vec<DrawCmd>)
        requires
            old(self).wf(),
            old(self).started,
        ensures
            final(self).wf(),
            !final(self).lock_held,
            final(self).started,
            final(self).handlers == old(self).handlers,
            final(self).controller == old(self).controller,
            ev == Event::Timer && old(self).handlers.timer ==> final(self).game == spec_update(
                old(self).game,
            ) && spec_draw_output(final(self).game, cmds@),
            ev matches Event::Key(c) ==> (old(self).handlers.keyboard ==> final(self).game
                == spec_key(old(self).game, c) && spec_draw_output(final(self).game, cmds@)),
            ev == Event::Timer && !old(self).handlers.timer ==> final(self).game == old(
                self,
            ).game && cmds@ == Seq::<DrawCmd>::empty(),
            ev is Key && !old(self).handlers.keyboard ==> final(self).game == old(self).game
                && cmds@ == Seq::<DrawCmd>::empty(),
    {
        self.lock_held = true;
        let cmds = match ev {
            Event::Timer => {
                if self.handlers.timer {
                    let mut g = self.game;
                    g.update();
                    self.game = g;
                    self.game.draw()
                } else {
                    Vec::new()
                }
            },
            Event::Key(c) => {
                if self.handlers.keyboard {
                    let mut g = self.game;
                    g.handle_key(c);
                    self.game = g;
                    self.game.draw()
                } else {
                    Vec::new()
                }
            },
        };
        self.lock_held = false;
        cmds
    }
}

} // verus!
