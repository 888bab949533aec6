//! One turn of the render loop.
//!
//! The loop waits a short while for a terminal event.  When none arrives it
//! clears the dirty flag and draws; when one arrives it lets the runner
//! handle it and draws.  A key that was released is skipped without a
//! frame, and the loop ends when the runner asks for its window to close.

use crate::keys::{KeyEvent, KeyEventKind, MouseEvent};
use crate::running_command::{key_route, ActionView, RunnerAction, RunnerView, RunningCommand};
use vstd::prelude::*;

verus! {

/// How long the loop waits for a terminal event, in milliseconds.
pub const POLL_TIMEOUT_MS: u64 = 50;

/// What the terminal reported.
#[derive(Debug, Clone, Copy, PartialEq, Eq, Structural)]
pub enum TerminalEvent {
    Key(KeyEvent),
    Mouse(MouseEvent),
    /// A resize, a paste or a change of focus.
    Other,
}

/// How the wait for a terminal event ended.
#[derive(Debug, Clone, Copy, PartialEq, Eq, Structural)]
pub enum Polled {
    /// Nothing arrived in time.
    Timeout,
    /// This event arrived.
    Event(TerminalEvent),
}

/// What the loop does in one turn.
#[derive(Debug)]
pub struct LoopStep {
    /// Clear the dirty flag, if it is set.
    pub clear_dirty: bool,
    /// What the caller does for the runner, before the frame.
    pub action: RunnerAction,
    /// Draw a frame.
    pub redraw: bool,
    /// Leave the loop.
    pub exit: bool,
}

/// True when the loop handles the key: it went down or is held.
pub open spec fn key_counts(key: KeyEvent) -> bool {
    key.kind == KeyEventKind::Press || key.kind == KeyEventKind::Repeat
}

/// The runner after one turn of the loop.
pub open spec fn after_turn(runner: RunnerView, polled: Polled, supervisor_done: bool)
    -> RunnerView {
    match polled {
        Polled::Event(TerminalEvent::Key(key)) => if key_counts(key) {
            runner.after_key(key, supervisor_done)
        } else {
            runner
        },
        Polled::Event(TerminalEvent::Mouse(event)) => runner.after_mouse(event),
        _ => runner,
    }
}

/// What the caller does for the runner in one turn of the loop.
pub open spec fn turn_action(runner: RunnerView, polled: Polled, supervisor_done: bool)
    -> ActionView {
    match polled {
        Polled::Event(TerminalEvent::Key(key)) => if key_counts(key) {
            runner.key_action(key, supervisor_done)
        } else {
            ActionView::Idle
        },
        _ => ActionView::Idle,
    }
}

/// True when the turn ends the loop: a key that counts closes the window.
pub open spec fn turn_exits(runner: RunnerView, polled: Polled, supervisor_done: bool) -> bool {
    polled matches Polled::Event(TerminalEvent::Key(key)) && key_counts(key) && key_route(
        key,
        runner.finished(supervisor_done),
    ) is Close
}

/// True when the turn draws a frame: always, except after a key that was
/// released and when the loop ends.
pub open spec fn turn_redraws(runner: RunnerView, polled: Polled, supervisor_done: bool)
    -> bool {
    match polled {
        Polled::Event(TerminalEvent::Key(key)) => key_counts(key) && !turn_exits(
            runner,
            polled,
            supervisor_done,
        ),
        _ => true,
    }
}

/// One turn of the render loop on `runner`, after the wait for a terminal
/// event ended as `polled`.
pub fn run_step(runner: &mut RunningCommand, polled: &Polled, supervisor_done: bool) -> (step:
    LoopStep)
    ensures
        step.clear_dirty == (*polled is Timeout),
        step.action@ == turn_action(old(runner)@, *polled, supervisor_done),
        step.redraw == turn_redraws(old(runner)@, *polled, supervisor_done),
        step.exit == turn_exits(old(runner)@, *polled, supervisor_done),
        final(runner)@ == after_turn(old(runner)@, *polled, supervisor_done),
{
    match polled {
        Polled::Timeout => LoopStep {
            clear_dirty: true,
            action: RunnerAction::Idle,
            redraw: true,
            exit: false,
        },
        Polled::Event(TerminalEvent::Key(key)) => {
            let counts = match key.kind {
                KeyEventKind::Press => true,
                KeyEventKind::Repeat => true,
                KeyEventKind::Release => false,
            };
            if counts {
                let response = runner.handle_key_event(key, supervisor_done);
                LoopStep {
                    clear_dirty: false,
                    action: response.action,
                    redraw: !response.close,
                    exit: response.close,
                }
            } else {
                LoopStep {
                    clear_dirty: false,
                    action: RunnerAction::Idle,
                    redraw: false,
                    exit: false,
                }
            }
        },
        Polled::Event(TerminalEvent::Mouse(event)) => {
            let _keep_open = runner.handle_mouse_event(event);
            LoopStep { clear_dirty: false, action: RunnerAction::Idle, redraw: true, exit: false }
        },
        Polled::Event(TerminalEvent::Other) => LoopStep {
            clear_dirty: false,
            action: RunnerAction::Idle,
            redraw: true,
            exit: false,
        },
    }
}

/// A turn in which nothing arrived in time draws a frame, and so does every
/// turn that handled an event and did not end the loop: output that the
/// buffer holds is shown by the next such turn at the latest.
pub proof fn lemma_idle_turn_redraws(runner: RunnerView, supervisor_done: bool)
    ensures
        turn_redraws(runner, Polled::Timeout, supervisor_done),
        !turn_exits(runner, Polled::Timeout, supervisor_done),
        after_turn(runner, Polled::Timeout, supervisor_done) == runner,
{
}

} // verus!
