//! Setting the host terminal up, and restoring it exactly once.
//!
//! The terminal is restored when the interface ends in the ordinary way,
//! when the program panics, and when it is interrupted.  All three paths
//! ask the same latch, and only the first to ask is told to do the work.

use vstd::prelude::*;

verus! {

/// The status with which the program ends after an interrupt.
pub const SIGINT_EXIT_CODE: i32 = 130;

/// One step of setting the terminal up.
#[derive(Debug, Clone, Copy, PartialEq, Eq, Structural)]
pub enum SetupStep {
    EnterAlternateScreen,
    EnableMouseCapture,
    EnableRawMode,
}

/// One step of restoring the terminal.  Each is tried, and a step that
/// fails does not keep the later ones from being tried.
#[derive(Debug, Clone, Copy, PartialEq, Eq, Structural)]
pub enum CleanupStep {
    DisableRawMode,
    LeaveAlternateScreen,
    DisableMouseCapture,
    ResetColor,
    ShowCursor,
}

/// The steps that set the terminal up, in order.  The mouse is captured
/// only where `mouse_enabled` asks for it.
pub open spec fn setup_plan(mouse_enabled: bool) -> Seq<SetupStep> {
    if mouse_enabled {
        seq![
            SetupStep::EnterAlternateScreen,
            SetupStep::EnableMouseCapture,
            SetupStep::EnableRawMode,
        ]
    } else {
        seq![SetupStep::EnterAlternateScreen, SetupStep::EnableRawMode]
    }
}

/// The steps that restore the terminal, in order.  The capture of the
/// mouse is ended only where it was begun.
pub open spec fn cleanup_plan(mouse_enabled: bool) -> Seq<CleanupStep> {
    if mouse_enabled {
        seq![
            CleanupStep::DisableRawMode,
            CleanupStep::LeaveAlternateScreen,
            CleanupStep::DisableMouseCapture,
            CleanupStep::ResetColor,
            CleanupStep::ShowCursor,
        ]
    } else {
        seq![
            CleanupStep::DisableRawMode,
            CleanupStep::LeaveAlternateScreen,
            CleanupStep::ResetColor,
            CleanupStep::ShowCursor,
        ]
    }
}

/// The steps that set the terminal up.
pub fn setup_steps(mouse_enabled: bool) -> (steps: Vec<SetupStep>)
    ensures
        steps@ == setup_plan(mouse_enabled),
{
    let mut steps: Vec<SetupStep> = Vec::new();
    steps.push(SetupStep::EnterAlternateScreen);
    if mouse_enabled {
        steps.push(SetupStep::EnableMouseCapture);
    }
    steps.push(SetupStep::EnableRawMode);
    steps
}

/// Remembers whether the terminal has been restored.
#[derive(Debug)]
pub struct CleanupLatch {
    cleaned: bool,
}

impl View for CleanupLatch {
    type V = bool;

    /// True once the terminal has been restored.
    closed spec fn view(&self) -> bool {
        self.cleaned
    }
}

impl CleanupLatch {
    /// A latch for a terminal that has not been restored.
    pub fn new() -> (latch: CleanupLatch)
        ensures
            !latch@,
    {
        CleanupLatch { cleaned: false }
    }

    /// True once the terminal has been restored.
    pub fn is_cleaned(&self) -> (cleaned: bool)
        ensures
            cleaned == self@,
    {
        self.cleaned
    }
}

/// Asks for the terminal to be restored.  The first request is handed the
/// steps to carry out; every later one is handed none.
pub fn cleanup_terminal(latch: &mut CleanupLatch, mouse_enabled: bool) -> (steps: Vec<
    CleanupStep,
>)
    ensures
        final(latch)@,
        old(latch)@ ==> steps@ == Seq::<CleanupStep>::empty(),
        !old(latch)@ ==> steps@ == cleanup_plan(mouse_enabled),
{
    let mut steps: Vec<CleanupStep> = Vec::new();
    if latch.cleaned {
        return steps;
    }
    latch.cleaned = true;
    steps.push(CleanupStep::DisableRawMode);
    steps.push(CleanupStep::LeaveAlternateScreen);
    if mouse_enabled {
        steps.push(CleanupStep::DisableMouseCapture);
    }
    steps.push(CleanupStep::ResetColor);
    steps.push(CleanupStep::ShowCursor);
    steps
}

/// Restores the terminal when the scope that owns the interface ends.
#[derive(Debug)]
pub struct TerminalCleanupGuard {
    mouse: bool,
}

impl View for TerminalCleanupGuard {
    type V = bool;

    /// True when the mouse was captured.
    closed spec fn view(&self) -> bool {
        self.mouse
    }
}

impl TerminalCleanupGuard {
    /// A guard for a terminal whose mouse capture is as `mouse` says.
    pub fn new(mouse: bool) -> (guard: TerminalCleanupGuard)
        ensures
            guard@ == mouse,
    {
        TerminalCleanupGuard { mouse }
    }

    /// What the guard does when it is released: it asks for the terminal to
    /// be restored, as [`cleanup_terminal`] does.
    pub fn release(&self, latch: &mut CleanupLatch) -> (steps: Vec<CleanupStep>)
        ensures
            final(latch)@,
            old(latch)@ ==> steps@ == Seq::<CleanupStep>::empty(),
            !old(latch)@ ==> steps@ == cleanup_plan(self@),
    {
        cleanup_terminal(latch, self.mouse)
    }
}

/// How many of `requests` requests in a row are handed the steps, on a
/// latch that starts as `cleaned` says.
pub open spec fn cleanups_run(cleaned: bool, requests: nat) -> nat
    decreases requests,
{
    if requests == 0 {
        0
    } else {
        let first: nat = if cleaned {
            0
        } else {
            1
        };
        first + cleanups_run(true, (requests - 1) as nat)
    }
}

/// Every plan has steps to carry out, so a request was handed the steps
/// exactly when what it was handed is not empty.
pub proof fn lemma_plans_are_not_empty(mouse_enabled: bool)
    ensures
        cleanup_plan(mouse_enabled).len() >= 4,
        setup_plan(mouse_enabled).len() >= 2,
{
}

/// On a latch that has restored the terminal no request runs the cleanup.
pub proof fn lemma_cleanup_not_repeated(requests: nat)
    ensures
        cleanups_run(true, requests) == 0,
    decreases requests,
{
    if requests > 0 {
        lemma_cleanup_not_repeated((requests - 1) as nat);
    }
}

/// However many paths ask for the cleanup, one after another, it runs
/// exactly once: the first request runs it and no later one does.
pub proof fn lemma_cleanup_runs_once(requests: nat)
    requires
        requests >= 1,
    ensures
        cleanups_run(false, requests) == 1,
{
    lemma_cleanup_not_repeated((requests - 1) as nat);
}

} // verus!
