use osutil::cleanup::{
    cleanup_terminal, setup_steps, CleanupLatch, CleanupStep, SetupStep, TerminalCleanupGuard,
    SIGINT_EXIT_CODE,
};

#[test]
fn setup_enters_the_screen_then_raw_mode() {
    assert_eq!(
        setup_steps(false),
        vec![SetupStep::EnterAlternateScreen, SetupStep::EnableRawMode]
    );
    assert_eq!(
        setup_steps(true),
        vec![
            SetupStep::EnterAlternateScreen,
            SetupStep::EnableMouseCapture,
            SetupStep::EnableRawMode
        ]
    );
}

#[test]
fn cleanup_steps_without_mouse() {
    let mut latch = CleanupLatch::new();
    assert!(!latch.is_cleaned());
    assert_eq!(
        cleanup_terminal(&mut latch, false),
        vec![
            CleanupStep::DisableRawMode,
            CleanupStep::LeaveAlternateScreen,
            CleanupStep::ResetColor,
            CleanupStep::ShowCursor
        ]
    );
    assert!(latch.is_cleaned());
}

#[test]
fn cleanup_steps_with_mouse() {
    let mut latch = CleanupLatch::new();
    assert_eq!(
        cleanup_terminal(&mut latch, true),
        vec![
            CleanupStep::DisableRawMode,
            CleanupStep::LeaveAlternateScreen,
            CleanupStep::DisableMouseCapture,
            CleanupStep::ResetColor,
            CleanupStep::ShowCursor
        ]
    );
}

#[test]
fn cleanup_runs_once_for_all_three_paths() {
    let mut latch = CleanupLatch::new();
    let guard = TerminalCleanupGuard::new(true);
    let from_panic_hook = cleanup_terminal(&mut latch, true);
    let from_interrupt = cleanup_terminal(&mut latch, true);
    let from_normal_path = cleanup_terminal(&mut latch, true);
    let from_guard = guard.release(&mut latch);
    let ran = [&from_panic_hook, &from_interrupt, &from_normal_path, &from_guard]
        .iter()
        .filter(|steps| !steps.is_empty())
        .count();
    assert_eq!(ran, 1);
    assert_eq!(from_panic_hook.len(), 5);
    assert!(latch.is_cleaned());
}

#[test]
fn guard_release_runs_the_cleanup_when_it_is_first() {
    let mut latch = CleanupLatch::new();
    let guard = TerminalCleanupGuard::new(false);
    assert_eq!(guard.release(&mut latch).len(), 4);
    assert!(cleanup_terminal(&mut latch, false).is_empty());
    assert!(guard.release(&mut latch).is_empty());
}

#[test]
fn interrupt_exits_with_130() {
    assert_eq!(SIGINT_EXIT_CODE, 130);
}
