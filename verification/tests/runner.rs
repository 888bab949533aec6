use osutil::buffer::OutputBuffer;
use osutil::command::{Command, ComposeError};
use osutil::exit_status::ExitStatus;
use osutil::keys::{KeyCode, KeyEvent, KeyModifiers, MouseEvent, MouseEventKind};
use osutil::log::Timestamp;
use osutil::running_command::{
    initial_pty_size, Banner, Phase, PtySize, RunnerAction, RunningCommand, ScreenRequest, Size,
    INITIAL_COLS, INITIAL_ROWS, PAGE_LINES, SCROLLBACK_LINES,
};

fn runner_for(script: &str) -> RunningCommand {
    let task = Command::Raw(script.to_string());
    RunningCommand::new(&[&task])
}

fn press(code: KeyCode) -> KeyEvent {
    KeyEvent::new(code, KeyModifiers::none())
}

fn ctrl_c() -> KeyEvent {
    KeyEvent::new(KeyCode::Char('c'), KeyModifiers::ctrl())
}

#[test]
fn new_runner_is_running() {
    let runner = runner_for("echo hello");
    assert_eq!(runner.script(), "echo hello\n");
    assert!(runner.supervisor_present());
    assert!(!runner.is_finished(false));
    assert_eq!(runner.status(), None);
    assert_eq!(runner.log_path(), None);
    assert_eq!(runner.scroll_offset(), 0);
}

#[test]
fn new_with_names_ignores_the_names() {
    let first = Command::Raw("echo A".to_string());
    let second = Command::Raw("echo B".to_string());
    let names = vec!["first".to_string(), "second".to_string()];
    let runner = RunningCommand::new_with_names(&[&first, &second], &names);
    assert_eq!(runner.script(), "echo A\necho B\n");
    assert!(runner.supervisor_present());
}

#[test]
fn initial_size_is_24_by_80() {
    assert_eq!(
        initial_pty_size(),
        PtySize { rows: 24, cols: 80, pixel_width: 0, pixel_height: 0 }
    );
    assert_eq!(INITIAL_ROWS, 24);
    assert_eq!(INITIAL_COLS, 80);
    assert_eq!(SCROLLBACK_LINES, 1000);
    assert_eq!(PAGE_LINES, 10);
}

#[test]
fn shell_command_is_sh_c_script() {
    let task = Command::LocalFile {
        executable: "./run.sh".to_string(),
        args: vec!["-e".to_string(), "./run.sh".to_string()],
        file: "/tmp/demo/run.sh".to_string(),
    };
    let runner = RunningCommand::new(&[&task]);
    let builder = runner.shell_command();
    let argv: Vec<String> = builder
        .get_argv()
        .iter()
        .map(|arg| arg.to_string_lossy().into_owned())
        .collect();
    assert_eq!(
        argv,
        vec![
            "sh".to_string(),
            "-c".to_string(),
            "cd /tmp/demo\n./run.sh -e ./run.sh\n".to_string()
        ]
    );
}

#[test]
fn shell_command_sets_the_child_environment() {
    let runner = runner_for("true");
    let builder = runner.shell_command();
    let mut extra: Vec<(String, String)> = builder
        .iter_extra_env_as_str()
        .map(|(name, value)| (name.to_string(), value.to_string()))
        .collect();
    extra.sort();
    assert_eq!(
        extra,
        vec![
            ("COLORTERM".to_string(), "truecolor".to_string()),
            ("OSUTIL_TUI_MODE".to_string(), "1".to_string()),
            ("TERM".to_string(), "xterm-256color".to_string()),
        ]
    );
}

#[test]
fn finished_iff_handle_taken_or_supervisor_done() {
    let mut runner = runner_for("true");
    assert!(!runner.is_finished(false));
    assert!(runner.is_finished(true));
    runner.get_exit_status(Some(ExitStatus::with_exit_code(0)));
    assert!(runner.is_finished(false));
    assert!(runner.is_finished(true));
}

#[test]
fn success_path() {
    let mut runner = runner_for("echo hello");
    let chrome = runner.draw(false, None);
    assert_eq!(chrome.banner, Banner::Running);
    assert_eq!(chrome.title, "Running the command....");
    assert_eq!(chrome.footer, "Press Ctrl-C to KILL the command");
    let chrome = runner.draw(true, Some(ExitStatus::with_exit_code(0)));
    assert_eq!(chrome.banner, Banner::Success);
    assert_eq!(chrome.title, "SUCCESS! Press <ENTER> to close this window");
    assert_eq!(chrome.footer, " Press 'l' to save command log ");
    assert_eq!(runner.status(), Some(ExitStatus::with_exit_code(0)));
    assert!(runner.get_exit_status(None).success());
}

#[test]
fn failure_path() {
    let mut runner = runner_for("exit 3");
    let chrome = runner.draw(true, Some(ExitStatus::with_exit_code(3)));
    assert_eq!(chrome.banner, Banner::Failed);
    assert_eq!(chrome.title, "FAILED! Press <ENTER> to close this window");
    let status = runner.get_exit_status(None);
    assert!(!status.success());
    assert_eq!(status.exit_code(), 3);
}

#[test]
fn kill_then_non_success() {
    let mut runner = runner_for("sleep 60");
    let response = runner.handle_key_event(&ctrl_c(), false);
    assert!(!response.close);
    assert_eq!(response.action, RunnerAction::KillChild);
    let chrome = runner.draw(true, Some(ExitStatus::with_signal("Hangup")));
    assert_eq!(chrome.banner, Banner::Failed);
    assert!(runner.is_finished(false));
    assert!(!runner.get_exit_status(None).success());
}

#[test]
fn saved_log_is_reported_in_the_footer() {
    let mut runner = runner_for("echo hello");
    runner.get_exit_status(Some(ExitStatus::with_exit_code(0)));
    let response = runner.handle_key_event(&press(KeyCode::Char('l')), true);
    assert!(!response.close);
    assert_eq!(response.action, RunnerAction::SaveLog);
    let now = Timestamp::new(2024, 3, 9, 7, 5, 1).unwrap();
    let path = runner.save_log("/tmp", &now);
    assert_eq!(path, "/tmp/osutil_log_2024-03-09-07-05-01.log");
    assert_eq!(runner.log_path(), None);
    runner.log_saved(path.clone());
    assert_eq!(runner.log_path(), Some(path.as_str()));
    let chrome = runner.draw(true, None);
    assert_eq!(chrome.banner, Banner::Success);
    assert_eq!(
        chrome.footer,
        " Log saved: /tmp/osutil_log_2024-03-09-07-05-01.log "
    );
}

#[test]
fn draw_of_a_running_command_joins_nothing() {
    let mut runner = runner_for("sleep 1");
    let chrome = runner.draw(false, Some(ExitStatus::with_exit_code(0)));
    assert_eq!(chrome.banner, Banner::Running);
    assert!(runner.supervisor_present());
    assert_eq!(runner.status(), None);
}

#[test]
fn dead_supervisor_reads_as_exit_code_1() {
    let mut runner = runner_for("true");
    let status = runner.get_exit_status(None);
    assert_eq!(status, ExitStatus::with_exit_code(1));
    assert!(!runner.supervisor_present());
    assert_eq!(runner.status(), None);
    let chrome = runner.draw(false, None);
    assert_eq!(chrome.banner, Banner::Failed);
}

#[test]
fn status_is_recorded_once() {
    let mut runner = runner_for("exit 3");
    assert_eq!(
        runner.get_exit_status(Some(ExitStatus::with_exit_code(3))),
        ExitStatus::with_exit_code(3)
    );
    assert_eq!(
        runner.get_exit_status(Some(ExitStatus::with_exit_code(0))),
        ExitStatus::with_exit_code(3)
    );
    assert_eq!(runner.get_exit_status(None), ExitStatus::with_exit_code(3));
    assert_eq!(runner.status(), Some(ExitStatus::with_exit_code(3)));
}

#[test]
fn kill_is_delivered_at_most_once() {
    let mut runner = runner_for("sleep 60");
    assert!(runner.kill_child(false));
    assert!(!runner.kill_child(false));
    assert!(!runner.kill_child(false));
    assert!(!runner.kill_child(true));
}

#[test]
fn kill_after_finish_is_a_noop() {
    let mut runner = runner_for("true");
    assert!(!runner.kill_child(true));
    assert!(!runner.kill_child(true));
    // The capability was not used up while the runner was seen finished.
    assert!(runner.kill_child(false));
    let mut joined = runner_for("true");
    joined.get_exit_status(Some(ExitStatus::with_exit_code(0)));
    assert!(!joined.kill_child(false));
}

#[test]
fn ctrl_c_after_the_first_kill_does_nothing() {
    let mut runner = runner_for("sleep 60");
    assert_eq!(
        runner.handle_key_event(&ctrl_c(), false).action,
        RunnerAction::KillChild
    );
    let again = runner.handle_key_event(&ctrl_c(), false);
    assert_eq!(again.action, RunnerAction::Idle);
    assert!(!again.close);
}

#[test]
fn ctrl_c_is_not_passed_to_the_child() {
    let mut runner = runner_for("cat");
    let response = runner.handle_key_event(&ctrl_c(), true);
    assert_eq!(response.action, RunnerAction::Idle);
    assert!(!response.close);
}

#[test]
fn enter_closes_only_a_finished_runner() {
    let mut runner = runner_for("cat");
    let response = runner.handle_key_event(&press(KeyCode::Enter), false);
    assert!(!response.close);
    assert_eq!(response.action, RunnerAction::Send(vec![0x0A]));
    let response = runner.handle_key_event(&press(KeyCode::Enter), true);
    assert!(response.close);
    assert_eq!(response.action, RunnerAction::Idle);
}

#[test]
fn l_is_typed_while_running() {
    let mut runner = runner_for("cat");
    let response = runner.handle_key_event(&press(KeyCode::Char('l')), false);
    assert_eq!(response.action, RunnerAction::Send(vec![b'l']));
    assert!(!response.close);
}

#[test]
fn other_keys_are_passed_through() {
    let mut runner = runner_for("cat");
    let response = runner.handle_key_event(&press(KeyCode::Up), false);
    assert_eq!(response.action, RunnerAction::Send(b"\x1b[A".to_vec()));
    let response = runner.handle_key_event(
        &KeyEvent::new(KeyCode::Char('d'), KeyModifiers::ctrl()),
        false,
    );
    assert_eq!(response.action, RunnerAction::Send(vec![0x04]));
    let response = runner.handle_key_event(&press(KeyCode::F(5)), false);
    assert_eq!(response.action, RunnerAction::Idle);
    assert_eq!(
        runner.handle_passthrough_key_event(&press(KeyCode::Tab)),
        Some(vec![0x09])
    );
    assert_eq!(runner.handle_passthrough_key_event(&press(KeyCode::F(5))), None);
}

#[test]
fn page_keys_scroll_by_ten_lines() {
    let mut runner = runner_for("yes");
    let response = runner.handle_key_event(&press(KeyCode::PageUp), false);
    assert_eq!(response.action, RunnerAction::Idle);
    assert!(!response.close);
    assert_eq!(runner.scroll_offset(), 10);
    runner.handle_key_event(&press(KeyCode::PageUp), true);
    assert_eq!(runner.scroll_offset(), 20);
    runner.handle_key_event(&press(KeyCode::PageDown), false);
    assert_eq!(runner.scroll_offset(), 10);
}

#[test]
fn page_down_from_zero_stays_at_zero() {
    let mut runner = runner_for("yes");
    runner.handle_key_event(&press(KeyCode::PageDown), false);
    assert_eq!(runner.scroll_offset(), 0);
    let up = MouseEvent { kind: MouseEventKind::ScrollUp };
    for _ in 0..3 {
        assert!(runner.handle_mouse_event(&up));
    }
    assert_eq!(runner.scroll_offset(), 3);
    runner.handle_key_event(&press(KeyCode::PageDown), false);
    assert_eq!(runner.scroll_offset(), 0);
}

#[test]
fn mouse_wheel_scrolls_by_one_line() {
    let mut runner = runner_for("yes");
    let up = MouseEvent { kind: MouseEventKind::ScrollUp };
    let down = MouseEvent { kind: MouseEventKind::ScrollDown };
    let other = MouseEvent { kind: MouseEventKind::Other };
    assert!(runner.handle_mouse_event(&down));
    assert_eq!(runner.scroll_offset(), 0);
    assert!(runner.handle_mouse_event(&up));
    assert!(runner.handle_mouse_event(&up));
    assert_eq!(runner.scroll_offset(), 2);
    assert!(runner.handle_mouse_event(&other));
    assert_eq!(runner.scroll_offset(), 2);
    assert!(runner.handle_mouse_event(&down));
    assert_eq!(runner.scroll_offset(), 1);
}

#[test]
fn screen_request_follows_the_inner_area() {
    let mut runner = runner_for("yes");
    runner.handle_key_event(&press(KeyCode::PageUp), false);
    let mut buffer = OutputBuffer::new();
    buffer.append(b"y\r\ny\r\n");
    let request = runner.screen(Size { width: 118, height: 38 }, &buffer);
    assert_eq!(
        request,
        ScreenRequest {
            pty_size: PtySize { rows: 38, cols: 118, pixel_width: 0, pixel_height: 0 },
            rows: 38,
            cols: 118,
            scrollback_len: 1000,
            input: b"y\r\ny\r\n",
            scrollback: 10,
        }
    );
}

#[test]
fn finished_with_has_no_child() {
    let mut runner = RunningCommand::finished_with(ExitStatus::with_exit_code(0));
    assert!(runner.is_finished(false));
    assert!(!runner.supervisor_present());
    assert!(!runner.kill_child(false));
    assert_eq!(runner.draw(false, None).banner, Banner::Success);
    assert_eq!(runner.script(), "");
}

#[test]
fn from_parts_keeps_what_it_is_given() {
    let mut runner = RunningCommand::from_parts(true, false, None);
    assert!(runner.supervisor_present());
    assert!(!runner.kill_child(false));
    assert_eq!(
        runner.get_exit_status(Some(ExitStatus::with_exit_code(7))).exit_code(),
        7
    );
}

#[test]
fn phases_follow_the_supervisor() {
    let mut runner = runner_for("true");
    assert_eq!(runner.phase(false), Phase::Running);
    assert_eq!(runner.phase(true), Phase::Finished);
    runner.kill_child(false);
    assert_eq!(runner.phase(false), Phase::Running);
    runner.handle_key_event(&press(KeyCode::Enter), false);
    assert_eq!(runner.phase(false), Phase::Running);
    runner.get_exit_status(None);
    assert_eq!(runner.phase(false), Phase::Finished);
}

#[test]
fn start_gives_the_runner_and_its_shell_command() {
    let a = Command::Raw("echo A".to_string());
    let b = Command::Raw("echo B".to_string());
    let (runner, command) = RunningCommand::start(&[&a, &b]).expect("the tasks are runnable");
    assert_eq!(runner.script(), "echo A\necho B\n");
    assert!(runner.supervisor_present());
    assert!(!runner.is_finished(false));
    let argv: Vec<String> =
        command.get_argv().iter().map(|arg| arg.to_string_lossy().into_owned()).collect();
    assert_eq!(argv, vec!["sh", "-c", "echo A\necho B\n"]);
    assert_eq!(command.get_env("TERM").and_then(|v| v.to_str()), Some("xterm-256color"));
}

#[test]
fn start_with_a_sentinel_starts_nothing() {
    let a = Command::Raw("echo A".to_string());
    let nothing = Command::Nothing;
    let b = Command::Raw("echo B".to_string());
    match RunningCommand::start(&[&a, &nothing, &b, &nothing]) {
        Ok(_) => panic!("a runner was started"),
        Err(error) => {
            assert_eq!(error, ComposeError::NoneAsCommand { index: 1 });
            assert_eq!(error.message(), "Command::None was treated as a command");
        }
    }
    assert!(RunningCommand::start(&[&nothing]).is_err());
    assert!(RunningCommand::start(&[]).is_ok());
}
