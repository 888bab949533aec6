use osutil::command::Command;
use osutil::exit_status::ExitStatus;
use osutil::windows_runner::{WaitOutcome, WindowsCommandRunner, PIPE_CHUNK};

fn pairs(env: &[(String, String)]) -> Vec<(&str, &str)> {
    env.iter().map(|(k, v)| (k.as_str(), v.as_str())).collect()
}

#[test]
fn raw_command_goes_to_the_command_interpreter() {
    let runner = WindowsCommandRunner::new(&Command::Raw("dir C:\\".to_string()));
    assert_eq!(runner.program(), "cmd.exe");
    assert_eq!(runner.args(), &vec!["/c".to_string(), "dir C:\\".to_string()]);
    assert_eq!(runner.working_dir(), None);
    assert_eq!(runner.child_pid(), None);
}

#[test]
fn local_file_runs_in_its_directory() {
    let command = Command::LocalFile {
        executable: "powershell.exe".to_string(),
        args: vec!["-File".to_string(), "/srv/tabs/setup.ps1".to_string()],
        file: "/srv/tabs/setup.ps1".to_string(),
    };
    let runner = WindowsCommandRunner::new(&command);
    assert_eq!(runner.program(), "powershell.exe");
    assert_eq!(
        runner.args(),
        &vec!["-File".to_string(), "/srv/tabs/setup.ps1".to_string()]
    );
    assert_eq!(runner.working_dir(), Some("/srv/tabs"));
}

#[test]
fn child_environment_marks_the_interface() {
    let runner = WindowsCommandRunner::new(&Command::Raw("ver".to_string()));
    assert_eq!(
        pairs(runner.env()),
        vec![
            ("TERM", "xterm-256color"),
            ("COLORTERM", "truecolor"),
            ("OSUTIL_TUI_MODE", "1"),
            ("ANSICON", "1"),
        ]
    );
}

#[test]
fn pipe_chunk_is_1_kib() {
    assert_eq!(PIPE_CHUNK, 1024);
}

#[test]
fn spawn_failure_shows_the_error_and_reports_failure() {
    let mut runner = WindowsCommandRunner::new(&Command::Raw("nope".to_string()));
    let output = runner.spawn_failed("program not found");
    assert_eq!(
        output,
        b"Failed to execute command: program not found\r\n".to_vec()
    );
    assert_eq!(runner.child_pid(), None);
    assert_eq!(runner.get_exit_status(None), ExitStatus::with_exit_code(1));
    assert_eq!(
        runner.get_exit_status(Some(ExitStatus::with_exit_code(0))),
        ExitStatus::with_exit_code(1)
    );
    let mut window = runner.into_running_command();
    assert!(window.is_finished(false));
    assert!(!window.kill_child(false));
    assert!(!window.get_exit_status(None).success());
}

#[test]
fn spawn_failure_text_is_utf8() {
    let mut runner = WindowsCommandRunner::new(&Command::Raw("nope".to_string()));
    let output = runner.spawn_failed("Zugriff verweigert: é");
    assert_eq!(
        output,
        "Failed to execute command: Zugriff verweigert: é\r\n".as_bytes().to_vec()
    );
}

#[test]
fn spawn_success_keeps_the_pid() {
    let mut runner = WindowsCommandRunner::new(&Command::Raw("ver".to_string()));
    runner.spawn_succeeded(4242);
    assert_eq!(runner.child_pid(), Some(4242));
    assert_eq!(
        runner.get_exit_status(Some(ExitStatus::with_exit_code(5))),
        ExitStatus::with_exit_code(5)
    );
    assert_eq!(runner.get_exit_status(None), ExitStatus::with_exit_code(5));
}

#[test]
fn window_of_a_started_child_can_kill_once() {
    let mut runner = WindowsCommandRunner::new(&Command::Raw("ver".to_string()));
    runner.spawn_succeeded(7);
    let mut window = runner.into_running_command();
    assert!(!window.is_finished(false));
    assert!(window.kill_child(false));
    assert!(!window.kill_child(false));
}

#[test]
fn wait_outcomes_become_exit_statuses() {
    assert_eq!(
        WindowsCommandRunner::exit_status_from_wait(WaitOutcome::Exited(Some(0))),
        ExitStatus::with_exit_code(0)
    );
    assert_eq!(
        WindowsCommandRunner::exit_status_from_wait(WaitOutcome::Exited(Some(3))),
        ExitStatus::with_exit_code(3)
    );
    assert_eq!(
        WindowsCommandRunner::exit_status_from_wait(WaitOutcome::Exited(Some(-1))),
        ExitStatus::with_exit_code(u32::MAX)
    );
    assert_eq!(
        WindowsCommandRunner::exit_status_from_wait(WaitOutcome::Exited(Some(i32::MIN))),
        ExitStatus::with_exit_code(0x8000_0000)
    );
    assert_eq!(
        WindowsCommandRunner::exit_status_from_wait(WaitOutcome::Exited(None)),
        ExitStatus::with_exit_code(1)
    );
    assert_eq!(
        WindowsCommandRunner::exit_status_from_wait(WaitOutcome::Failed),
        ExitStatus::with_exit_code(1)
    );
}
