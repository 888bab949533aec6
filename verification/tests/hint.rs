use osutil::command::Command;
use osutil::exit_status::ExitStatus;
use osutil::hint::{shortcut_list, Shortcut};
use osutil::running_command::RunningCommand;

fn plain(shortcuts: &[Shortcut]) -> Vec<(&str, Vec<&str>)> {
    shortcuts
        .iter()
        .map(|s| (s.desc.as_str(), s.key_sequences.iter().map(|k| k.as_str()).collect()))
        .collect()
}

#[test]
fn running_command_can_be_killed_and_scrolled() {
    let (title, shortcuts) = shortcut_list(false);
    assert_eq!(title, "Running command");
    assert_eq!(
        plain(&shortcuts),
        vec![
            ("Kill the command", vec!["CTRL-c"]),
            ("Scroll up", vec!["Page up"]),
            ("Scroll down", vec!["Page down"]),
        ]
    );
}

#[test]
fn finished_command_can_be_closed_scrolled_and_saved() {
    let (title, shortcuts) = shortcut_list(true);
    assert_eq!(title, "Finished command");
    assert_eq!(
        plain(&shortcuts),
        vec![
            ("Close window", vec!["Enter", "q"]),
            ("Scroll up", vec!["Page up"]),
            ("Scroll down", vec!["Page down"]),
            ("Save log", vec!["l"]),
        ]
    );
}

#[test]
fn runner_hint_follows_its_state() {
    let task = Command::Raw("true".to_string());
    let mut runner = RunningCommand::new(&[&task]);
    assert_eq!(runner.get_shortcut_list(false).0, "Running command");
    assert_eq!(runner.get_shortcut_list(true).0, "Finished command");
    runner.get_exit_status(Some(ExitStatus::with_exit_code(0)));
    let (title, shortcuts) = runner.get_shortcut_list(false);
    assert_eq!(title, "Finished command");
    assert_eq!(shortcuts.len(), 4);
}
