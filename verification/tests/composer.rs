use osutil::command::{compose, compose_script, first_none, Command, ComposeError};

fn raw(text: &str) -> Command {
    Command::Raw(text.to_string())
}

fn local(executable: &str, args: &[&str], file: &str) -> Command {
    Command::LocalFile {
        executable: executable.to_string(),
        args: args.iter().map(|a| a.to_string()).collect(),
        file: file.to_string(),
    }
}

#[test]
fn raw_task_is_its_text_and_a_newline() {
    let task = raw("echo hello");
    assert_eq!(compose_script(&[&task]), Ok("echo hello\n".to_string()));
}

#[test]
fn script_with_cd() {
    let task = local("./run.sh", &["-e", "./run.sh"], "/tmp/demo/run.sh");
    let script = compose_script(&[&task]).unwrap();
    assert_eq!(script, "cd /tmp/demo\n./run.sh -e ./run.sh\n");
    assert!(script.starts_with("cd /tmp/demo\n./run.sh -e ./run.sh\n"));
}

#[test]
fn merged_tasks_keep_their_order() {
    let first = raw("echo A");
    let second = raw("echo B");
    let script = compose_script(&[&first, &second]).unwrap();
    assert_eq!(script, "echo A\necho B\n");
    assert!(script.find("echo A").unwrap() < script.find("echo B").unwrap());
}

#[test]
fn merged_script_is_the_scripts_in_a_row() {
    let first = raw("apt update");
    let second = local("/bin/sh", &["-e", "/srv/tabs/a.sh"], "/srv/tabs/a.sh");
    let third = raw("echo done");
    let whole = compose_script(&[&first, &second, &third]).unwrap();
    let front = compose_script(&[&first]).unwrap();
    let back = compose_script(&[&second, &third]).unwrap();
    assert_eq!(whole, format!("{front}{back}"));
    assert_eq!(whole, "apt update\ncd /srv/tabs\n/bin/sh -e /srv/tabs/a.sh\necho done\n");
}

#[test]
fn composing_twice_gives_the_same_script() {
    let first = local("bash", &["x y", "z"], "/opt/tool/run.sh");
    let second = raw("true");
    let copy_first = first.clone();
    let copy_second = second.clone();
    assert_eq!(
        compose_script(&[&first, &second]),
        compose_script(&[&copy_first, &copy_second])
    );
}

#[test]
fn local_file_without_args_has_no_trailing_space() {
    let task = local("/usr/bin/env", &[], "/usr/bin/env");
    assert_eq!(compose_script(&[&task]).unwrap(), "cd /usr/bin\n/usr/bin/env\n");
}

#[test]
fn arguments_are_neither_quoted_nor_escaped() {
    let task = local("sh", &["-c", "echo 'a b' && ls $HOME"], "/x/y.sh");
    assert_eq!(
        compose_script(&[&task]).unwrap(),
        "cd /x\nsh -c echo 'a b' && ls $HOME\n"
    );
}

#[test]
fn file_without_parent_has_no_cd_line() {
    let task = local("ls", &["-l"], "/");
    assert_eq!(compose_script(&[&task]).unwrap(), "ls -l\n");
}

#[test]
fn bare_file_name_has_an_empty_parent() {
    let task = local("./run.sh", &[], "run.sh");
    assert_eq!(compose_script(&[&task]).unwrap(), "cd \n./run.sh\n");
}

#[test]
fn empty_list_has_an_empty_script() {
    assert_eq!(compose_script(&[]), Ok(String::new()));
}

#[test]
fn compose_rejects_sentinel() {
    let first = raw("echo A");
    let second = Command::Nothing;
    let third = raw("echo B");
    let composed = compose_script(&[&first, &second, &third]);
    assert_eq!(composed, Err(ComposeError::NoneAsCommand { index: 1 }));
}

#[test]
fn compose_names_the_first_sentinel() {
    let nothing = Command::Nothing;
    let task = raw("echo A");
    assert_eq!(
        compose_script(&[&nothing, &task, &nothing]),
        Err(ComposeError::NoneAsCommand { index: 0 })
    );
    assert_eq!(first_none(&[&task, &task, &nothing]), Some(2));
    assert_eq!(first_none(&[&task, &task]), None);
}

#[test]
fn sentinel_error_has_a_recognizable_text() {
    let error = ComposeError::NoneAsCommand { index: 3 };
    assert_eq!(error.message(), "Command::None was treated as a command");
}

#[test]
fn compose_of_runnable_tasks_matches_compose_script() {
    let first = raw("echo A");
    let second = local("./b.sh", &["1"], "/w/b.sh");
    assert_eq!(
        compose(&[&first, &second]),
        compose_script(&[&first, &second]).unwrap()
    );
}
