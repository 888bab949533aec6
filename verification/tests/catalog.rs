use osutil::catalog::{
    fallback_tabs_file, filter_entries, has_script_extension, platform_tabs_file, script_file,
    tab_data_file, Check, Entry, EntryType, Finding, Precondition, SystemDataType,
};

fn strings(words: &[&str]) -> Vec<String> {
    words.iter().map(|w| w.to_string()).collect()
}

fn check(matches: bool, data: SystemDataType, values: &[&str], finding: Finding) -> Check {
    Check { precondition: Precondition { matches, data, values: strings(values) }, finding }
}

fn entry(name: &str, entry_type: EntryType) -> Entry {
    Entry {
        name: name.to_string(),
        description: format!("about {name}"),
        preconditions: None,
        entry_type,
        task_list: String::new(),
        multi_select: true,
    }
}

fn command(name: &str) -> Entry {
    entry(name, EntryType::Command(format!("run {name}")))
}

fn unsupported(mut e: Entry) -> Entry {
    e.preconditions = Some(vec![check(
        true,
        SystemDataType::CommandExists,
        &["pacman"],
        Finding::Present(vec![false]),
    )]);
    e
}

fn names(entries: &[Entry]) -> Vec<&str> {
    entries.iter().map(|e| e.name.as_str()).collect()
}

#[test]
fn environment_condition() {
    let env = || SystemDataType::Environment("XDG_SESSION_TYPE".to_string());
    let found = |v: &str| Finding::Variable(Some(v.to_string()));
    assert!(check(true, env(), &["wayland", "x11"], found("x11")).holds());
    assert!(!check(true, env(), &["wayland"], found("x11")).holds());
    assert!(check(false, env(), &["wayland"], found("x11")).holds());
    assert!(!check(false, env(), &["wayland", "x11"], found("x11")).holds());
    assert!(!check(true, env(), &["x11"], Finding::Variable(None)).holds());
    assert!(!check(false, env(), &["x11"], Finding::Variable(None)).holds());
}

#[test]
fn file_content_condition() {
    let file = || SystemDataType::ContainingFile("/etc/os-release".to_string());
    let found = |v: &str| Finding::Content(Some(v.to_string()));
    assert!(check(true, file(), &["ID=arch"], found("NAME=Arch\nID=arch\n")).holds());
    assert!(check(true, file(), &["ID=arch", "NAME"], found("NAME=Arch\nID=arch\n")).holds());
    assert!(!check(true, file(), &["ID=arch", "ID=debian"], found("ID=arch\n")).holds());
    assert!(check(false, file(), &["debian", "fedora"], found("ID=arch\n")).holds());
    assert!(!check(false, file(), &["debian", "arch"], found("ID=arch\n")).holds());
    assert!(!check(true, file(), &["ID=arch"], Finding::Content(None)).holds());
    assert!(check(true, file(), &[], found("")).holds());
}

#[test]
fn command_condition() {
    let data = || SystemDataType::CommandExists;
    assert!(check(true, data(), &["apt", "dpkg"], Finding::Present(vec![true, true])).holds());
    assert!(!check(true, data(), &["apt", "dpkg"], Finding::Present(vec![true, false])).holds());
    assert!(check(false, data(), &["apt", "dnf"], Finding::Present(vec![false, false])).holds());
    assert!(!check(false, data(), &["apt", "dnf"], Finding::Present(vec![false, true])).holds());
    assert!(!check(true, data(), &["apt", "dnf"], Finding::Present(vec![true])).holds());
}

#[test]
fn file_condition_ignores_matches() {
    let data = || SystemDataType::FileExists;
    assert!(check(true, data(), &["/a", "/b"], Finding::Present(vec![true, true])).holds());
    assert!(check(false, data(), &["/a", "/b"], Finding::Present(vec![true, true])).holds());
    assert!(!check(false, data(), &["/a", "/b"], Finding::Present(vec![false, false])).holds());
    assert!(!check(true, data(), &["/a", "/b"], Finding::Present(vec![true, false])).holds());
}

#[test]
fn finding_of_another_kind_meets_nothing() {
    assert!(!check(
        true,
        SystemDataType::FileExists,
        &[],
        Finding::Variable(Some("x".to_string()))
    )
    .holds());
    assert!(!check(
        true,
        SystemDataType::Environment("HOME".to_string()),
        &["x"],
        Finding::Present(vec![true])
    )
    .holds());
}

#[test]
fn entry_without_conditions_is_supported() {
    assert!(command("a").is_supported());
    let mut no_checks = command("b");
    no_checks.preconditions = Some(Vec::new());
    assert!(no_checks.is_supported());
    assert!(!unsupported(command("c")).is_supported());
}

#[test]
fn entry_needs_all_its_conditions() {
    let mut e = command("a");
    e.preconditions = Some(vec![
        check(true, SystemDataType::CommandExists, &["apt"], Finding::Present(vec![true])),
        check(true, SystemDataType::FileExists, &["/etc/apt"], Finding::Present(vec![false])),
    ]);
    assert!(!e.is_supported());
    e.preconditions = Some(vec![
        check(true, SystemDataType::CommandExists, &["apt"], Finding::Present(vec![true])),
        check(true, SystemDataType::FileExists, &["/etc/apt"], Finding::Present(vec![true])),
    ]);
    assert!(e.is_supported());
}

#[test]
fn filter_keeps_supported_entries_in_order() {
    let mut entries = vec![
        command("a"),
        unsupported(command("b")),
        command("c"),
        unsupported(command("d")),
        command("e"),
    ];
    filter_entries(&mut entries);
    assert_eq!(names(&entries), vec!["a", "c", "e"]);
}

#[test]
fn filter_drops_groups_that_end_up_empty() {
    let empty_group = entry("empty", EntryType::Entries(Vec::new()));
    let dead_group = entry(
        "dead",
        EntryType::Entries(vec![unsupported(command("x")), unsupported(command("y"))]),
    );
    let nested_dead = entry(
        "nested",
        EntryType::Entries(vec![entry(
            "inner",
            EntryType::Entries(vec![unsupported(command("z"))]),
        )]),
    );
    let live_group = entry(
        "live",
        EntryType::Entries(vec![unsupported(command("p")), command("q"), command("r")]),
    );
    let hidden_group = unsupported(entry("hidden", EntryType::Entries(vec![command("s")])));
    let mut entries = vec![empty_group, dead_group, nested_dead, live_group, hidden_group];
    filter_entries(&mut entries);
    assert_eq!(names(&entries), vec!["live"]);
    match &entries[0].entry_type {
        EntryType::Entries(children) => assert_eq!(names(children), vec!["q", "r"]),
        _ => panic!("a group stays a group"),
    }
}

#[test]
fn filter_of_nothing_is_nothing() {
    let mut entries: Vec<Entry> = Vec::new();
    filter_entries(&mut entries);
    assert!(entries.is_empty());
}

#[test]
fn filter_keeps_scripts_whatever_their_start() {
    let mut entries = vec![
        entry("s", EntryType::Script { file: "/t/s.sh".to_string(), start: None }),
        unsupported(entry("t", EntryType::Script { file: "/t/t.sh".to_string(), start: None })),
    ];
    filter_entries(&mut entries);
    assert_eq!(names(&entries), vec!["s"]);
}

#[test]
fn tab_files_of_a_catalog() {
    assert_eq!(platform_tabs_file("/tmp/x", "linux"), "/tmp/x/linux/tabs.toml");
    assert_eq!(fallback_tabs_file("/tmp/x"), "/tmp/x/tabs.toml");
    assert_eq!(
        tab_data_file("/tmp/x", "linux", "system-setup", true),
        "/tmp/x/linux/system-setup/tab_data.toml"
    );
    assert_eq!(
        tab_data_file("/tmp/x", "linux", "system-setup", false),
        "/tmp/x/system-setup/tab_data.toml"
    );
}

#[test]
fn scripts_have_the_extension_of_the_platform() {
    assert_eq!(script_file("/t/system", "setup", false), "/t/system/setup.sh");
    assert_eq!(script_file("/t/system", "fixes/wifi.bash", false), "/t/system/fixes/wifi.sh");
    assert_eq!(script_file("/t/system", "setup", true), "/t/system/setup.ps1");
    assert_eq!(script_file("/t/system", "setup.sh", true), "/t/system/setup.ps1");
}

#[test]
fn script_extension_is_recognised() {
    assert!(has_script_extension("/t/a.sh", false));
    assert!(!has_script_extension("/t/a.sh", true));
    assert!(has_script_extension("/t/a.ps1", true));
    assert!(!has_script_extension("/t/a.ps1", false));
    assert!(!has_script_extension("/t/a", false));
    assert!(!has_script_extension("/t/.sh", false));
    assert!(!has_script_extension("/t/a.sh.bak", false));
}

#[test]
fn filter_keeps_the_conditions_of_what_stays() {
    let met = || {
        check(true, SystemDataType::CommandExists, &["sh"], Finding::Present(vec![true]))
    };
    let mut leaf = command("a");
    leaf.preconditions = Some(vec![met()]);
    let mut group = entry("g", EntryType::Entries(vec![command("b"), unsupported(command("c"))]));
    group.preconditions = Some(vec![met(), met()]);
    let mut entries = vec![leaf, group];
    filter_entries(&mut entries);
    assert_eq!(names(&entries), vec!["a", "g"]);
    let kept = entries[0].preconditions.as_ref().expect("the conditions are gone");
    assert_eq!(kept.len(), 1);
    assert!(kept[0].precondition.matches);
    assert_eq!(kept[0].precondition.values, strings(&["sh"]));
    assert!(matches!(kept[0].precondition.data, SystemDataType::CommandExists));
    assert!(matches!(&kept[0].finding, Finding::Present(flags) if flags == &vec![true]));
    assert_eq!(entries[1].preconditions.as_ref().map(|checks| checks.len()), Some(2));
}
