use osutil::tasks::{
    build, build_command, build_cross, build_linux, check_build, check_macos_binaries,
    macos_artifacts, parse_task, universal_binary_command, Task, MACOS_AARCH64_BINARY,
    MACOS_OUT_DIR, MACOS_UNIVERSAL_BINARY, MACOS_X86_64_BINARY,
};

const LINUX: [&str; 3] = [
    "x86_64-unknown-linux-musl",
    "aarch64-unknown-linux-musl",
    "armv7-unknown-linux-musleabihf",
];

#[test]
fn linux_build_has_the_three_linux_targets() {
    let plan = build_linux();
    assert_eq!(plan.targets, LINUX.to_vec());
    assert!(!plan.package_macos);
}

#[test]
fn cross_build_adds_windows() {
    let plan = build_cross();
    let mut expected = LINUX.to_vec();
    expected.push("x86_64-pc-windows-gnu");
    assert_eq!(plan.targets, expected);
    assert!(!plan.package_macos);
}

#[test]
fn full_build_off_macos_is_the_cross_build() {
    for platform in ["linux", "windows", "freebsd", "", "macOS", "macos "] {
        let plan = build(platform);
        assert_eq!(plan.targets, build_cross().targets);
        assert!(!plan.package_macos);
    }
}

#[test]
fn full_build_on_macos_adds_the_apple_targets() {
    let plan = build("macos");
    let mut expected = LINUX.to_vec();
    expected.push("x86_64-pc-windows-gnu");
    expected.push("x86_64-apple-darwin");
    expected.push("aarch64-apple-darwin");
    assert_eq!(plan.targets, expected);
    assert!(plan.package_macos);
}

#[test]
fn build_command_is_cargo_build_release_target() {
    assert_eq!(
        build_command("x86_64-pc-windows-gnu"),
        vec!["cargo", "build", "--release", "--target", "x86_64-pc-windows-gnu"]
    );
}

#[test]
fn failed_build_names_the_target() {
    assert_eq!(check_build("x86_64-apple-darwin", true), Ok(()));
    assert_eq!(
        check_build("x86_64-apple-darwin", false),
        Err("Failed to build for target: x86_64-apple-darwin".to_string())
    );
}

#[test]
fn task_names() {
    assert_eq!(parse_task("docgen"), Ok(Task::Docgen));
    assert_eq!(parse_task("build"), Ok(Task::Build));
    assert_eq!(parse_task("build-cross"), Ok(Task::BuildCross));
    assert_eq!(parse_task("build-linux"), Ok(Task::BuildLinux));
    assert_eq!(parse_task("deploy"), Err("Invalid task: deploy".to_string()));
    assert_eq!(parse_task(""), Err("Invalid task: ".to_string()));
    assert_eq!(parse_task("Build"), Err("Invalid task: Build".to_string()));
}

#[test]
fn macos_packaging_needs_both_binaries() {
    assert_eq!(check_macos_binaries(true, true), Ok(()));
    assert_eq!(
        check_macos_binaries(false, true),
        Err("x86_64 macOS binary not found".to_string())
    );
    assert_eq!(
        check_macos_binaries(true, false),
        Err("aarch64 macOS binary not found".to_string())
    );
    assert_eq!(
        check_macos_binaries(false, false),
        Err("x86_64 macOS binary not found".to_string())
    );
}

#[test]
fn macos_binaries_are_set_side_by_side() {
    let copies = macos_artifacts();
    let copies: Vec<(&str, &str)> =
        copies.iter().map(|(from, to)| (from.as_str(), to.as_str())).collect();
    assert_eq!(
        copies,
        vec![
            (MACOS_X86_64_BINARY, "target/release/osutil-macos-x86_64"),
            (MACOS_AARCH64_BINARY, "target/release/osutil-macos-arm64"),
        ]
    );
    assert_eq!(MACOS_X86_64_BINARY, "target/x86_64-apple-darwin/release/osutil");
    assert_eq!(MACOS_AARCH64_BINARY, "target/aarch64-apple-darwin/release/osutil");
    assert_eq!(MACOS_OUT_DIR, "target/release");
}

#[test]
fn universal_binary_is_made_by_lipo() {
    assert_eq!(
        universal_binary_command(),
        vec![
            "lipo",
            "-create",
            MACOS_X86_64_BINARY,
            MACOS_AARCH64_BINARY,
            "-output",
            MACOS_UNIVERSAL_BINARY,
        ]
    );
    assert_eq!(MACOS_UNIVERSAL_BINARY, "target/release/osutil");
}
