//! The plans of the build tasks of the project.
//!
//! A build task is a list of targets, built one after another with
//! `cargo build --release --target <target>`.  The first target that fails
//! to build ends the task with an error that names it.  On macOS the full
//! build also builds for both Apple architectures and sets the two binaries
//! side by side.

use crate::command::string_views;
use crate::text::same_text;
use vstd::prelude::*;

verus! {

/// A task that the build tool knows.
#[derive(Debug, Clone, Copy, PartialEq, Eq, Structural)]
pub enum Task {
    Docgen,
    Build,
    BuildCross,
    BuildLinux,
}

/// What a build task builds.
#[derive(Debug)]
pub struct BuildPlan {
    /// The targets, in the order in which they are built.
    pub targets: Vec<String>,
    /// After the targets are built, set the two macOS binaries side by
    /// side.
    pub package_macos: bool,
}

/// The Linux targets, in the order in which they are built.
pub open spec fn linux_targets() -> Seq<Seq<char>> {
    seq![
        "x86_64-unknown-linux-musl"@,
        "aarch64-unknown-linux-musl"@,
        "armv7-unknown-linux-musleabihf"@,
    ]
}

/// The Windows target.
pub open spec fn windows_target() -> Seq<char> {
    "x86_64-pc-windows-gnu"@
}

/// The macOS targets, in the order in which they are built.
pub open spec fn macos_targets() -> Seq<Seq<char>> {
    seq!["x86_64-apple-darwin"@, "aarch64-apple-darwin"@]
}

/// True when `platform` names macOS.
pub open spec fn is_macos(platform: Seq<char>) -> bool {
    platform == "macos"@
}

/// The targets of the full build on `platform`: Linux, then Windows, then,
/// on macOS, the two Apple architectures.
pub open spec fn full_targets(platform: Seq<char>) -> Seq<Seq<char>> {
    if is_macos(platform) {
        linux_targets().push(windows_target()) + macos_targets()
    } else {
        linux_targets().push(windows_target())
    }
}

/// The command line that builds `target`.
pub open spec fn build_argv(target: Seq<char>) -> Seq<Seq<char>> {
    seq!["cargo"@, "build"@, "--release"@, "--target"@, target]
}

/// The task that `name` stands for on the command line.
pub open spec fn task_named(name: Seq<char>) -> Option<Task> {
    if name == "docgen"@ {
        Some(Task::Docgen)
    } else if name == "build"@ {
        Some(Task::Build)
    } else if name == "build-cross"@ {
        Some(Task::BuildCross)
    } else if name == "build-linux"@ {
        Some(Task::BuildLinux)
    } else {
        None
    }
}

/// Adds the three Linux targets to `targets`.
fn push_linux_targets(targets: &mut Vec<String>)
    ensures
        string_views(final(targets)@) == string_views(old(targets)@) + linux_targets(),
{
    targets.push(String::from_str("x86_64-unknown-linux-musl"));
    targets.push(String::from_str("aarch64-unknown-linux-musl"));
    targets.push(String::from_str("armv7-unknown-linux-musleabihf"));
}

/// The plan of the full build on the platform named `platform`: the Linux
/// targets, the Windows target and, on macOS alone, the two Apple targets
/// and the packaging of their binaries.
pub fn build(platform: &str) -> (plan: BuildPlan)
    ensures
        string_views(plan.targets@) == full_targets(platform@),
        plan.package_macos == is_macos(platform@),
{
    let mut targets: Vec<String> = Vec::new();
    push_linux_targets(&mut targets);
    targets.push(String::from_str("x86_64-pc-windows-gnu"));
    let on_macos = same_text(platform, "macos");
    if on_macos {
        targets.push(String::from_str("x86_64-apple-darwin"));
        targets.push(String::from_str("aarch64-apple-darwin"));
    }
    BuildPlan { targets, package_macos: on_macos }
}

/// The plan of the cross build: the Linux targets, then the Windows
/// target.
pub fn build_cross() -> (plan: BuildPlan)
    ensures
        string_views(plan.targets@) == linux_targets().push(windows_target()),
        !plan.package_macos,
{
    let mut targets: Vec<String> = Vec::new();
    push_linux_targets(&mut targets);
    targets.push(String::from_str("x86_64-pc-windows-gnu"));
    BuildPlan { targets, package_macos: false }
}

/// The plan of the Linux build: the Linux targets alone.
pub fn build_linux() -> (plan: BuildPlan)
    ensures
        string_views(plan.targets@) == linux_targets(),
        !plan.package_macos,
{
    let mut targets: Vec<String> = Vec::new();
    push_linux_targets(&mut targets);
    BuildPlan { targets, package_macos: false }
}

/// The command line that builds `target`:
/// `cargo build --release --target <target>`.
pub fn build_command(target: &str) -> (argv: Vec<String>)
    ensures
        string_views(argv@) == build_argv(target@),
{
    let mut argv: Vec<String> = Vec::new();
    argv.push(String::from_str("cargo"));
    argv.push(String::from_str("build"));
    argv.push(String::from_str("--release"));
    argv.push(String::from_str("--target"));
    argv.push(String::from_str(target));
    argv
}

/// What the build of `target` means for the task: it goes on when the
/// build succeeded, and ends with an error that names the target when it
/// did not.
pub fn check_build(target: &str, succeeded: bool) -> (outcome: Result<(), String>)
    ensures
        outcome is Ok == succeeded,
        outcome matches Err(message) ==> message@ == "Failed to build for target: "@ + target@,
{
    if succeeded {
        Ok(())
    } else {
        let mut message = String::from_str("Failed to build for target: ");
        message.append(target);
        Err(message)
    }
}

/// The task that `name` stands for, or the error for a name that stands
/// for none.
pub fn parse_task(name: &str) -> (parsed: Result<Task, String>)
    ensures
        parsed is Ok == task_named(name@) is Some,
        parsed matches Ok(task) ==> task_named(name@) == Some(task),
        parsed matches Err(message) ==> message@ == "Invalid task: "@ + name@,
{
    if same_text(name, "docgen") {
        Ok(Task::Docgen)
    } else if same_text(name, "build") {
        Ok(Task::Build)
    } else if same_text(name, "build-cross") {
        Ok(Task::BuildCross)
    } else if same_text(name, "build-linux") {
        Ok(Task::BuildLinux)
    } else {
        let mut message = String::from_str("Invalid task: ");
        message.append(name);
        Err(message)
    }
}

/// The full build on any platform starts with the cross build, and the
/// cross build starts with the Linux build.
pub proof fn lemma_builds_nest(platform: Seq<char>)
    ensures
        full_targets(platform).take(4) == linux_targets().push(windows_target()),
        linux_targets().push(windows_target()).take(3) == linux_targets(),
{
}

/// Where the build leaves the macOS binary for Intel processors.
pub const MACOS_X86_64_BINARY: &'static str = "target/x86_64-apple-darwin/release/osutil";

/// Where the build leaves the macOS binary for Apple processors.
pub const MACOS_AARCH64_BINARY: &'static str = "target/aarch64-apple-darwin/release/osutil";

/// The directory in which the macOS binaries are set side by side.
pub const MACOS_OUT_DIR: &'static str = "target/release";

/// Where the universal macOS binary goes.
pub const MACOS_UNIVERSAL_BINARY: &'static str = "target/release/osutil";

/// The copies that set the macOS binaries side by side: each binary with
/// the place it is copied to.
pub open spec fn macos_copies() -> Seq<(Seq<char>, Seq<char>)> {
    seq![
        (
            "target/x86_64-apple-darwin/release/osutil"@,
            "target/release/osutil-macos-x86_64"@,
        ),
        (
            "target/aarch64-apple-darwin/release/osutil"@,
            "target/release/osutil-macos-arm64"@,
        ),
    ]
}

/// The command line that joins the two macOS binaries into one.
pub open spec fn lipo_argv() -> Seq<Seq<char>> {
    seq![
        "lipo"@,
        "-create"@,
        "target/x86_64-apple-darwin/release/osutil"@,
        "target/aarch64-apple-darwin/release/osutil"@,
        "-output"@,
        "target/release/osutil"@,
    ]
}

/// The error for macOS binaries of which one is missing; that for Intel
/// processors is looked for first.
pub open spec fn missing_binary(x86_64_exists: bool, aarch64_exists: bool) -> Option<Seq<char>> {
    if !x86_64_exists {
        Some("x86_64 macOS binary not found"@)
    } else if !aarch64_exists {
        Some("aarch64 macOS binary not found"@)
    } else {
        None
    }
}

/// Whether the macOS binaries can be packaged: both must be there.
pub fn check_macos_binaries(x86_64_exists: bool, aarch64_exists: bool) -> (outcome: Result<
    (),
    String,
>)
    ensures
        outcome is Ok == missing_binary(x86_64_exists, aarch64_exists) is None,
        outcome matches Err(message) ==> missing_binary(x86_64_exists, aarch64_exists) == Some(
            message@,
        ),
{
    if !x86_64_exists {
        Err(String::from_str("x86_64 macOS binary not found"))
    } else if !aarch64_exists {
        Err(String::from_str("aarch64 macOS binary not found"))
    } else {
        Ok(())
    }
}

/// The copies that set the macOS binaries side by side.
pub fn macos_artifacts() -> (copies: Vec<(String, String)>)
    ensures
        crate::shell::pair_views(copies@) == macos_copies(),
{
    let mut copies: Vec<(String, String)> = Vec::new();
    copies.push(
        (
            String::from_str("target/x86_64-apple-darwin/release/osutil"),
            String::from_str("target/release/osutil-macos-x86_64"),
        ),
    );
    copies.push(
        (
            String::from_str("target/aarch64-apple-darwin/release/osutil"),
            String::from_str("target/release/osutil-macos-arm64"),
        ),
    );
    copies
}

/// The command line that joins the two macOS binaries into one.
pub fn universal_binary_command() -> (argv: Vec<String>)
    ensures
        string_views(argv@) == lipo_argv(),
{
    let mut argv: Vec<String> = Vec::new();
    argv.push(String::from_str("lipo"));
    argv.push(String::from_str("-create"));
    argv.push(String::from_str("target/x86_64-apple-darwin/release/osutil"));
    argv.push(String::from_str("target/aarch64-apple-darwin/release/osutil"));
    argv.push(String::from_str("-output"));
    argv.push(String::from_str("target/release/osutil"));
    argv
}

} // verus!
