//! Starting a script in a terminal window of its own.
//!
//! On Windows a script can be handed to PowerShell in a new window instead
//! of being run inside the interface.  The window of the runner then shows
//! a short report: that the script was started, or why it was not.

use crate::command::{string_views, Command, CommandView};
use crate::exit_status::{ExitStatus, ExitStatusView};
use crate::paths::{file_name_of, path_file_name};
use crate::running_command::{RunnerView, RunningCommand};
use vstd::prelude::*;
use vstd::utf8::{
    decode_utf8, encode_utf8, encode_utf8_decode_utf8, encode_utf8_valid_utf8, is_char_boundary,
};

verus! {

/// Where PowerShell was looked for, and whether it was found there.
#[derive(Debug, Clone, Copy, PartialEq, Eq, Structural)]
pub struct PowerShellProbe {
    /// `pwsh.exe` can be found as a command.
    pub pwsh_on_path: bool,
    /// `pwsh.exe` is installed below `Program Files`.
    pub pwsh_in_program_files: bool,
    /// `pwsh.exe` is installed below `Program Files (x86)`.
    pub pwsh_in_program_files_x86: bool,
    /// `powershell.exe` can be found as a command.
    pub powershell_on_path: bool,
    /// `powershell.exe` is installed in the system directory.
    pub powershell_in_system: bool,
}

/// Why a script is not started in a window of its own.
#[derive(Debug, Clone, Copy, PartialEq, Eq, Structural)]
pub enum LaunchRefusal {
    /// The command is no local file.
    NotLocalFile,
    /// No PowerShell is installed.
    NoPowerShell,
}

/// How the start of a script in a window of its own ended.
#[derive(Debug)]
pub enum LaunchOutcome {
    /// It was not tried.
    Refused(LaunchRefusal),
    /// The window was started.  `name` is the name of the script as it is
    /// shown.
    Launched { name: String },
    /// The window could not be started.  `error` is the error as it is
    /// shown.
    Failed { error: String },
}

/// The mathematical value of a [`LaunchOutcome`].
pub enum LaunchOutcomeView {
    Refused(LaunchRefusal),
    Launched { name: Seq<char> },
    Failed { error: Seq<char> },
}

impl View for LaunchOutcome {
    type V = LaunchOutcomeView;

    open spec fn view(&self) -> LaunchOutcomeView {
        match self {
            LaunchOutcome::Refused(refusal) => LaunchOutcomeView::Refused(*refusal),
            LaunchOutcome::Launched { name } => LaunchOutcomeView::Launched { name: name@ },
            LaunchOutcome::Failed { error } => LaunchOutcomeView::Failed { error: error@ },
        }
    }
}

/// The longest name that is shown in full when the catalog named the
/// script, in bytes.
pub const NAME_LIMIT: usize = 25;

/// How many bytes of a longer name are shown.
pub const NAME_KEPT: usize = 22;

/// The longest file name that is shown in full, in bytes.
pub const FILE_NAME_LIMIT: usize = 15;

/// How many bytes of a longer file name are shown.
pub const FILE_NAME_KEPT: usize = 12;

/// The longest error that is shown in full, in bytes.
pub const ERROR_LIMIT: usize = 20;

/// How many bytes of a longer error are shown.
pub const ERROR_KEPT: usize = 17;

/// The PowerShell to use: version 7 where it is found, else version 5
/// where that is found.
pub open spec fn powershell_choice(probe: PowerShellProbe) -> Option<Seq<char>> {
    if probe.pwsh_on_path || probe.pwsh_in_program_files || probe.pwsh_in_program_files_x86 {
        Some("pwsh.exe"@)
    } else if probe.powershell_on_path || probe.powershell_in_system {
        Some("powershell.exe"@)
    } else {
        None
    }
}

/// `text` as it is shown where there is room for `limit` bytes: in full
/// where its encoding is no longer than that, else its first `keep` bytes
/// and three dots.  `None` where the cut would fall inside a character.
pub open spec fn shortened(text: Seq<char>, limit: nat, keep: nat) -> Option<Seq<char>> {
    let bytes = encode_utf8(text);
    if bytes.len() <= limit {
        Some(text)
    } else if is_char_boundary(bytes, keep as int) {
        Some(decode_utf8(bytes.subrange(0, keep as int)) + "..."@)
    } else {
        None
    }
}

/// The command line that starts `file` with `powershell` in a new window.
pub open spec fn launch_argv(powershell: Seq<char>, file: Seq<char>) -> Seq<Seq<char>> {
    seq![
        "cmd"@,
        "/c"@,
        "start"@,
        powershell,
        "-ExecutionPolicy"@,
        "Bypass"@,
        "-File"@,
        file,
    ]
}

/// The command line for `command` and the PowerShell that was found, or the
/// reason why there is none.  A command that is no local file is refused
/// first.
pub open spec fn launch_plan(command: CommandView, powershell: Option<Seq<char>>) -> Result<
    Seq<Seq<char>>,
    LaunchRefusal,
> {
    match command {
        CommandView::LocalFile { file, .. } => match powershell {
            Some(exe) => Ok(launch_argv(exe, file)),
            None => Err(LaunchRefusal::NoPowerShell),
        },
        _ => Err(LaunchRefusal::NotLocalFile),
    }
}

/// The report that the window shows.
pub open spec fn launch_message(outcome: LaunchOutcomeView) -> Seq<char> {
    match outcome {
        LaunchOutcomeView::Refused(LaunchRefusal::NotLocalFile) =>
            "ERROR!\r\n\r\nCannot launch in separate terminal.\r\n\r\nFalling back to TUI..."@,
        LaunchOutcomeView::Refused(LaunchRefusal::NoPowerShell) =>
            "ERROR!\r\n\r\nNo PowerShell installation found.\r\n\r\nPlease install PowerShell 7 from: https://github.com/PowerShell/PowerShell/releases\r\n\r\nOr ensure PowerShell 5 is available in the system PATH.\r\n\r\nPress Enter to continue..."@,
        LaunchOutcomeView::Launched { name } => "SUCCESS!\r\n\r\nScript '"@ + name
            + "' launched in separate terminal.\r\n\r\nPress Enter to continue..."@,
        LaunchOutcomeView::Failed { error } => "ERROR!\r\n\r\nFailed to launch script: "@ + error
            + ".\r\n\r\nFalling back to TUI..."@,
    }
}

/// The exit code that the window reports: success where the script was
/// started, failure in every other case.
pub open spec fn launch_code(outcome: LaunchOutcomeView) -> u32 {
    match outcome {
        LaunchOutcomeView::Launched { .. } => 0,
        _ => 1,
    }
}

/// The PowerShell to use, as [`powershell_choice`] says.
pub fn get_powershell_executable(probe: &PowerShellProbe) -> (exe: Option<String>)
    ensures
        exe is Some == powershell_choice(*probe) is Some,
        exe matches Some(name) ==> powershell_choice(*probe) == Some(name@),
{
    if probe.pwsh_on_path || probe.pwsh_in_program_files || probe.pwsh_in_program_files_x86 {
        Some(String::from_str("pwsh.exe"))
    } else if probe.powershell_on_path || probe.powershell_in_system {
        Some(String::from_str("powershell.exe"))
    } else {
        None
    }
}

/// `text` as it is shown where there is room for `limit` bytes, as
/// [`shortened`] says.
pub fn shorten(text: &str, limit: usize, keep: usize) -> (shown: Option<String>)
    ensures
        shown is Some == shortened(text@, limit as nat, keep as nat) is Some,
        shown matches Some(s) ==> shortened(text@, limit as nat, keep as nat) == Some(s@),
{
    if text.as_bytes().len() <= limit {
        Some(String::from_str(text))
    } else if text.is_char_boundary(keep) {
        let (head, _tail) = text.split_at(keep);
        proof {
            encode_utf8_decode_utf8(head@);
        }
        let mut shown = String::from_str(head);
        shown.append("...");
        Some(shown)
    } else {
        None
    }
}

/// The name of a script as the report shows it: the name from the catalog
/// where there is one, shortened to [`NAME_LIMIT`], else the name of the
/// file, shortened to [`FILE_NAME_LIMIT`].
pub open spec fn shown_name(script_name: Option<Seq<char>>, file_name: Seq<char>) -> Option<
    Seq<char>,
> {
    match script_name {
        Some(name) => shortened(name, NAME_LIMIT as nat, NAME_KEPT as nat),
        None => shortened(file_name, FILE_NAME_LIMIT as nat, FILE_NAME_KEPT as nat),
    }
}

/// The name of a script as the report shows it, as [`shown_name`] says.
pub fn display_name(script_name: Option<&str>, file_name: &str) -> (shown: Option<String>)
    ensures
        shown is Some == shown_name(optional_text(script_name), file_name@) is Some,
        shown matches Some(s) ==> shown_name(optional_text(script_name), file_name@) == Some(
            s@,
        ),
{
    match script_name {
        Some(name) => shorten(name, NAME_LIMIT, NAME_KEPT),
        None => shorten(file_name, FILE_NAME_LIMIT, FILE_NAME_KEPT),
    }
}

/// The name of the file of a script: the last component of the path of a
/// local file, and the empty text where the path has none or the command is
/// no local file.
pub open spec fn script_file_name(command: CommandView) -> Seq<char> {
    match command {
        CommandView::LocalFile { file, .. } => match path_file_name(file) {
            Some(name) => name,
            None => Seq::empty(),
        },
        _ => Seq::empty(),
    }
}

/// The name under which the report shows `command`: the name from the
/// catalog where there is one, else the name of its file, shortened as
/// [`shown_name`] says.
pub fn launched_name(command: &Command, script_name: Option<&str>) -> (shown: Option<String>)
    ensures
        shown is Some == shown_name(optional_text(script_name), script_file_name(command@))
            is Some,
        shown matches Some(s) ==> shown_name(
            optional_text(script_name),
            script_file_name(command@),
        ) == Some(s@),
{
    let file_name = match command {
        Command::LocalFile { executable: _, args: _, file } => match file_name_of(file.as_str()) {
            Some(name) => name,
            None => String::new(),
        },
        _ => String::new(),
    };
    display_name(script_name, file_name.as_str())
}

/// An error as the report shows it, shortened to [`ERROR_LIMIT`].
pub fn display_error(error: &str) -> (shown: Option<String>)
    ensures
        shown is Some == shortened(error@, ERROR_LIMIT as nat, ERROR_KEPT as nat) is Some,
        shown matches Some(s) ==> shortened(error@, ERROR_LIMIT as nat, ERROR_KEPT as nat)
            == Some(s@),
{
    shorten(error, ERROR_LIMIT, ERROR_KEPT)
}

/// The value of an optional text.
pub open spec fn optional_text(text: Option<&str>) -> Option<Seq<char>> {
    match text {
        Some(t) => Some(t@),
        None => None,
    }
}

/// The command line that starts `command` in a new window with the
/// PowerShell that was found, or the reason why it is not started.
pub fn launch_command(command: &Command, powershell: Option<&str>) -> (plan: Result<
    Vec<String>,
    LaunchRefusal,
>)
    ensures
        plan is Ok == launch_plan(command@, optional_text(powershell)) is Ok,
        plan matches Ok(argv) ==> launch_plan(command@, optional_text(powershell)) == Ok::<
            Seq<Seq<char>>,
            LaunchRefusal,
        >(string_views(argv@)),
        plan matches Err(refusal) ==> launch_plan(command@, optional_text(powershell)) == Err::<
            Seq<Seq<char>>,
            LaunchRefusal,
        >(refusal),
{
    match command {
        Command::LocalFile { executable: _, args: _, file } => match powershell {
            Some(exe) => {
                let mut argv: Vec<String> = Vec::new();
                argv.push(String::from_str("cmd"));
                argv.push(String::from_str("/c"));
                argv.push(String::from_str("start"));
                argv.push(String::from_str(exe));
                argv.push(String::from_str("-ExecutionPolicy"));
                argv.push(String::from_str("Bypass"));
                argv.push(String::from_str("-File"));
                argv.push(file.clone());
                assert(string_views(argv@) =~= launch_argv(exe@, file@));
                Ok(argv)
            },
            None => Err(LaunchRefusal::NoPowerShell),
        },
        _ => Err(LaunchRefusal::NotLocalFile),
    }
}

/// The window for a script that was to be started in a terminal of its
/// own: a runner without a child that reports [`launch_code`], and the
/// report to show in place of output, as bytes.
pub fn launch_in_separate_terminal(outcome: &LaunchOutcome) -> (window: (RunningCommand, Vec<u8>))
    ensures
        window.0@ == (RunnerView {
            script: Seq::empty(),
            supervisor_present: false,
            killer_present: false,
            status: Some(ExitStatusView { code: launch_code(outcome@), signal: None }),
            log_path: None,
            scroll_offset: 0,
        }),
        window.1@ == encode_utf8(launch_message(outcome@)),
{
    let (message, code): (String, u32) = match outcome {
        LaunchOutcome::Refused(LaunchRefusal::NotLocalFile) => (
            String::from_str(
                "ERROR!\r\n\r\nCannot launch in separate terminal.\r\n\r\nFalling back to TUI...",
            ),
            1,
        ),
        LaunchOutcome::Refused(LaunchRefusal::NoPowerShell) => (
            String::from_str(
                "ERROR!\r\n\r\nNo PowerShell installation found.\r\n\r\nPlease install PowerShell 7 from: https://github.com/PowerShell/PowerShell/releases\r\n\r\nOr ensure PowerShell 5 is available in the system PATH.\r\n\r\nPress Enter to continue...",
            ),
            1,
        ),
        LaunchOutcome::Launched { name } => {
            let mut text = String::from_str("SUCCESS!\r\n\r\nScript '");
            text.append(name.as_str());
            text.append("' launched in separate terminal.\r\n\r\nPress Enter to continue...");
            (text, 0)
        },
        LaunchOutcome::Failed { error } => {
            let mut text = String::from_str("ERROR!\r\n\r\nFailed to launch script: ");
            text.append(error.as_str());
            text.append(".\r\n\r\nFalling back to TUI...");
            (text, 1)
        },
    };
    let runner = RunningCommand::finished_with(ExitStatus::with_exit_code(code));
    (runner, message.as_str().as_bytes_vec())
}

} // verus!
