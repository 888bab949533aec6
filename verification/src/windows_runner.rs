//! The runner for platforms without pseudo-terminals.
//!
//! There the child is an ordinary process: its input is a pipe, and what it
//! writes to its output and to its error stream is read from two more.  A
//! shell fragment is handed to the command interpreter, a local file is
//! started as it stands, in the directory of the file.

use crate::command::{string_views, Command, CommandView};
use crate::paths::{parent_directory, path_parent};
use crate::exit_status::{ExitStatus, ExitStatusView};
use crate::running_command::{status_view, RunnerView, RunningCommand};
use crate::shell::{child_environment_list, child_environment_pairs, pair_views};
use crate::text::copy_strings;
use vstd::prelude::*;
use vstd::utf8::encode_utf8;

verus! {

/// How many bytes the reader asks for in one read.
pub const PIPE_CHUNK: usize = 1024;

/// The program of the process that runs `command`.
pub open spec fn plan_program(command: CommandView) -> Seq<char> {
    match command {
        CommandView::Raw(_) => "cmd.exe"@,
        CommandView::LocalFile { executable, .. } => executable,
        CommandView::Nothing => Seq::empty(),
    }
}

/// The arguments of the process that runs `command`.
pub open spec fn plan_args(command: CommandView) -> Seq<Seq<char>> {
    match command {
        CommandView::Raw(prompt) => seq!["/c"@, prompt],
        CommandView::LocalFile { args, .. } => args,
        CommandView::Nothing => Seq::empty(),
    }
}

/// The directory in which the process that runs `command` is started,
/// where it is not that of the program itself.
pub open spec fn plan_directory(command: CommandView) -> Option<Seq<char>> {
    match command {
        CommandView::LocalFile { file, .. } => path_parent(file),
        _ => None,
    }
}

/// The variables that the child is given: those of every child, and one
/// that asks for ANSI escape sequences.
pub open spec fn plan_environment() -> Seq<(Seq<char>, Seq<char>)> {
    child_environment_list().push(("ANSICON"@, "1"@))
}

/// The number that an exit code of a process reads as, as an unsigned
/// number of 32 bits.
pub open spec fn unsigned_code(code: i32) -> u32 {
    if code >= 0 {
        code as u32
    } else {
        (code + 0x1_0000_0000) as u32
    }
}

/// How waiting for the child ended.
#[derive(Debug, Clone, Copy, PartialEq, Eq, Structural)]
pub enum WaitOutcome {
    /// The child ended, with an exit code where it has one.
    Exited(Option<i32>),
    /// Waiting failed.
    Failed,
}

/// The status that a wait for the child stands for: the exit code of a
/// child that has one, and exit code 1 in every other case.
pub open spec fn waited_status(outcome: WaitOutcome) -> ExitStatusView {
    match outcome {
        WaitOutcome::Exited(Some(code)) => ExitStatusView {
            code: unsigned_code(code),
            signal: None,
        },
        _ => ExitStatusView { code: 1, signal: None },
    }
}

/// The text shown in place of output when the child could not be started.
pub open spec fn spawn_failure_text(error: Seq<char>) -> Seq<char> {
    "Failed to execute command: "@ + error + "\r\n"@
}

/// The state of one runner on a platform without pseudo-terminals.
pub struct WindowsCommandRunner {
    program: String,
    args: Vec<String>,
    working_dir: Option<String>,
    env: Vec<(String, String)>,
    supervisor_present: bool,
    status: Option<ExitStatus>,
    child_pid: Option<u32>,
}

/// The mathematical value of a [`WindowsCommandRunner`].
pub struct WindowsRunnerView {
    pub program: Seq<char>,
    pub args: Seq<Seq<char>>,
    pub working_dir: Option<Seq<char>>,
    pub env: Seq<(Seq<char>, Seq<char>)>,
    /// The handle of the worker that waits for the child has not been
    /// taken for joining yet.
    pub supervisor_present: bool,
    /// The exit status, once it is known.
    pub status: Option<ExitStatusView>,
    /// The process id of the child, once it was started.
    pub child_pid: Option<u32>,
}

impl WindowsRunnerView {
    /// The status is known only once the worker's handle is gone.
    pub open spec fn wf(self) -> bool {
        self.status is Some ==> !self.supervisor_present
    }

    /// The runner for `command`, before the child is started.
    pub open spec fn planned(command: CommandView) -> WindowsRunnerView {
        WindowsRunnerView {
            program: plan_program(command),
            args: plan_args(command),
            working_dir: plan_directory(command),
            env: plan_environment(),
            supervisor_present: true,
            status: None,
            child_pid: None,
        }
    }

    /// The status that the runner reports: the recorded one, or exit code 1
    /// where none was recorded.
    pub open spec fn reported(self) -> ExitStatusView {
        match self.status {
            Some(status) => status,
            None => ExitStatusView { code: 1, signal: None },
        }
    }

    /// The runner after its exit status was asked for and the worker, where
    /// its handle was still there, was joined with the result `joined`.
    pub open spec fn after_join(self, joined: Option<ExitStatusView>) -> WindowsRunnerView {
        if self.supervisor_present {
            WindowsRunnerView {
                supervisor_present: false,
                status: match joined {
                    Some(status) => Some(status),
                    None => self.status,
                },
                ..self
            }
        } else {
            self
        }
    }
}

impl View for WindowsCommandRunner {
    type V = WindowsRunnerView;

    closed spec fn view(&self) -> WindowsRunnerView {
        WindowsRunnerView {
            program: self.program@,
            args: string_views(self.args@),
            working_dir: match self.working_dir {
                Some(dir) => Some(dir@),
                None => None,
            },
            env: pair_views(self.env@),
            supervisor_present: self.supervisor_present,
            status: status_view(self.status),
            child_pid: self.child_pid,
        }
    }
}

impl WindowsCommandRunner {
    #[verifier::type_invariant]
    spec fn status_follows_join(&self) -> bool {
        self.status is Some ==> !self.supervisor_present
    }

    /// The runner for `command`, with the process to start: the command
    /// interpreter with `/c` for a shell fragment, the program with its
    /// arguments, in the directory of the file, for a local file.
    pub fn new(command: &Command) -> (runner: WindowsCommandRunner)
        requires
            !(command@ is Nothing),
        ensures
            runner@ == WindowsRunnerView::planned(command@),
            runner@.wf(),
    {
        let mut env = child_environment_pairs();
        env.push((String::from_str("ANSICON"), String::from_str("1")));
        assert(pair_views(env@) =~= plan_environment());
        let (program, args, working_dir) = match command {
            Command::Raw(prompt) => {
                let mut args: Vec<String> = Vec::new();
                args.push(String::from_str("/c"));
                args.push(prompt.clone());
                assert(string_views(args@) =~= plan_args(command@));
                (String::from_str("cmd.exe"), args, None)
            },
            Command::LocalFile { executable, args, file } => (
                executable.clone(),
                copy_strings(args),
                parent_directory(file.as_str()),
            ),
            Command::Nothing => (String::new(), Vec::new(), None),
        };
        WindowsCommandRunner {
            program,
            args,
            working_dir,
            env,
            supervisor_present: true,
            status: None,
            child_pid: None,
        }
    }

    /// The program to start.
    pub fn program(&self) -> (program: &str)
        ensures
            program@ == self@.program,
    {
        self.program.as_str()
    }

    /// The arguments of the program.
    pub fn args(&self) -> (args: &Vec<String>)
        ensures
            string_views(args@) == self@.args,
    {
        &self.args
    }

    /// The directory in which the program is started, where it is not that
    /// of the runner itself.
    pub fn working_dir(&self) -> (dir: Option<&str>)
        ensures
            dir is Some == self@.working_dir is Some,
            dir matches Some(d) ==> self@.working_dir == Some(d@),
    {
        match &self.working_dir {
            Some(dir) => Some(dir.as_str()),
            None => None,
        }
    }

    /// The variables that the child is given.
    pub fn env(&self) -> (env: &Vec<(String, String)>)
        ensures
            pair_views(env@) == self@.env,
    {
        &self.env
    }

    /// The process id of the child, once it was started.
    pub fn child_pid(&self) -> (pid: Option<u32>)
        ensures
            pid == self@.child_pid,
    {
        self.child_pid
    }

    /// Records that the child was started with the process id `pid`.
    pub fn spawn_succeeded(&mut self, pid: u32)
        ensures
            final(self)@ == (WindowsRunnerView { child_pid: Some(pid), ..old(self)@ }),
            final(self)@.wf(),
    {
        proof {
            use_type_invariant(&*self);
        }
        self.child_pid = Some(pid);
    }

    /// Records that the child could not be started.  No worker waits for
    /// it, the runner reports exit code 1, and the result is the text to
    /// show in place of output, as bytes.
    pub fn spawn_failed(&mut self, error: &str) -> (output: Vec<u8>)
        ensures
            final(self)@ == (WindowsRunnerView {
                supervisor_present: false,
                status: Some(ExitStatusView { code: 1, signal: None }),
                child_pid: None,
                ..old(self)@
            }),
            output@ == encode_utf8(spawn_failure_text(error@)),
            final(self)@.wf(),
    {
        self.supervisor_present = false;
        self.status = Some(ExitStatus::with_exit_code(1));
        self.child_pid = None;
        let mut text = String::from_str("Failed to execute command: ");
        text.append(error);
        text.append("\r\n");
        text.as_str().as_bytes_vec()
    }

    /// The status that a wait for the child stands for.
    pub fn exit_status_from_wait(outcome: WaitOutcome) -> (status: ExitStatus)
        ensures
            status@ == waited_status(outcome),
    {
        match outcome {
            WaitOutcome::Exited(Some(code)) => {
                let unsigned: u32 = if code >= 0 {
                    code as u32
                } else {
                    (code as i64 + 0x1_0000_0000) as u32
                };
                ExitStatus::with_exit_code(unsigned)
            },
            _ => ExitStatus::with_exit_code(1),
        }
    }

    /// The exit status of the child.
    ///
    /// While the worker's handle is there the caller joins the worker
    /// first and passes what the join gave.  The handle then counts as
    /// taken and a status that was passed is recorded.  Without a recorded
    /// status the runner reports exit code 1.
    pub fn get_exit_status(&mut self, joined: Option<ExitStatus>) -> (status: ExitStatus)
        ensures
            final(self)@ == old(self)@.after_join(status_view(joined)),
            status@ == final(self)@.reported(),
            old(self)@.status is Some ==> final(self)@ == old(self)@,
            final(self)@.wf(),
    {
        proof {
            use_type_invariant(&*self);
        }
        if self.supervisor_present {
            self.supervisor_present = false;
            match joined {
                Some(status) => {
                    let reported = status.duplicate();
                    self.status = Some(status);
                    return reported;
                },
                None => {},
            }
        }
        match &self.status {
            Some(status) => status.duplicate(),
            None => ExitStatus::with_exit_code(1),
        }
    }

    /// The state of the window that shows this child: the worker and the
    /// status as they are here, and a kill capability where the child has a
    /// process id.
    pub fn into_running_command(self) -> (runner: RunningCommand)
        ensures
            runner@ == (RunnerView {
                script: Seq::empty(),
                supervisor_present: self@.supervisor_present,
                killer_present: self@.child_pid is Some,
                status: self@.status,
                log_path: None,
                scroll_offset: 0,
            }),
            runner@.wf(),
    {
        proof {
            use_type_invariant(&self);
        }
        let killer_present = self.child_pid.is_some();
        RunningCommand::from_parts(self.supervisor_present, killer_present, self.status)
    }
}

} // verus!
