//! The runner: what is known of one running command, and what each event
//! does to it.
//!
//! The runner itself starts no process and reads no terminal.  Its caller
//! owns the pseudo-terminal, the worker that waits for the child (the
//! supervisor) and the worker that copies the child's output.  Before each
//! call the caller looks at the supervisor and tells the runner whether it
//! has ended; after the call it carries out the action that the runner
//! hands back.
//!
//! A runner is *finished* once the supervisor's handle has been taken for
//! joining, or the supervisor is seen to have ended.  The exit status is
//! recorded when the supervisor is joined, which happens once.

use crate::buffer::OutputBuffer;
use crate::command::{
    all_runnable, compose, composed_script, first_none, script_of, task_views, Command,
    CommandView, ComposeError,
};
use crate::exit_status::{ExitStatus, ExitStatusView};
use crate::hint::{hint_shortcuts, hint_title, shortcut_list, shortcut_views, Shortcut};
use crate::keys::{
    key_bytes, passthrough_bytes, KeyCode, KeyEvent, MouseEvent, MouseEventKind,
};
use crate::log::{log_name, Timestamp};
use crate::paths::path_join;
use crate::shell::{builder_argv, builder_overrides, child_environment, shell_argv};
use portable_pty::CommandBuilder;
use vstd::prelude::*;

verus! {

/// How many lines the terminal emulator keeps above the visible screen.
pub const SCROLLBACK_LINES: usize = 1000;

/// How many lines `PageUp` and `PageDown` scroll.
pub const PAGE_LINES: usize = 10;

/// The rows of the pseudo-terminal before the first frame is drawn.
pub const INITIAL_ROWS: u16 = 24;

/// The columns of the pseudo-terminal before the first frame is drawn.
pub const INITIAL_COLS: u16 = 80;

/// The size of an area of the screen, in cells.
#[derive(Debug, Clone, Copy, PartialEq, Eq, Structural)]
pub struct Size {
    pub width: u16,
    pub height: u16,
}

/// The size of a pseudo-terminal, in cells and in pixels.
#[derive(Debug, Clone, Copy, PartialEq, Eq, Structural)]
pub struct PtySize {
    pub rows: u16,
    pub cols: u16,
    pub pixel_width: u16,
    pub pixel_height: u16,
}

/// What a frame needs of the pseudo-terminal and of the terminal emulator.
#[derive(Debug, Clone, Copy, PartialEq, Eq)]
pub struct ScreenRequest<'a> {
    /// The size to give the pseudo-terminal before the frame is drawn.
    pub pty_size: PtySize,
    /// The rows of the emulated screen.
    pub rows: u16,
    /// The columns of the emulated screen.
    pub cols: u16,
    /// The lines of scrollback that the emulator keeps.
    pub scrollback_len: usize,
    /// What a fresh emulator is fed: everything the child has written.
    pub input: &'a [u8],
    /// How far the view is scrolled back after that, in lines.
    pub scrollback: usize,
}

/// Which of its three faces the window shows.
#[derive(Debug, Clone, Copy, PartialEq, Eq, Structural)]
pub enum Banner {
    Running,
    Success,
    Failed,
}

/// The texts on the border of the window.
#[derive(Debug)]
pub struct WindowChrome {
    pub banner: Banner,
    /// The text on the upper border.
    pub title: String,
    /// The text on the lower border.
    pub footer: String,
}

/// What the caller does after an event.
#[derive(Debug, PartialEq, Eq)]
pub enum RunnerAction {
    /// Nothing.
    Idle,
    /// Take the kill capability that the supervisor published and use it.
    KillChild,
    /// Write the output buffer to the path that [`RunningCommand::save_log`]
    /// gives and, if that went well, report the path with
    /// [`RunningCommand::log_saved`].
    SaveLog,
    /// Write these bytes to the master side of the pseudo-terminal, then
    /// flush it.
    Send(Vec<u8>),
}

/// The mathematical value of a [`RunnerAction`].
pub enum ActionView {
    Idle,
    KillChild,
    SaveLog,
    Send(Seq<u8>),
}

impl View for RunnerAction {
    type V = ActionView;

    open spec fn view(&self) -> ActionView {
        match self {
            RunnerAction::Idle => ActionView::Idle,
            RunnerAction::KillChild => ActionView::KillChild,
            RunnerAction::SaveLog => ActionView::SaveLog,
            RunnerAction::Send(bytes) => ActionView::Send(bytes@),
        }
    }
}

/// What a key event led to.
#[derive(Debug)]
pub struct KeyResponse {
    /// The window should close.
    pub close: bool,
    /// What the caller does now.
    pub action: RunnerAction,
}

/// Where a runner stands.  A window that was asked to close is discarded
/// with its runner, so closing is no phase of a runner that is there.
#[derive(Debug, Clone, Copy, PartialEq, Eq, Structural)]
pub enum Phase {
    /// The child runs, as far as is known.
    Running,
    /// The child has ended, or the supervisor was joined.
    Finished,
}

/// What the runner does with a key.
pub enum KeyRoute {
    Kill,
    Close,
    ScrollUp,
    ScrollDown,
    SaveLog,
    Passthrough,
}

/// The state of one runner.
pub struct RunningCommand {
    script: String,
    supervisor_present: bool,
    killer_present: bool,
    status: Option<ExitStatus>,
    log_path: Option<String>,
    scroll_offset: usize,
}

/// The mathematical value of a [`RunningCommand`].
pub struct RunnerView {
    /// The script that the shell runs.
    pub script: Seq<char>,
    /// The handle of the supervisor has not been taken for joining yet.
    pub supervisor_present: bool,
    /// The kill capability has not been taken yet.
    pub killer_present: bool,
    /// The exit status, once the supervisor has been joined.
    pub status: Option<ExitStatusView>,
    /// Where the log was saved, once it has been.
    pub log_path: Option<Seq<char>>,
    /// How far the view is scrolled back.  Zero follows the latest output.
    pub scroll_offset: nat,
}

/// The value of an optional exit status.
pub open spec fn status_view(status: Option<ExitStatus>) -> Option<ExitStatusView> {
    match status {
        Some(s) => Some(s@),
        None => None,
    }
}

/// `offset` moved up by `lines`, stopping at the largest offset there is.
pub open spec fn scroll_up(offset: nat, lines: nat) -> nat {
    if offset + lines > usize::MAX {
        usize::MAX as nat
    } else {
        offset + lines
    }
}

/// `offset` moved down by `lines`, stopping at zero.
pub open spec fn scroll_down(offset: nat, lines: nat) -> nat {
    if offset < lines {
        0
    } else {
        (offset - lines) as nat
    }
}

/// The size of the pseudo-terminal before the first frame is drawn:
/// [`INITIAL_ROWS`] rows of [`INITIAL_COLS`] columns.
pub fn initial_pty_size() -> (size: PtySize)
    ensures
        size == (PtySize { rows: 24, cols: 80, pixel_width: 0, pixel_height: 0 }),
{
    PtySize { rows: INITIAL_ROWS, cols: INITIAL_COLS, pixel_width: 0, pixel_height: 0 }
}

/// `offset` scrolled up by `lines`, stopping at the largest offset there
/// is.
pub fn scrolled_up(offset: usize, lines: usize) -> (scrolled: usize)
    ensures
        scrolled == scroll_up(offset as nat, lines as nat),
{
    offset.saturating_add(lines)
}

/// `offset` scrolled down by `lines`, stopping at zero.
pub fn scrolled_down(offset: usize, lines: usize) -> (scrolled: usize)
    ensures
        scrolled == scroll_down(offset as nat, lines as nat),
{
    offset.saturating_sub(lines)
}

/// What the runner does with `key`, given whether it is finished.
pub open spec fn key_route(key: KeyEvent, finished: bool) -> KeyRoute {
    if key.code == KeyCode::Char('c') && key.modifiers.control {
        KeyRoute::Kill
    } else if key.code == KeyCode::Enter && finished {
        KeyRoute::Close
    } else if key.code == KeyCode::PageUp {
        KeyRoute::ScrollUp
    } else if key.code == KeyCode::PageDown {
        KeyRoute::ScrollDown
    } else if key.code == KeyCode::Char('l') && finished {
        KeyRoute::SaveLog
    } else {
        KeyRoute::Passthrough
    }
}

/// The title for a banner.
pub open spec fn title_text(banner: Banner) -> Seq<char> {
    match banner {
        Banner::Running => "Running the command...."@,
        Banner::Success => "SUCCESS! Press <ENTER> to close this window"@,
        Banner::Failed => "FAILED! Press <ENTER> to close this window"@,
    }
}

/// The text on the lower border for a banner and a saved log.
pub open spec fn footer_text(banner: Banner, log_path: Option<Seq<char>>) -> Seq<char> {
    match banner {
        Banner::Running => "Press Ctrl-C to KILL the command"@,
        _ => match log_path {
            Some(path) => " Log saved: "@ + path + " "@,
            None => " Press 'l' to save command log "@,
        },
    }
}

impl RunnerView {
    /// The status is known only once the supervisor's handle is gone.
    pub open spec fn wf(self) -> bool {
        self.status is Some ==> !self.supervisor_present
    }

    /// A runner that has just been started on `script`.
    pub open spec fn started(script: Seq<char>) -> RunnerView {
        RunnerView {
            script,
            supervisor_present: true,
            killer_present: true,
            status: None,
            log_path: None,
            scroll_offset: 0,
        }
    }

    /// The runner is finished: the supervisor's handle has been taken, or
    /// the supervisor is seen to have ended.
    pub open spec fn finished(self, supervisor_done: bool) -> bool {
        !self.supervisor_present || supervisor_done
    }

    /// The phase of the runner, given what is seen of the supervisor.
    pub open spec fn phase(self, supervisor_done: bool) -> Phase {
        if self.finished(supervisor_done) {
            Phase::Finished
        } else {
            Phase::Running
        }
    }

    /// The status that the runner reports: the recorded one, or exit code 1
    /// where none was recorded.
    pub open spec fn reported(self) -> ExitStatusView {
        match self.status {
            Some(status) => status,
            None => ExitStatusView { code: 1, signal: None },
        }
    }

    /// A kill request reaches the child: the runner is not finished and the
    /// kill capability is still there.
    pub open spec fn kill_delivers(self, supervisor_done: bool) -> bool {
        !self.finished(supervisor_done) && self.killer_present
    }

    /// The runner after a kill request.  An unfinished runner gives up its
    /// kill capability; a finished one is left as it is.
    pub open spec fn after_kill(self, supervisor_done: bool) -> RunnerView {
        if self.finished(supervisor_done) {
            self
        } else {
            RunnerView { killer_present: false, ..self }
        }
    }

    /// The runner after its exit status was asked for and the supervisor,
    /// where its handle was still there, was joined with the result
    /// `joined`.
    pub open spec fn after_join(self, joined: Option<ExitStatusView>) -> RunnerView {
        if self.supervisor_present {
            RunnerView {
                supervisor_present: false,
                status: match joined {
                    Some(status) => Some(status),
                    None => self.status,
                },
                ..self
            }
        } else {
            self
        }
    }

    /// The runner after the key `key`.
    pub open spec fn after_key(self, key: KeyEvent, supervisor_done: bool) -> RunnerView {
        match key_route(key, self.finished(supervisor_done)) {
            KeyRoute::Kill => self.after_kill(supervisor_done),
            KeyRoute::ScrollUp => RunnerView {
                scroll_offset: scroll_up(self.scroll_offset, PAGE_LINES as nat),
                ..self
            },
            KeyRoute::ScrollDown => RunnerView {
                scroll_offset: scroll_down(self.scroll_offset, PAGE_LINES as nat),
                ..self
            },
            _ => self,
        }
    }

    /// What the caller does after the key `key`.
    pub open spec fn key_action(self, key: KeyEvent, supervisor_done: bool) -> ActionView {
        match key_route(key, self.finished(supervisor_done)) {
            KeyRoute::Kill => if self.kill_delivers(supervisor_done) {
                ActionView::KillChild
            } else {
                ActionView::Idle
            },
            KeyRoute::SaveLog => ActionView::SaveLog,
            KeyRoute::Passthrough => match key_bytes(key) {
                Some(bytes) => ActionView::Send(bytes),
                None => ActionView::Idle,
            },
            _ => ActionView::Idle,
        }
    }

    /// The runner after the mouse event `event`.
    pub open spec fn after_mouse(self, event: MouseEvent) -> RunnerView {
        match event.kind {
            MouseEventKind::ScrollUp => RunnerView {
                scroll_offset: scroll_up(self.scroll_offset, 1),
                ..self
            },
            MouseEventKind::ScrollDown => RunnerView {
                scroll_offset: scroll_down(self.scroll_offset, 1),
                ..self
            },
            MouseEventKind::Other => self,
        }
    }

    /// The banner of a finished runner.
    pub open spec fn finished_banner(self) -> Banner {
        if self.reported().success() {
            Banner::Success
        } else {
            Banner::Failed
        }
    }
}

impl View for RunningCommand {
    type V = RunnerView;

    closed spec fn view(&self) -> RunnerView {
        RunnerView {
            script: self.script@,
            supervisor_present: self.supervisor_present,
            killer_present: self.killer_present,
            status: status_view(self.status),
            log_path: match self.log_path {
                Some(path) => Some(path@),
                None => None,
            },
            scroll_offset: self.scroll_offset as nat,
        }
    }
}

impl RunningCommand {
    #[verifier::type_invariant]
    spec fn status_follows_join(&self) -> bool {
        self.status is Some ==> !self.supervisor_present
    }

    /// A runner for `commands`, merged into one script.  It is running: the
    /// supervisor and the kill capability are there, no status and no log
    /// are recorded, and the view follows the latest output.
    pub fn new(commands: &[&Command]) -> (runner: RunningCommand)
        requires
            all_runnable(task_views(commands@)),
        ensures
            runner@ == RunnerView::started(script_of(task_views(commands@))),
            runner@.wf(),
    {
        RunningCommand {
            script: compose(commands),
            supervisor_present: true,
            killer_present: true,
            status: None,
            log_path: None,
            scroll_offset: 0,
        }
    }

    /// A runner for `commands` and the command that runs their script, or
    /// the reason why there is neither.  A list that holds
    /// [`Command::Nothing`] starts nothing: the error names the first such
    /// task, and no command comes back that a child could be made of.
    pub fn start(commands: &[&Command]) -> (started: Result<
        (RunningCommand, CommandBuilder),
        ComposeError,
    >)
        ensures
            started is Ok <==> all_runnable(task_views(commands@)),
            started matches Ok(pair) ==> {
                &&& pair.0@ == RunnerView::started(script_of(task_views(commands@)))
                &&& pair.0@.wf()
                &&& Some(builder_argv(pair.1)) == start_argv(task_views(commands@))
                &&& builder_overrides(pair.1) == child_environment()
            },
            started matches Err(error) ==> {
                &&& start_argv(task_views(commands@)) is None
                &&& error matches ComposeError::NoneAsCommand { index }
                &&& index < commands@.len()
                &&& commands@[index as int]@ is Nothing
                &&& all_runnable(task_views(commands@.take(index as int)))
            },
    {
        match first_none(commands) {
            Some(index) => Err(ComposeError::NoneAsCommand { index }),
            None => {
                let runner = RunningCommand::new(commands);
                let command = runner.shell_command();
                Ok((runner, command))
            },
        }
    }

    /// A runner for `commands`, as [`RunningCommand::new`] makes it.  The
    /// names of the scripts play no part.
    pub fn new_with_names(commands: &[&Command], script_names: &[String]) -> (runner:
        RunningCommand)
        requires
            all_runnable(task_views(commands@)),
        ensures
            runner@ == RunnerView::started(script_of(task_views(commands@))),
            runner@.wf(),
    {
        RunningCommand::new(commands)
    }

    /// A runner that never had a child: it is finished from the start and
    /// reports `status`.
    pub fn finished_with(status: ExitStatus) -> (runner: RunningCommand)
        ensures
            runner@ == (RunnerView {
                script: Seq::empty(),
                supervisor_present: false,
                killer_present: false,
                status: Some(status@),
                log_path: None,
                scroll_offset: 0,
            }),
            runner@.wf(),
    {
        RunningCommand {
            script: String::new(),
            supervisor_present: false,
            killer_present: false,
            status: Some(status),
            log_path: None,
            scroll_offset: 0,
        }
    }

    /// A runner whose child was started by other means: the supervisor and
    /// the kill capability are there as the arguments say, and `status` is
    /// recorded.
    pub fn from_parts(
        supervisor_present: bool,
        killer_present: bool,
        status: Option<ExitStatus>,
    ) -> (runner: RunningCommand)
        requires
            status is Some ==> !supervisor_present,
        ensures
            runner@ == (RunnerView {
                script: Seq::empty(),
                supervisor_present,
                killer_present,
                status: status_view(status),
                log_path: None,
                scroll_offset: 0,
            }),
            runner@.wf(),
    {
        RunningCommand {
            script: String::new(),
            supervisor_present,
            killer_present,
            status,
            log_path: None,
            scroll_offset: 0,
        }
    }

    /// The script that the shell runs.
    pub fn script(&self) -> (script: &str)
        ensures
            script@ == self@.script,
    {
        self.script.as_str()
    }

    /// The command that runs the script: exactly `sh -c <script>`, with
    /// the variables that every child is given.
    pub fn shell_command(&self) -> (builder: CommandBuilder)
        ensures
            builder_argv(builder) == shell_argv(self@.script),
            builder_overrides(builder) == child_environment(),
    {
        crate::shell::shell_command(self.script.as_str())
    }

    /// True while the handle of the supervisor has not been taken: the
    /// next call of [`RunningCommand::get_exit_status`] has to be given the
    /// result of joining it.
    pub fn supervisor_present(&self) -> (present: bool)
        ensures
            present == self@.supervisor_present,
            self@.wf(),
    {
        proof {
            use_type_invariant(self);
        }
        self.supervisor_present
    }

    /// How far the view is scrolled back.
    pub fn scroll_offset(&self) -> (offset: usize)
        ensures
            offset == self@.scroll_offset,
    {
        self.scroll_offset
    }

    /// Where the log was saved, once it has been.
    pub fn log_path(&self) -> (path: Option<&str>)
        ensures
            path is Some == self@.log_path is Some,
            path matches Some(p) ==> self@.log_path == Some(p@),
    {
        match &self.log_path {
            Some(path) => Some(path.as_str()),
            None => None,
        }
    }

    /// The recorded exit status, once the supervisor has been joined.
    pub fn status(&self) -> (status: Option<ExitStatus>)
        ensures
            status_view(status) == self@.status,
    {
        match &self.status {
            Some(status) => Some(status.duplicate()),
            None => None,
        }
    }

    /// The phase of the runner: finished once the supervisor's handle has
    /// been taken or `supervisor_done` says that the supervisor has ended,
    /// running before.
    pub fn phase(&self, supervisor_done: bool) -> (phase: Phase)
        ensures
            phase == self@.phase(supervisor_done),
    {
        if self.is_finished(supervisor_done) {
            Phase::Finished
        } else {
            Phase::Running
        }
    }

    /// True when the runner is finished: the supervisor's handle has been
    /// taken, or `supervisor_done` says that the supervisor has ended.
    pub fn is_finished(&self, supervisor_done: bool) -> (finished: bool)
        ensures
            finished == self@.finished(supervisor_done),
    {
        !self.supervisor_present || supervisor_done
    }

    /// The name of the hint of the runner and its shortcuts, which depend on
    /// whether it is finished.
    pub fn get_shortcut_list(&self, supervisor_done: bool) -> (hint: (String, Vec<Shortcut>))
        ensures
            hint.0@ == hint_title(self@.finished(supervisor_done)),
            shortcut_views(hint.1@) == hint_shortcuts(self@.finished(supervisor_done)),
    {
        shortcut_list(self.is_finished(supervisor_done))
    }

    /// Asks for the child to be killed.  The result says whether the caller
    /// is to take the kill capability and use it.
    ///
    /// On an unfinished runner the capability is given up, so that it is
    /// used at most once.  On a finished runner nothing happens.
    pub fn kill_child(&mut self, supervisor_done: bool) -> (deliver: bool)
        ensures
            deliver == old(self)@.kill_delivers(supervisor_done),
            final(self)@ == old(self)@.after_kill(supervisor_done),
            final(self)@.wf(),
    {
        proof {
            use_type_invariant(&*self);
        }
        if self.is_finished(supervisor_done) {
            false
        } else {
            let deliver = self.killer_present;
            self.killer_present = false;
            deliver
        }
    }

    /// The exit status of the child.
    ///
    /// While the supervisor's handle is there the caller joins the
    /// supervisor first, which may block, and passes what the join gave:
    /// the status, or `None` where the supervisor died.  The handle then
    /// counts as taken and a status that was passed is recorded.  Without a
    /// recorded status the runner reports exit code 1.  Once the handle is
    /// taken `joined` plays no part and nothing changes.
    pub fn get_exit_status(&mut self, joined: Option<ExitStatus>) -> (status: ExitStatus)
        ensures
            final(self)@ == old(self)@.after_join(status_view(joined)),
            status@ == final(self)@.reported(),
            old(self)@.status is Some ==> final(self)@ == old(self)@,
            final(self)@.wf(),
    {
        proof {
            use_type_invariant(&*self);
        }
        if self.supervisor_present {
            self.supervisor_present = false;
            match joined {
                Some(status) => {
                    let reported = status.duplicate();
                    self.status = Some(status);
                    return reported;
                },
                None => {},
            }
        }
        match &self.status {
            Some(status) => status.duplicate(),
            None => ExitStatus::with_exit_code(1),
        }
    }

    /// The texts on the border of the window for the next frame.
    ///
    /// An unfinished runner shows that the command is running.  A finished
    /// one has its exit status taken as [`RunningCommand::get_exit_status`]
    /// does, with `joined` as the result of joining the supervisor, and
    /// shows success or failure, and where the log was saved.
    pub fn draw(&mut self, supervisor_done: bool, joined: Option<ExitStatus>) -> (chrome:
        WindowChrome)
        ensures
            !old(self)@.finished(supervisor_done) ==> {
                &&& final(self)@ == old(self)@
                &&& chrome.banner == Banner::Running
            },
            old(self)@.finished(supervisor_done) ==> {
                &&& final(self)@ == old(self)@.after_join(status_view(joined))
                &&& chrome.banner == final(self)@.finished_banner()
            },
            chrome.title@ == title_text(chrome.banner),
            chrome.footer@ == footer_text(chrome.banner, final(self)@.log_path),
            final(self)@.wf(),
    {
        proof {
            use_type_invariant(&*self);
        }
        if !self.is_finished(supervisor_done) {
            WindowChrome {
                banner: Banner::Running,
                title: String::from_str("Running the command...."),
                footer: String::from_str("Press Ctrl-C to KILL the command"),
            }
        } else {
            let status = self.get_exit_status(joined);
            let (banner, title) = if status.success() {
                (Banner::Success, String::from_str("SUCCESS! Press <ENTER> to close this window"))
            } else {
                (Banner::Failed, String::from_str("FAILED! Press <ENTER> to close this window"))
            };
            let footer = match &self.log_path {
                Some(path) => {
                    let mut text = String::from_str(" Log saved: ");
                    text.append(path.as_str());
                    text.append(" ");
                    text
                },
                None => String::from_str(" Press 'l' to save command log "),
            };
            WindowChrome { banner, title, footer }
        }
    }

    /// What the frame for an inner area of `size` needs: a pseudo-terminal
    /// of that many rows and columns, and a fresh emulator of the same size
    /// with [`SCROLLBACK_LINES`] lines of scrollback, which is fed all of
    /// `buffer` and then scrolled back by the runner's offset.
    pub fn screen<'a>(&self, size: Size, buffer: &'a OutputBuffer) -> (request: ScreenRequest<'a>)
        ensures
            request.pty_size == (PtySize {
                rows: size.height,
                cols: size.width,
                pixel_width: 0,
                pixel_height: 0,
            }),
            request.rows == size.height,
            request.cols == size.width,
            request.scrollback_len == SCROLLBACK_LINES,
            request.input@ == buffer@,
            request.scrollback == self@.scroll_offset,
    {
        ScreenRequest {
            pty_size: PtySize {
                rows: size.height,
                cols: size.width,
                pixel_width: 0,
                pixel_height: 0,
            },
            rows: size.height,
            cols: size.width,
            scrollback_len: SCROLLBACK_LINES,
            input: buffer.as_slice(),
            scrollback: self.scroll_offset,
        }
    }

    /// Handles a mouse event: the wheel scrolls the view by one line.  The
    /// result is true: the window stays open.
    pub fn handle_mouse_event(&mut self, event: &MouseEvent) -> (keep_open: bool)
        ensures
            keep_open,
            final(self)@ == old(self)@.after_mouse(*event),
            final(self)@.wf(),
    {
        proof {
            use_type_invariant(&*self);
        }
        match event.kind {
            MouseEventKind::ScrollUp => {
                self.scroll_offset = scrolled_up(self.scroll_offset, 1);
            },
            MouseEventKind::ScrollDown => {
                self.scroll_offset = scrolled_down(self.scroll_offset, 1);
            },
            MouseEventKind::Other => {},
        }
        true
    }

    /// Handles a key event.
    ///
    /// `Ctrl` with `c` asks for the child to be killed.  `Enter` closes the
    /// window of a finished runner.  `PageUp` and `PageDown` scroll by
    /// [`PAGE_LINES`] lines.  `l` asks for the log of a finished runner to
    /// be saved.  Any other key goes to the child, as
    /// [`RunningCommand::handle_passthrough_key_event`] encodes it.
    pub fn handle_key_event(&mut self, key: &KeyEvent, supervisor_done: bool) -> (response:
        KeyResponse)
        ensures
            response.close == (key_route(*key, old(self)@.finished(supervisor_done))
                is Close),
            response.action@ == old(self)@.key_action(*key, supervisor_done),
            final(self)@ == old(self)@.after_key(*key, supervisor_done),
            final(self)@.wf(),
    {
        proof {
            use_type_invariant(&*self);
        }
        let finished = self.is_finished(supervisor_done);
        let is_c = match key.code {
            KeyCode::Char(c) => c == 'c',
            _ => false,
        };
        let is_l = match key.code {
            KeyCode::Char(c) => c == 'l',
            _ => false,
        };
        if is_c && key.modifiers.control {
            let deliver = self.kill_child(supervisor_done);
            let action = if deliver {
                RunnerAction::KillChild
            } else {
                RunnerAction::Idle
            };
            KeyResponse { close: false, action }
        } else if matches!(key.code, KeyCode::Enter) && finished {
            KeyResponse { close: true, action: RunnerAction::Idle }
        } else if matches!(key.code, KeyCode::PageUp) {
            self.scroll_offset = scrolled_up(self.scroll_offset, PAGE_LINES);
            KeyResponse { close: false, action: RunnerAction::Idle }
        } else if matches!(key.code, KeyCode::PageDown) {
            self.scroll_offset = scrolled_down(self.scroll_offset, PAGE_LINES);
            KeyResponse { close: false, action: RunnerAction::Idle }
        } else if is_l && finished {
            KeyResponse { close: false, action: RunnerAction::SaveLog }
        } else {
            let action = match self.handle_passthrough_key_event(key) {
                Some(bytes) => RunnerAction::Send(bytes),
                None => RunnerAction::Idle,
            };
            KeyResponse { close: false, action }
        }
    }

    /// The bytes that `key` sends to the child, `None` where it sends
    /// nothing.
    pub fn handle_passthrough_key_event(&self, key: &KeyEvent) -> (bytes: Option<Vec<u8>>)
        ensures
            bytes is Some == key_bytes(*key) is Some,
            bytes matches Some(sent) ==> key_bytes(*key) == Some(sent@),
    {
        passthrough_bytes(key)
    }

    /// The path of the file that a log saved at `now` goes to, in the
    /// directory `temp_dir`.  The file receives the output buffer as it is.
    pub fn save_log(&self, temp_dir: &str, now: &Timestamp) -> (path: String)
        requires
            now.wf(),
        ensures
            path@ == path_join(temp_dir@, log_name(now@)),
    {
        crate::log::log_path(temp_dir, now)
    }

    /// Records that the log was saved at `path`.
    pub fn log_saved(&mut self, path: String)
        ensures
            final(self)@ == (RunnerView { log_path: Some(path@), ..old(self)@ }),
            final(self)@.wf(),
    {
        proof {
            use_type_invariant(&*self);
        }
        self.log_path = Some(path);
    }
}

/// The argument vector of the child that is started for `tasks`: that of
/// the shell with their script, and `None` where they have no script.
pub open spec fn start_argv(tasks: Seq<CommandView>) -> Option<Seq<Seq<char>>> {
    match composed_script(tasks) {
        Some(script) => Some(shell_argv(script)),
        None => None,
    }
}

/// For a list with [`Command::Nothing`] anywhere in it no child is
/// started: there is no script, and no argument vector for a shell, not
/// even for the tasks before it.
pub proof fn lemma_sentinel_starts_nothing(tasks: Seq<CommandView>, at: int)
    requires
        0 <= at < tasks.len(),
        tasks[at] is Nothing,
    ensures
        composed_script(tasks) is None,
        start_argv(tasks) is None,
{
}

/// How many of a run of kill requests reach the child, when they are made
/// one after another on a runner in the state `start` and `observations`
/// holds what each request saw of the supervisor.
pub open spec fn kills_delivered(start: RunnerView, observations: Seq<bool>) -> nat
    decreases observations.len(),
{
    if observations.len() == 0 {
        0
    } else {
        let first: nat = if start.kill_delivers(observations[0]) {
            1
        } else {
            0
        };
        first + kills_delivered(start.after_kill(observations[0]), observations.drop_first())
    }
}

/// A runner without its kill capability delivers no kill, however often it
/// is asked.
pub proof fn lemma_no_kill_without_capability(start: RunnerView, observations: Seq<bool>)
    requires
        !start.killer_present,
    ensures
        kills_delivered(start, observations) == 0,
    decreases observations.len(),
{
    if observations.len() > 0 {
        lemma_no_kill_without_capability(
            start.after_kill(observations[0]),
            observations.drop_first(),
        );
    }
}

/// Of any run of kill requests at most one reaches the child, whatever each
/// request sees of the supervisor.
pub proof fn lemma_kill_at_most_once(start: RunnerView, observations: Seq<bool>)
    ensures
        kills_delivered(start, observations) <= 1,
    decreases observations.len(),
{
    if observations.len() > 0 {
        let next = start.after_kill(observations[0]);
        if start.kill_delivers(observations[0]) {
            lemma_no_kill_without_capability(next, observations.drop_first());
        } else {
            lemma_kill_at_most_once(next, observations.drop_first());
        }
    }
}

/// A kill request on a finished runner changes nothing and reaches nobody.
pub proof fn lemma_kill_after_finish_is_noop(runner: RunnerView, supervisor_done: bool)
    requires
        runner.finished(supervisor_done),
    ensures
        runner.after_kill(supervisor_done) == runner,
        !runner.kill_delivers(supervisor_done),
{
}

/// No event gives a runner its kill capability back, and none brings the
/// supervisor's handle back once it was taken.
pub proof fn lemma_capabilities_never_return(
    runner: RunnerView,
    key: KeyEvent,
    event: MouseEvent,
    supervisor_done: bool,
    joined: Option<ExitStatusView>,
)
    ensures
        !runner.killer_present ==> {
            &&& !runner.after_kill(supervisor_done).killer_present
            &&& !runner.after_key(key, supervisor_done).killer_present
            &&& !runner.after_mouse(event).killer_present
            &&& !runner.after_join(joined).killer_present
        },
        !runner.supervisor_present ==> {
            &&& !runner.after_kill(supervisor_done).supervisor_present
            &&& !runner.after_key(key, supervisor_done).supervisor_present
            &&& !runner.after_mouse(event).supervisor_present
            &&& !runner.after_join(joined).supervisor_present
        },
{
}

/// The exit status is recorded once: a runner that holds one keeps it
/// through every event, and only joining the supervisor records one.
pub proof fn lemma_status_recorded_once(
    runner: RunnerView,
    key: KeyEvent,
    event: MouseEvent,
    supervisor_done: bool,
    joined: Option<ExitStatusView>,
)
    requires
        runner.wf(),
    ensures
        runner.after_kill(supervisor_done).status == runner.status,
        runner.after_key(key, supervisor_done).status == runner.status,
        runner.after_mouse(event).status == runner.status,
        runner.status is Some ==> runner.after_join(joined) == runner,
        runner.after_join(joined).wf(),
        runner.after_join(joined).finished(supervisor_done),
{
}

/// The phases follow one another in one direction.  Only the end of the
/// supervisor, or joining it, finishes a runner: a kill request, a key and
/// a mouse event leave the phase as it is.  A runner whose supervisor was
/// joined stays finished whatever is seen of the supervisor later.  The
/// window closes on `Enter` exactly when the runner is finished.
pub proof fn lemma_phases(
    runner: RunnerView,
    key: KeyEvent,
    event: MouseEvent,
    supervisor_done: bool,
    seen_later: bool,
    joined: Option<ExitStatusView>,
)
    ensures
        runner.after_kill(supervisor_done).phase(supervisor_done) == runner.phase(
            supervisor_done,
        ),
        runner.after_key(key, supervisor_done).phase(supervisor_done) == runner.phase(
            supervisor_done,
        ),
        runner.after_mouse(event).phase(supervisor_done) == runner.phase(supervisor_done),
        runner.after_join(joined).phase(seen_later) == Phase::Finished,
        key.code == KeyCode::Enter ==> (key_route(
            key,
            runner.finished(supervisor_done),
        ) is Close <==> runner.phase(supervisor_done) == Phase::Finished),
{
}

/// Scrolling saturates: an offset never falls below zero and never passes
/// the largest `usize`, scrolling down from zero stays at zero, and neither
/// direction wraps around.
pub proof fn lemma_scroll_saturates(offset: nat, lines: nat)
    requires
        offset <= usize::MAX,
    ensures
        scroll_down(0, lines) == 0,
        scroll_down(offset, lines) <= offset,
        offset <= scroll_up(offset, lines) <= usize::MAX,
        scroll_up(usize::MAX as nat, lines) == usize::MAX,
{
}

} // verus!
