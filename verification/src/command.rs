//! Task descriptors and the script composer.
//!
//! A task is either a raw shell fragment or an invocation of a local file.
//! The composer merges an ordered list of tasks into the single script that
//! a POSIX shell receives as the argument of `sh -c`.  It neither quotes nor
//! escapes: what the descriptors hold reaches the shell as it stands.

use crate::paths::{parent_directory, path_parent};
use vstd::prelude::*;

verus! {

/// What a menu entry runs.
#[derive(Debug, Clone, PartialEq, Eq)]
pub enum Command {
    /// A fragment of shell input.
    Raw(String),
    /// A program with its arguments, run from the directory of `file`.
    LocalFile { executable: String, args: Vec<String>, file: String },
    /// The entry runs nothing.  The composer refuses it.
    Nothing,
}

/// The mathematical value of a [`Command`].
pub enum CommandView {
    Raw(Seq<char>),
    LocalFile { executable: Seq<char>, args: Seq<Seq<char>>, file: Seq<char> },
    Nothing,
}

impl View for Command {
    type V = CommandView;

    open spec fn view(&self) -> CommandView {
        match self {
            Command::Raw(text) => CommandView::Raw(text@),
            Command::LocalFile { executable, args, file } => CommandView::LocalFile {
                executable: executable@,
                args: string_views(args@),
                file: file@,
            },
            Command::Nothing => CommandView::Nothing,
        }
    }
}

/// The values of a sequence of strings.
pub open spec fn string_views(strings: Seq<String>) -> Seq<Seq<char>> {
    strings.map_values(|s: String| s@)
}

/// The values of a list of tasks.
pub open spec fn task_views(tasks: Seq<&Command>) -> Seq<CommandView> {
    tasks.map_values(|task: &Command| task@)
}

/// The line that changes into the directory of `file`, or nothing where the
/// file has no parent directory.
pub open spec fn cd_line(file: Seq<char>) -> Seq<char> {
    match path_parent(file) {
        Some(dir) => seq!['c', 'd', ' '] + dir + seq!['\n'],
        None => Seq::empty(),
    }
}

/// Every argument, each behind a single space.
pub open spec fn spaced_args(args: Seq<Seq<char>>) -> Seq<char>
    decreases args.len(),
{
    if args.len() == 0 {
        Seq::empty()
    } else {
        spaced_args(args.drop_last()) + seq![' '] + args.last()
    }
}

/// The lines that one task contributes to the script.
pub open spec fn task_script(task: CommandView) -> Seq<char> {
    match task {
        CommandView::Raw(text) => text + seq!['\n'],
        CommandView::LocalFile { executable, args, file } => cd_line(file) + executable
            + spaced_args(args) + seq!['\n'],
        CommandView::Nothing => Seq::empty(),
    }
}

/// The script of a list of tasks: the lines of each task, in order.
pub open spec fn script_of(tasks: Seq<CommandView>) -> Seq<char>
    decreases tasks.len(),
{
    if tasks.len() == 0 {
        Seq::empty()
    } else {
        script_of(tasks.drop_last()) + task_script(tasks.last())
    }
}

/// True when no task of the list is [`Command::Nothing`].
pub open spec fn all_runnable(tasks: Seq<CommandView>) -> bool {
    forall|i: int| 0 <= i < tasks.len() ==> !(#[trigger] tasks[i] is Nothing)
}

/// The script of `tasks` where the list has one: a list that holds
/// [`Command::Nothing`] has none, whatever stands before and behind it.
pub open spec fn composed_script(tasks: Seq<CommandView>) -> Option<Seq<char>> {
    if all_runnable(tasks) {
        Some(script_of(tasks))
    } else {
        None
    }
}

/// Why a list of tasks has no script.
#[derive(Debug, Clone, Copy, PartialEq, Eq)]
pub enum ComposeError {
    /// The task at `index` is [`Command::Nothing`], and no task before it is.
    NoneAsCommand { index: usize },
}

impl ComposeError {
    /// The text of the error.
    pub fn message(&self) -> (text: String)
        ensures
            text@ == "Command::None was treated as a command"@,
    {
        String::from_str("Command::None was treated as a command")
    }
}

/// Appends every argument of `args` to `line`, each behind a single space.
fn push_spaced_args(line: &mut String, args: &Vec<String>)
    ensures
        final(line)@ == old(line)@ + spaced_args(string_views(args@)),
{
    let ghost views = string_views(args@);
    let mut i: usize = 0;
    while i < args.len()
        invariant
            i <= args.len(),
            views == string_views(args@),
            line@ == old(line)@ + spaced_args(views.take(i as int)),
        decreases args.len() - i,
    {
        proof {
            reveal_strlit(" ");
            let next = views.take(i + 1);
            assert(next.drop_last() =~= views.take(i as int));
        }
        line.append(" ");
        line.append(args[i].as_str());
        i = i + 1;
    }
    assert(views.take(args.len() as int) =~= views);
}

/// Appends the lines of one runnable task to `script`.
fn push_task(script: &mut String, task: &Command)
    requires
        !(task@ is Nothing),
    ensures
        final(script)@ == old(script)@ + task_script(task@),
{
    proof {
        reveal_strlit("\n");
        reveal_strlit("cd ");
    }
    match task {
        Command::Raw(text) => {
            script.append(text.as_str());
            script.append("\n");
        },
        Command::LocalFile { executable, args, file } => {
            match parent_directory(file.as_str()) {
                Some(dir) => {
                    script.append("cd ");
                    script.append(dir.as_str());
                    script.append("\n");
                },
                None => {},
            }
            script.append(executable.as_str());
            push_spaced_args(script, args);
            script.append("\n");
        },
        Command::Nothing => {},
    }
}

/// The index of the first [`Command::Nothing`] of `tasks`, if there is one.
pub fn first_none(tasks: &[&Command]) -> (found: Option<usize>)
    ensures
        found is None <==> all_runnable(task_views(tasks@)),
        found matches Some(index) ==> {
            &&& index < tasks@.len()
            &&& tasks@[index as int]@ is Nothing
            &&& all_runnable(task_views(tasks@.take(index as int)))
        },
{
    let mut i: usize = 0;
    while i < tasks.len()
        invariant
            i <= tasks.len(),
            all_runnable(task_views(tasks@.take(i as int))),
        decreases tasks.len() - i,
    {
        if let Command::Nothing = tasks[i] {
            assert(task_views(tasks@)[i as int] is Nothing);
            return Some(i);
        }
        assert forall|k: int| 0 <= k < i + 1 implies !(#[trigger] task_views(
            tasks@.take(i + 1),
        )[k] is Nothing) by {
            if k < i {
                assert(task_views(tasks@.take(i as int))[k] == task_views(tasks@.take(i + 1))[k]);
            }
        }
        i = i + 1;
    }
    assert(tasks@.take(tasks.len() as int) =~= tasks@);
    None
}

/// Merges `tasks` into one script: the lines of each task in the order of
/// the list.  A list that holds [`Command::Nothing`] has no script, and the
/// error names the first such task.
pub fn compose_script(tasks: &[&Command]) -> (composed: Result<String, ComposeError>)
    ensures
        composed is Ok <==> all_runnable(task_views(tasks@)),
        composed matches Ok(script) ==> composed_script(task_views(tasks@)) == Some(script@),
        composed matches Err(error) ==> {
            &&& composed_script(task_views(tasks@)) is None
            &&& error matches ComposeError::NoneAsCommand { index }
            &&& index < tasks@.len()
            &&& tasks@[index as int]@ is Nothing
            &&& all_runnable(task_views(tasks@.take(index as int)))
        },
{
    match first_none(tasks) {
        Some(index) => Err(ComposeError::NoneAsCommand { index }),
        None => Ok(compose(tasks)),
    }
}

/// The script of a list of runnable tasks.
pub fn compose(tasks: &[&Command]) -> (script: String)
    requires
        all_runnable(task_views(tasks@)),
    ensures
        script@ == script_of(task_views(tasks@)),
{
    let ghost views = task_views(tasks@);
    let mut script = String::new();
    let mut i: usize = 0;
    while i < tasks.len()
        invariant
            i <= tasks.len(),
            views == task_views(tasks@),
            all_runnable(views),
            script@ == script_of(views.take(i as int)),
        decreases tasks.len() - i,
    {
        proof {
            let next = views.take(i + 1);
            assert(next.drop_last() =~= views.take(i as int));
            assert(next.last() == views[i as int]);
        }
        push_task(&mut script, tasks[i]);
        i = i + 1;
    }
    assert(views.take(tasks.len() as int) =~= views);
    script
}

/// A list with [`Command::Nothing`] anywhere in it has no script, not even
/// that of the tasks before it.
pub proof fn lemma_sentinel_has_no_script(tasks: Seq<CommandView>, at: int)
    requires
        0 <= at < tasks.len(),
        tasks[at] is Nothing,
    ensures
        !all_runnable(tasks),
        composed_script(tasks) is None,
{
}

/// The script of a list is the script of its front followed by the script
/// of its back: merged tasks run in the order in which they were selected.
pub proof fn lemma_script_of_concat(front: Seq<CommandView>, back: Seq<CommandView>)
    ensures
        script_of(front + back) == script_of(front) + script_of(back),
    decreases back.len(),
{
    if back.len() > 0 {
        lemma_script_of_concat(front, back.drop_last());
        assert((front + back).drop_last() =~= front + back.drop_last());
    }
}

/// The script depends on the values of the tasks alone: two lists that hold
/// the same descriptors in the same order have the same script.
pub proof fn lemma_script_determined_by_tasks(first: Seq<&Command>, second: Seq<&Command>)
    requires
        task_views(first) == task_views(second),
    ensures
        script_of(task_views(first)) == script_of(task_views(second)),
{
}

/// A local file that has a parent directory contributes a `cd` line into
/// that directory before its own command line.
pub proof fn lemma_local_file_changes_directory(
    executable: Seq<char>,
    args: Seq<Seq<char>>,
    file: Seq<char>,
)
    requires
        path_parent(file) is Some,
    ensures
        task_script(CommandView::LocalFile { executable, args, file }) == seq!['c', 'd', ' ']
            + path_parent(file)->0 + seq!['\n'] + (executable + spaced_args(args) + seq!['\n']),
{
}

} // verus!
