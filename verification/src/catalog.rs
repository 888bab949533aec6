//! The entries of the task catalog.
//!
//! An entry is a group of entries, a shell command, or a script.  It may
//! name conditions under which it is offered: an environment variable and
//! the values it may have, a file and the texts it must hold, commands or
//! files that must be there.  The library looks at no system: each
//! condition comes with what was found for it, and a script comes with the
//! way in which it is started.

use crate::command::string_views;
use crate::paths::{
    extension_of, join_path, path_extension, path_join, path_with_extension, with_extension,
};
use crate::text::{contains_text, list_contains, lists_text, text_contains};
use vstd::prelude::*;

verus! {

/// What a condition looks at.
#[derive(Debug)]
pub enum SystemDataType {
    /// The environment variable of this name.
    Environment(String),
    /// The content of the file at this path.
    ContainingFile(String),
    /// Whether each value is the path of a file.
    FileExists,
    /// Whether each value is a command that can be found.
    CommandExists,
}

/// A condition under which an entry is offered.
#[derive(Debug)]
pub struct Precondition {
    /// When true the values must match what is found, when false they must
    /// not.
    pub matches: bool,
    pub data: SystemDataType,
    pub values: Vec<String>,
}

/// What was found on the system for one condition.
#[derive(Debug)]
pub enum Finding {
    /// The value of the environment variable, where it is set and is text.
    Variable(Option<String>),
    /// The content of the file, where it could be read as text.
    Content(Option<String>),
    /// For each value of the condition, in order, whether it is there.
    Present(Vec<bool>),
}

/// A condition with what was found for it.
#[derive(Debug)]
pub struct Check {
    pub precondition: Precondition,
    pub finding: Finding,
}

/// What an entry is.
#[derive(Debug)]
pub enum EntryType {
    /// A group of entries.
    Entries(Vec<Entry>),
    /// A shell command.
    Command(String),
    /// The script at the path `file`, with the program and the arguments
    /// that start it.  `start` is `None` for a script that is missing or
    /// that is not to be offered.
    Script { file: String, start: Option<(String, Vec<String>)> },
}

/// An entry of the catalog.
#[derive(Debug)]
pub struct Entry {
    pub name: String,
    pub description: String,
    pub preconditions: Option<Vec<Check>>,
    pub entry_type: EntryType,
    pub task_list: String,
    pub multi_select: bool,
}

/// The mathematical value of an [`EntryType`].
pub enum EntryKindView {
    Entries(Seq<EntryView>),
    Command(Seq<char>),
    Script { file: Seq<char>, start: Option<(Seq<char>, Seq<Seq<char>>)> },
}

/// The mathematical value of a [`SystemDataType`].
pub enum SystemDataView {
    Environment(Seq<char>),
    ContainingFile(Seq<char>),
    FileExists,
    CommandExists,
}

/// The mathematical value of a [`Finding`].
pub enum FindingView {
    Variable(Option<Seq<char>>),
    Content(Option<Seq<char>>),
    Present(Seq<bool>),
}

/// The mathematical value of a [`Check`]: the condition and what was found
/// for it.
pub struct CheckView {
    pub matches: bool,
    pub data: SystemDataView,
    pub values: Seq<Seq<char>>,
    pub finding: FindingView,
}

/// The mathematical value of an [`Entry`].
pub struct EntryView {
    pub name: Seq<char>,
    pub description: Seq<char>,
    /// The conditions of the entry, each with what was found for it;
    /// `None` where the entry names none.
    pub conditions: Option<Seq<CheckView>>,
    pub kind: EntryKindView,
    pub task_list: Seq<char>,
    pub multi_select: bool,
}

impl EntryView {
    /// True when the entry is offered: it names no conditions, or all of
    /// them are met.
    pub open spec fn supported(self) -> bool {
        match self.conditions {
            Some(checks) => all_checks_hold(checks),
            None => true,
        }
    }
}

/// The value of an optional text.
pub open spec fn text_view(text: Option<String>) -> Option<Seq<char>> {
    match text {
        Some(t) => Some(t@),
        None => None,
    }
}

/// The value of a check.
pub open spec fn check_view(check: Check) -> CheckView {
    CheckView {
        matches: check.precondition.matches,
        data: match check.precondition.data {
            SystemDataType::Environment(name) => SystemDataView::Environment(name@),
            SystemDataType::ContainingFile(path) => SystemDataView::ContainingFile(path@),
            SystemDataType::FileExists => SystemDataView::FileExists,
            SystemDataType::CommandExists => SystemDataView::CommandExists,
        },
        values: string_views(check.precondition.values@),
        finding: match check.finding {
            Finding::Variable(value) => FindingView::Variable(text_view(value)),
            Finding::Content(data) => FindingView::Content(text_view(data)),
            Finding::Present(flags) => FindingView::Present(flags@),
        },
    }
}

/// The values of a list of checks.
pub open spec fn check_views(checks: Seq<Check>) -> Seq<CheckView> {
    checks.map_values(|check: Check| check_view(check))
}

/// The value of the conditions of an entry.
pub open spec fn conditions_view(preconditions: Option<Vec<Check>>) -> Option<Seq<CheckView>> {
    match preconditions {
        Some(checks) => Some(check_views(checks@)),
        None => None,
    }
}

/// True when every value of `values` matches the content `data` as
/// `matches` asks: it occurs in it, or it does not.
pub open spec fn all_values_match(data: Seq<char>, values: Seq<Seq<char>>, matches: bool) -> bool {
    forall|i: int| 0 <= i < values.len() ==> text_contains(data, #[trigger] values[i]) == matches
}

/// True when every flag of `flags` is `wanted`.
pub open spec fn all_flags(flags: Seq<bool>, wanted: bool) -> bool {
    forall|i: int| 0 <= i < flags.len() ==> #[trigger] flags[i] == wanted
}

/// True when the condition of `check` is met by what was found.
///
/// A variable must be set, and be among the values exactly when `matches`
/// says so.  A file must be readable, and each value must occur in it
/// exactly when `matches` says so.  Each command must be found exactly
/// when `matches` says so.  Each file must be there, whatever `matches`
/// says.  A finding of another kind than the condition, or one flag more
/// or less than there are values, meets nothing.
pub open spec fn check_holds(check: CheckView) -> bool {
    let values = check.values;
    let matches = check.matches;
    match (check.data, check.finding) {
        (SystemDataView::Environment(_), FindingView::Variable(Some(value))) => lists_text(
            values,
            value,
        ) == matches,
        (SystemDataView::ContainingFile(_), FindingView::Content(Some(data))) => all_values_match(
            data,
            values,
            matches,
        ),
        (SystemDataView::CommandExists, FindingView::Present(flags)) => flags.len() == values.len()
            && all_flags(flags, matches),
        (SystemDataView::FileExists, FindingView::Present(flags)) => flags.len() == values.len()
            && all_flags(flags, true),
        _ => false,
    }
}

/// True when every check of `checks` holds.
pub open spec fn all_checks_hold(checks: Seq<CheckView>) -> bool {
    forall|i: int| 0 <= i < checks.len() ==> check_holds(#[trigger] checks[i])
}

/// The value of the way in which a script is started.
pub open spec fn start_view(start: Option<(String, Vec<String>)>) -> Option<
    (Seq<char>, Seq<Seq<char>>),
> {
    match start {
        Some(pair) => Some((pair.0@, string_views(pair.1@))),
        None => None,
    }
}

/// The value of an entry.
pub open spec fn entry_view(entry: Entry) -> EntryView
    decreases entry,
{
    EntryView {
        name: entry.name@,
        description: entry.description@,
        conditions: conditions_view(entry.preconditions),
        kind: match entry.entry_type {
            EntryType::Entries(children) => EntryKindView::Entries(
                Seq::new(
                    children@.len(),
                    |i: int|
                        if 0 <= i < children@.len() {
                            entry_view(children@[i])
                        } else {
                            arbitrary()
                        },
                ),
            ),
            EntryType::Command(command) => EntryKindView::Command(command@),
            EntryType::Script { file, start } => EntryKindView::Script {
                file: file@,
                start: start_view(start),
            },
        },
        task_list: entry.task_list@,
        multi_select: entry.multi_select,
    }
}

/// The values of a list of entries.
pub open spec fn entry_views(entries: Seq<Entry>) -> Seq<EntryView> {
    Seq::new(entries.len(), |i: int| entry_view(entries[i]))
}

/// True when `entry` stays in a filtered catalog: it is offered, and where
/// it is a group, something is left in it.
pub open spec fn kept(entry: EntryView) -> bool
    decreases entry, 1int,
{
    entry.supported() && match entry.kind {
        EntryKindView::Entries(children) => filtered(children).len() > 0,
        _ => true,
    }
}

/// `entry` with its group, where it is one, filtered.
pub open spec fn pruned(entry: EntryView) -> EntryView
    decreases entry, 1int,
{
    match entry.kind {
        EntryKindView::Entries(children) => EntryView {
            kind: EntryKindView::Entries(filtered(children)),
            ..entry
        },
        _ => entry,
    }
}

/// The entries of `entries` that stay, in order, each with its group
/// filtered.
pub open spec fn filtered(entries: Seq<EntryView>) -> Seq<EntryView>
    decreases entries, 0int,
{
    if entries.len() == 0 {
        Seq::empty()
    } else {
        let front = filtered(entries.drop_last());
        if kept(entries.last()) {
            front.push(pruned(entries.last()))
        } else {
            front
        }
    }
}

/// True when every flag of `flags` is `wanted`.
fn flags_all(flags: &Vec<bool>, wanted: bool) -> (all: bool)
    ensures
        all == all_flags(flags@, wanted),
{
    let mut i: usize = 0;
    while i < flags.len()
        invariant
            i <= flags.len(),
            forall|k: int| 0 <= k < i ==> #[trigger] flags@[k] == wanted,
        decreases flags.len() - i,
    {
        if flags[i] != wanted {
            return false;
        }
        i = i + 1;
    }
    true
}

/// True when every value matches the content `data` as `matches` asks.
fn values_all_match(data: &str, values: &Vec<String>, matches: bool) -> (all: bool)
    ensures
        all == all_values_match(data@, string_views(values@), matches),
{
    let mut i: usize = 0;
    while i < values.len()
        invariant
            i <= values.len(),
            forall|k: int|
                0 <= k < i ==> text_contains(data@, #[trigger] string_views(values@)[k])
                    == matches,
        decreases values.len() - i,
    {
        if contains_text(data, values[i].as_str()) != matches {
            assert(string_views(values@)[i as int] == values@[i as int]@);
            return false;
        }
        i = i + 1;
    }
    true
}

impl Check {
    /// True when the condition is met by what was found, as
    /// [`check_holds`] says.
    pub fn holds(&self) -> (met: bool)
        ensures
            met == check_holds(check_view(*self)),
    {
        let values = &self.precondition.values;
        let matches = self.precondition.matches;
        match &self.precondition.data {
            SystemDataType::Environment(_) => match &self.finding {
                Finding::Variable(Some(value)) => list_contains(values, value.as_str())
                    == matches,
                _ => false,
            },
            SystemDataType::ContainingFile(_) => match &self.finding {
                Finding::Content(Some(data)) => values_all_match(data.as_str(), values, matches),
                _ => false,
            },
            SystemDataType::CommandExists => match &self.finding {
                Finding::Present(flags) => flags.len() == values.len() && flags_all(
                    flags,
                    matches,
                ),
                _ => false,
            },
            SystemDataType::FileExists => match &self.finding {
                Finding::Present(flags) => flags.len() == values.len() && flags_all(flags, true),
                _ => false,
            },
        }
    }
}

impl Entry {
    /// True when the entry is offered: it names no conditions, or all of
    /// them are met.
    pub fn is_supported(&self) -> (offered: bool)
        ensures
            offered == entry_view(*self).supported(),
    {
        match &self.preconditions {
            None => true,
            Some(checks) => {
                let mut i: usize = 0;
                while i < checks.len()
                    invariant
                        i <= checks.len(),
                        self.preconditions == Some(*checks),
                        forall|k: int|
                            0 <= k < i ==> check_holds(#[trigger] check_views(checks@)[k]),
                    decreases checks.len() - i,
                {
                    assert(check_views(checks@)[i as int] == check_view(checks@[i as int]));
                    if !checks[i].holds() {
                        return false;
                    }
                    i = i + 1;
                }
                true
            },
        }
    }
}

/// `list` from its last entry to its first.
spec fn backwards(list: Seq<EntryView>) -> Seq<EntryView>
    decreases list.len(),
{
    if list.len() == 0 {
        Seq::empty()
    } else {
        seq![list.last()] + backwards(list.drop_last())
    }
}

/// `entry` as it stays in a filtered catalog, or `None` where it does not
/// stay.
fn prune_entry(entry: Entry) -> (left: Option<Entry>)
    ensures
        left is Some == kept(entry_view(entry)),
        left matches Some(e) ==> entry_view(e) == pruned(entry_view(entry)),
    decreases entry, 1int,
{
    if !entry.is_supported() {
        return None;
    }
    let ghost before = entry_view(entry);
    let Entry { name, description, preconditions, entry_type, task_list, multi_select } = entry;
    match entry_type {
        EntryType::Entries(children) => {
            let ghost child_views = entry_views(children@);
            assert(before.kind == EntryKindView::Entries(child_views)) by {
                assert(before.kind->Entries_0 =~= child_views);
            }
            let left_children = filter_list(children);
            if left_children.len() == 0 {
                None
            } else {
                let left = Entry {
                    name,
                    description,
                    preconditions,
                    entry_type: EntryType::Entries(left_children),
                    task_list,
                    multi_select,
                };
                assert(entry_view(left).kind->Entries_0 =~= entry_views(left_children@));
                Some(left)
            }
        },
        EntryType::Command(command) => Some(
            Entry {
                name,
                description,
                preconditions,
                entry_type: EntryType::Command(command),
                task_list,
                multi_select,
            },
        ),
        EntryType::Script { file, start } => Some(
            Entry {
                name,
                description,
                preconditions,
                entry_type: EntryType::Script { file, start },
                task_list,
                multi_select,
            },
        ),
    }
}

/// The entries of `entries` that stay, in order, each with its group
/// filtered.
fn filter_list(entries: Vec<Entry>) -> (left: Vec<Entry>)
    ensures
        entry_views(left@) == filtered(entry_views(entries@)),
    decreases entries, 0int,
{
    let ghost all = entry_views(entries@);
    let mut source = entries;
    let mut stack: Vec<Entry> = Vec::new();
    while source.len() > 0
        invariant
            filtered(all) == filtered(entry_views(source@)) + backwards(entry_views(stack@)),
            forall|i: int| 0 <= i < source@.len() ==> source@[i] == entries@[i],
            source@.len() <= entries@.len(),
        decreases source.len(),
    {
        let ghost before_source = entry_views(source@);
        let ghost before_stack = entry_views(stack@);
        let entry = source.pop().unwrap();
        assert(entry_views(source@) =~= before_source.drop_last());
        match prune_entry(entry) {
            Some(e) => {
                stack.push(e);
                assert(entry_views(stack@).drop_last() =~= before_stack);
            },
            None => {},
        }
    }
    let mut left: Vec<Entry> = Vec::new();
    while stack.len() > 0
        invariant
            filtered(all) == entry_views(left@) + backwards(entry_views(stack@)),
        decreases stack.len(),
    {
        let ghost before_stack = entry_views(stack@);
        let entry = stack.pop().unwrap();
        assert(entry_views(stack@) =~= before_stack.drop_last());
        left.push(entry);
    }
    left
}

/// Leaves in `entries` those that are offered, in order.  A group is
/// filtered in the same way, and a group in which nothing is left is not
/// offered either.
pub fn filter_entries(entries: &mut Vec<Entry>)
    ensures
        entry_views(final(entries)@) == filtered(entry_views(old(entries)@)),
{
    let mut taken: Vec<Entry> = Vec::new();
    std::mem::swap(entries, &mut taken);
    *entries = filter_list(taken);
}

/// Every entry that stays in a filtered catalog is offered.
pub proof fn lemma_filtered_are_supported(entries: Seq<EntryView>, i: int)
    requires
        0 <= i < filtered(entries).len(),
    ensures
        filtered(entries)[i].supported(),
    decreases entries.len(),
{
    if entries.len() > 0 {
        let front = filtered(entries.drop_last());
        let last = entries.last();
        if i < front.len() {
            lemma_filtered_are_supported(entries.drop_last(), i);
        } else {
            assert(kept(last));
            assert(filtered(entries)[i] == pruned(last));
        }
    }
}

/// The path of the file that describes the tab in `directory`, in a
/// catalog unpacked at `root`: below the directory of the platform where
/// the catalog has one, directly below the root where it has none.
pub open spec fn tab_data_path(
    root: Seq<char>,
    platform: Seq<char>,
    directory: Seq<char>,
    use_platform_paths: bool,
) -> Seq<char> {
    if use_platform_paths {
        path_join(path_join(path_join(root, platform), directory), "tab_data.toml"@)
    } else {
        path_join(path_join(root, directory), "tab_data.toml"@)
    }
}

/// The path of the list of tabs of a platform.
pub open spec fn platform_tabs_path(root: Seq<char>, platform: Seq<char>) -> Seq<char> {
    path_join(path_join(root, platform), "tabs.toml"@)
}

/// The path of the list of tabs of a catalog without platforms.
pub open spec fn fallback_tabs_path(root: Seq<char>) -> Seq<char> {
    path_join(root, "tabs.toml"@)
}

/// The path of the list of tabs of the platform `platform`, in a catalog
/// unpacked at `root`.
pub fn platform_tabs_file(root: &str, platform: &str) -> (path: String)
    ensures
        path@ == platform_tabs_path(root@, platform@),
{
    let directory = join_path(root, platform);
    join_path(directory.as_str(), "tabs.toml")
}

/// The path of the list of tabs that is read where the platform has none
/// of its own.
pub fn fallback_tabs_file(root: &str) -> (path: String)
    ensures
        path@ == fallback_tabs_path(root@),
{
    join_path(root, "tabs.toml")
}

/// The path of the file that describes the tab in `directory`.
pub fn tab_data_file(root: &str, platform: &str, directory: &str, use_platform_paths: bool)
    -> (path: String)
    ensures
        path@ == tab_data_path(root@, platform@, directory@, use_platform_paths),
{
    let base = if use_platform_paths {
        join_path(root, platform)
    } else {
        String::from_str(root)
    };
    let tab = join_path(base.as_str(), directory);
    join_path(tab.as_str(), "tab_data.toml")
}

/// The extension of the scripts of a platform: `ps1` on Windows, `sh`
/// everywhere else.
pub open spec fn script_extension(windows: bool) -> Seq<char> {
    if windows {
        "ps1"@
    } else {
        "sh"@
    }
}

/// The path of the script that an entry in `command_dir` names as
/// `script`: the script in that directory, with the extension of the
/// platform.
pub open spec fn script_path(command_dir: Seq<char>, script: Seq<char>, windows: bool) -> Seq<
    char,
> {
    path_with_extension(path_join(command_dir, script), script_extension(windows))
}

/// The path of the script that an entry in `command_dir` names as
/// `script`.
pub fn script_file(command_dir: &str, script: &str, windows: bool) -> (path: String)
    ensures
        path@ == script_path(command_dir@, script@, windows),
{
    let base = join_path(command_dir, script);
    proof {
        reveal_strlit("ps1");
        reveal_strlit("sh");
    }
    if windows {
        with_extension(base.as_str(), "ps1")
    } else {
        with_extension(base.as_str(), "sh")
    }
}

/// True when the extension of `path` is that of the scripts of the
/// platform.
pub fn has_script_extension(path: &str, windows: bool) -> (has: bool)
    ensures
        has == (path_extension(path@) == Some(script_extension(windows))),
{
    match extension_of(path) {
        Some(extension) => {
            if windows {
                crate::text::same_text(extension.as_str(), "ps1")
            } else {
                crate::text::same_text(extension.as_str(), "sh")
            }
        },
        None => false,
    }
}

} // verus!
