//! How a script of the catalog is started.
//!
//! A script that names its interpreter in a first line of the form
//! `#!program arguments` is started by that program, with the arguments of
//! the line and then the path of the script.  A script without such a line
//! is started by `/bin/sh -e` when its name ends in `.sh`, and not at all
//! otherwise.

use crate::command::string_views;
use vstd::prelude::*;

verus! {

/// True for the characters that separate the words of a line: those with
/// the Unicode property `White_Space`.
pub open spec fn is_space(c: char) -> bool {
    let code = c as u32;
    ||| 0x09 <= code <= 0x0D
    ||| code == 0x20
    ||| code == 0x85
    ||| code == 0xA0
    ||| code == 0x1680
    ||| 0x2000 <= code <= 0x200A
    ||| code == 0x2028
    ||| code == 0x2029
    ||| code == 0x202F
    ||| code == 0x205F
    ||| code == 0x3000
}

/// How many characters stand at the start of `text` before its first space,
/// or before its end.
pub open spec fn run_len(text: Seq<char>) -> nat
    decreases text.len(),
{
    if text.len() == 0 || is_space(text[0]) {
        0
    } else {
        1 + run_len(text.drop_first())
    }
}

/// The words of `text`: its longest runs of characters that are no spaces,
/// in order.
pub open spec fn words(text: Seq<char>) -> Seq<Seq<char>>
    decreases text.len(),
{
    if text.len() == 0 {
        Seq::empty()
    } else if is_space(text[0]) {
        words(text.drop_first())
    } else {
        let n = run_len(text);
        if 0 < n <= text.len() {
            seq![text.take(n as int)] + words(text.skip(n as int))
        } else {
            Seq::empty()
        }
    }
}

/// True when `line` starts with the two characters `#!`.
pub open spec fn has_marker(line: Seq<char>) -> bool {
    line.len() >= 2 && line[0] == '#' && line[1] == '!'
}

/// The words behind the marker of a line that has one, and that names a
/// program there.
pub open spec fn shebang_words(first_line: Option<Seq<char>>) -> Option<Seq<Seq<char>>> {
    match first_line {
        Some(line) => if has_marker(line) && words(line.skip(2)).len() > 0 {
            Some(words(line.skip(2)))
        } else {
            None
        },
        None => None,
    }
}

/// How a script without a usable first line is started: by `/bin/sh -e`
/// where it is a shell script, not at all where it is not.
pub open spec fn default_start(script_path: Seq<char>, is_shell_script: bool) -> Option<
    (Seq<char>, Seq<Seq<char>>),
> {
    if is_shell_script {
        Some(("/bin/sh"@, seq!["-e"@, script_path]))
    } else {
        None
    }
}

/// How the script at `script_path` is started, as a program and its
/// arguments, or `None` where it is not to be offered.
///
/// `first_line` is the first line of the script, where it could be read as
/// text.  Where the line names a program, `program_ok` says whether that
/// program can be run; it counts only where `validate` asks for it.
pub open spec fn script_start(
    script_path: Seq<char>,
    is_shell_script: bool,
    first_line: Option<Seq<char>>,
    validate: bool,
    program_ok: bool,
) -> Option<(Seq<char>, Seq<Seq<char>>)> {
    match shebang_words(first_line) {
        None => default_start(script_path, is_shell_script),
        Some(named) => if validate && !program_ok {
            None
        } else {
            Some((named[0], named.skip(1).push(script_path)))
        },
    }
}

/// The name of the directory that holds the catalog of a platform.
pub open spec fn platform_name(target_os: Seq<char>) -> Seq<char> {
    if target_os == "windows"@ {
        "windows"@
    } else if target_os == "macos"@ {
        "macos"@
    } else {
        "linux"@
    }
}

/// True when a file with these properties can be run: it is a regular file
/// and one of the three execute bits of its mode is set.
pub open spec fn runnable(is_file: bool, mode: u32) -> bool {
    is_file && mode & 0o111 != 0
}

/// True when a file with these properties can be run.
pub fn is_executable(is_file: bool, mode: u32) -> (can_run: bool)
    ensures
        can_run == runnable(is_file, mode),
{
    is_file && mode & 0o111 != 0
}

/// The default of the `multi_select` setting of an entry.
pub fn default_true() -> (value: bool)
    ensures
        value,
{
    true
}

/// The name of the directory that holds the catalog for the operating
/// system named `target_os`: its own for Windows and macOS, that of Linux
/// for every other.
pub fn detect_platform(target_os: &str) -> (name: &'static str)
    ensures
        name@ == platform_name(target_os@),
{
    if crate::text::same_text(target_os, "windows") {
        "windows"
    } else if crate::text::same_text(target_os, "macos") {
        "macos"
    } else {
        "linux"
    }
}

/// True when `c` separates words.
pub fn is_whitespace(c: char) -> (space: bool)
    ensures
        space == is_space(c),
{
    let code: u32 = c as u32;
    (0x09 <= code && code <= 0x0D) || code == 0x20 || code == 0x85 || code == 0xA0 || code
        == 0x1680 || (0x2000 <= code && code <= 0x200A) || code == 0x2028 || code == 0x2029
        || code == 0x202F || code == 0x205F || code == 0x3000
}

/// A run of characters without a space ends at a space or at the end of
/// the text, and holds no space.
proof fn lemma_run_len(text: Seq<char>)
    ensures
        run_len(text) <= text.len(),
        run_len(text) < text.len() ==> is_space(text[run_len(text) as int]),
        forall|i: int| 0 <= i < run_len(text) ==> !is_space(#[trigger] text[i]),
    decreases text.len(),
{
    if text.len() == 0 || is_space(text[0]) {
    } else {
        let rest = text.drop_first();
        lemma_run_len(rest);
        assert forall|i: int| 0 <= i < run_len(text) implies !is_space(#[trigger] text[i]) by {
            if i > 0 {
                assert(text[i] == rest[i - 1]);
            }
        }
    }
}

/// Every word of a text holds at least one character and no space.
pub proof fn lemma_words_hold_no_space(text: Seq<char>, i: int)
    requires
        0 <= i < words(text).len(),
    ensures
        words(text)[i].len() > 0,
        forall|j: int| 0 <= j < words(text)[i].len() ==> !is_space(#[trigger] words(text)[i][j]),
    decreases text.len(),
{
    if text.len() == 0 {
    } else if is_space(text[0]) {
        lemma_words_hold_no_space(text.drop_first(), i);
    } else {
        lemma_run_len(text);
        if i > 0 {
            lemma_words_hold_no_space(text.skip(run_len(text) as int), i - 1);
        }
    }
}

/// A stretch of `count` characters without a space that ends at a space or
/// at the end of the text is the first run of the text.
proof fn lemma_run_found(text: Seq<char>, count: nat)
    requires
        count <= text.len(),
        forall|i: int| 0 <= i < count ==> !is_space(#[trigger] text[i]),
        count < text.len() ==> is_space(text[count as int]),
    ensures
        run_len(text) == count,
    decreases count,
{
    if count > 0 {
        let rest = text.drop_first();
        assert forall|i: int| 0 <= i < count - 1 implies !is_space(#[trigger] rest[i]) by {}
        lemma_run_found(rest, (count - 1) as nat);
    }
}

/// The words of `line`.
pub fn split_words(line: &str) -> (found: Vec<String>)
    ensures
        string_views(found@) == words(line@),
{
    let length = line.unicode_len();
    let mut found: Vec<String> = Vec::new();
    let mut at: usize = 0;
    assert(line@.skip(0) =~= line@);
    while at < length
        invariant
            at <= length,
            length == line@.len(),
            words(line@) == string_views(found@) + words(line@.skip(at as int)),
        decreases length - at,
    {
        let ghost rest = line@.skip(at as int);
        let c = line.get_char(at);
        if is_whitespace(c) {
            assert(rest.drop_first() =~= line@.skip(at + 1));
            at = at + 1;
        } else {
            let start = at;
            let mut end: usize = at + 1;
            while end < length && !is_whitespace(line.get_char(end))
                invariant
                    start < end <= length,
                    length == line@.len(),
                    forall|i: int| start <= i < end ==> !is_space(#[trigger] line@[i]),
                decreases length - end,
            {
                end = end + 1;
            }
            proof {
                let count = (end - start) as nat;
                assert forall|i: int| 0 <= i < count implies !is_space(#[trigger] rest[i]) by {}
                lemma_run_found(rest, count);
                assert(rest.take(count as int) =~= line@.subrange(start as int, end as int));
                assert(rest.skip(count as int) =~= line@.skip(end as int));
            }
            let word = String::from_str(line.substring_char(start, end));
            found.push(word);
            at = end;
        }
    }
    found
}

/// The text of `line` behind its first two characters.
fn behind_marker(line: &str) -> (rest: &str)
    requires
        line@.len() >= 2,
    ensures
        rest@ == line@.skip(2),
{
    let length = line.unicode_len();
    let rest = line.substring_char(2, length);
    rest
}

/// True when `line` starts with `#!`.
fn starts_with_marker(line: &str) -> (marked: bool)
    ensures
        marked == has_marker(line@),
{
    let length = line.unicode_len();
    length >= 2 && line.get_char(0) == '#' && line.get_char(1) == '!'
}

/// The words behind the marker of `first_line`, where it has the marker
/// and names a program.
fn named_words(first_line: Option<&str>) -> (named: Option<Vec<String>>)
    ensures
        named is Some == shebang_words(first_line_view(first_line)) is Some,
        named matches Some(list) ==> shebang_words(first_line_view(first_line)) == Some(
            string_views(list@),
        ),
{
    match first_line {
        Some(line) => {
            if starts_with_marker(line) {
                let list = split_words(behind_marker(line));
                if list.len() > 0 {
                    Some(list)
                } else {
                    None
                }
            } else {
                None
            }
        },
        None => None,
    }
}

/// The value of an optional line.
pub open spec fn first_line_view(first_line: Option<&str>) -> Option<Seq<char>> {
    match first_line {
        Some(line) => Some(line@),
        None => None,
    }
}

/// The program that the first line of a script names, where it names one.
/// It is the program whose fitness decides, under validation, whether the
/// script is offered.
pub fn shebang_program(first_line: Option<&str>) -> (program: Option<String>)
    ensures
        program is Some == shebang_words(first_line_view(first_line)) is Some,
        program matches Some(name) ==> name@ == shebang_words(first_line_view(first_line))->0[0],
{
    match named_words(first_line) {
        Some(list) => {
            let name = list[0].clone();
            Some(name)
        },
        None => None,
    }
}

/// How the script at `script_path` is started, as [`script_start`] says.
pub fn get_shebang(
    script_path: &str,
    is_shell_script: bool,
    first_line: Option<&str>,
    validate: bool,
    program_ok: bool,
) -> (start: Option<(String, Vec<String>)>)
    ensures
        start is Some == script_start(
            script_path@,
            is_shell_script,
            first_line_view(first_line),
            validate,
            program_ok,
        ) is Some,
        start matches Some(pair) ==> script_start(
            script_path@,
            is_shell_script,
            first_line_view(first_line),
            validate,
            program_ok,
        ) == Some((pair.0@, string_views(pair.1@))),
{
    match named_words(first_line) {
        None => {
            if is_shell_script {
                let mut args: Vec<String> = Vec::new();
                args.push(String::from_str("-e"));
                args.push(String::from_str(script_path));
                Some((String::from_str("/bin/sh"), args))
            } else {
                None
            }
        },
        Some(list) => {
            if validate && !program_ok {
                None
            } else {
                let ghost named = string_views(list@);
                let program = list[0].clone();
                let mut args: Vec<String> = Vec::new();
                let mut i: usize = 1;
                while i < list.len()
                    invariant
                        1 <= i <= list.len(),
                        named == string_views(list@),
                        string_views(args@) == named.subrange(1, i as int),
                    decreases list.len() - i,
                {
                    let ghost before = string_views(args@);
                    args.push(list[i].clone());
                    assert(string_views(args@) =~= before.push(named[i as int]));
                    i = i + 1;
                }
                args.push(String::from_str(script_path));
                Some((program, args))
            }
        },
    }
}

/// How a script is started where scripts are PowerShell scripts: by
/// `powershell.exe` where it is one, not at all where it is not, or where
/// validation finds no PowerShell.
pub open spec fn powershell_start(
    script_path: Seq<char>,
    is_powershell_script: bool,
    validate: bool,
    powershell_found: bool,
) -> Option<(Seq<char>, Seq<Seq<char>>)> {
    if is_powershell_script && (!validate || powershell_found) {
        Some(
            (
                "powershell.exe"@,
                seq!["-NoProfile"@, "-ExecutionPolicy"@, "Bypass"@, "-File"@, script_path],
            ),
        )
    } else {
        None
    }
}

/// How the PowerShell script at `script_path` is started, as
/// [`powershell_start`] says.
pub fn get_powershell_shebang(
    script_path: &str,
    is_powershell_script: bool,
    validate: bool,
    powershell_found: bool,
) -> (start: Option<(String, Vec<String>)>)
    ensures
        start is Some == powershell_start(
            script_path@,
            is_powershell_script,
            validate,
            powershell_found,
        ) is Some,
        start matches Some(pair) ==> powershell_start(
            script_path@,
            is_powershell_script,
            validate,
            powershell_found,
        ) == Some((pair.0@, string_views(pair.1@))),
{
    if is_powershell_script && (!validate || powershell_found) {
        let mut args: Vec<String> = Vec::new();
        args.push(String::from_str("-NoProfile"));
        args.push(String::from_str("-ExecutionPolicy"));
        args.push(String::from_str("Bypass"));
        args.push(String::from_str("-File"));
        args.push(String::from_str(script_path));
        Some((String::from_str("powershell.exe"), args))
    } else {
        None
    }
}

} // verus!
