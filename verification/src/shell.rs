//! The command that runs a composed script.
//!
//! The script is handed to a POSIX shell as one argument: `sh -c <script>`.
//! The child inherits the environment of the program, with a few variables
//! set on top that tell it what kind of terminal it runs in.  The command
//! is built with the command builder of `portable_pty`, which the caller
//! then spawns on the slave side of a pseudo-terminal.

use portable_pty::CommandBuilder;
use vstd::prelude::*;

verus! {

#[verifier::external_type_specification]
#[verifier::external_body]
pub struct ExCommandBuilder(portable_pty::CommandBuilder);

/// The argument vector that a command builder holds: the program first,
/// then each argument in the order in which it was added.
pub uninterp spec fn builder_argv(builder: portable_pty::CommandBuilder) -> Seq<Seq<char>>;

/// The environment variables that were set on a command builder by its
/// user, each name with its value.  What the builder took over from the
/// environment of the program is not among them.
pub uninterp spec fn builder_overrides(builder: portable_pty::CommandBuilder) -> Map<
    Seq<char>,
    Seq<char>,
>;

/// True when `name` is made of ASCII capitals, digits and underscores
/// alone.  Two such names that differ stay different when case is ignored.
pub open spec fn plain_name(name: Seq<char>) -> bool {
    forall|i: int|
        0 <= i < name.len() ==> {
            let c = #[trigger] name[i];
            ('A' <= c <= 'Z') || ('0' <= c <= '9') || c == '_'
        }
}

/// True when every variable set on `builder` has a plain name.
pub open spec fn plain_overrides(builder: portable_pty::CommandBuilder) -> bool {
    forall|name: Seq<char>| #[trigger]
        builder_overrides(builder).contains_key(name) ==> plain_name(name)
}

/// No variable at all.
pub open spec fn no_overrides() -> Map<Seq<char>, Seq<char>> {
    Map::empty()
}

/// `portable_pty::CommandBuilder::new`: a builder whose argument vector
/// holds the program and nothing else, and on which no variable has been
/// set.
#[verifier::external_body]
fn new_builder(program: &str) -> (builder: CommandBuilder)
    ensures
        builder_argv(builder) == seq![program@],
        builder_overrides(builder) == no_overrides(),
{
    CommandBuilder::new(program)
}

/// `portable_pty::CommandBuilder::arg`: adds one argument at the end of the
/// argument vector and leaves the variables alone.  The call aborts on a
/// builder without a program, which the precondition leaves out.
#[verifier::external_body]
fn push_arg(builder: &mut CommandBuilder, arg: &str)
    requires
        builder_argv(*old(builder)).len() > 0,
    ensures
        builder_argv(*final(builder)) == builder_argv(*old(builder)).push(arg@),
        builder_overrides(*final(builder)) == builder_overrides(*old(builder)),
{
    builder.arg(arg)
}

/// `portable_pty::CommandBuilder::env`: sets one variable, in place of an
/// earlier value of the same name, and leaves the argument vector alone.
/// Where the platform ignores case in names the builder keeps one variable
/// for all spellings of a name; the precondition keeps to plain names, of
/// which no two are spellings of one.
#[verifier::external_body]
fn set_env(builder: &mut CommandBuilder, name: &str, value: &str)
    requires
        plain_name(name@),
        plain_overrides(*old(builder)),
    ensures
        builder_overrides(*final(builder)) == builder_overrides(*old(builder)).insert(
            name@,
            value@,
        ),
        builder_argv(*final(builder)) == builder_argv(*old(builder)),
{
    builder.env(name, value)
}

/// The argument vector of the shell invocation that runs `script`.
pub open spec fn shell_argv(script: Seq<char>) -> Seq<Seq<char>> {
    seq![seq!['s', 'h'], seq!['-', 'c'], script]
}

/// The variables that every child is given on top of the environment it
/// inherits: the kind of terminal, its colour depth, and a mark by which a
/// script can tell that it runs inside the interface.
pub open spec fn child_environment() -> Map<Seq<char>, Seq<char>> {
    no_overrides().insert("TERM"@, "xterm-256color"@).insert(
        "COLORTERM"@,
        "truecolor"@,
    ).insert("OSUTIL_TUI_MODE"@, "1"@)
}

/// The variables of [`child_environment`] as a list, in the order in which
/// they are set.
pub open spec fn child_environment_list() -> Seq<(Seq<char>, Seq<char>)> {
    seq![
        ("TERM"@, "xterm-256color"@),
        ("COLORTERM"@, "truecolor"@),
        ("OSUTIL_TUI_MODE"@, "1"@),
    ]
}

/// The values of a list of pairs of strings.
pub open spec fn pair_views(pairs: Seq<(String, String)>) -> Seq<(Seq<char>, Seq<char>)> {
    pairs.map_values(|pair: (String, String)| (pair.0@, pair.1@))
}

/// The variables that every child is given, each name with its value.
pub fn child_environment_pairs() -> (pairs: Vec<(String, String)>)
    ensures
        pair_views(pairs@) == child_environment_list(),
{
    let mut pairs: Vec<(String, String)> = Vec::new();
    pairs.push((String::from_str("TERM"), String::from_str("xterm-256color")));
    pairs.push((String::from_str("COLORTERM"), String::from_str("truecolor")));
    pairs.push((String::from_str("OSUTIL_TUI_MODE"), String::from_str("1")));
    pairs
}

/// The names of the variables of [`child_environment`] are plain.
proof fn lemma_child_names_plain()
    ensures
        plain_name("TERM"@),
        plain_name("COLORTERM"@),
        plain_name("OSUTIL_TUI_MODE"@),
{
    reveal_strlit("TERM");
    reveal_strlit("COLORTERM");
    reveal_strlit("OSUTIL_TUI_MODE");
}

/// The command that runs `script`: exactly `sh -c <script>`, with the whole
/// script as a single argument, and with the variables of
/// [`child_environment`] set.
pub fn shell_command(script: &str) -> (builder: CommandBuilder)
    ensures
        builder_argv(builder) == shell_argv(script@),
        builder_overrides(builder) == child_environment(),
{
    proof {
        reveal_strlit("sh");
        reveal_strlit("-c");
        assert("sh"@ =~= seq!['s', 'h']);
        assert("-c"@ =~= seq!['-', 'c']);
        lemma_child_names_plain();
    }
    let mut builder = new_builder("sh");
    push_arg(&mut builder, "-c");
    push_arg(&mut builder, script);
    set_env(&mut builder, "TERM", "xterm-256color");
    set_env(&mut builder, "COLORTERM", "truecolor");
    set_env(&mut builder, "OSUTIL_TUI_MODE", "1");
    builder
}

} // verus!
