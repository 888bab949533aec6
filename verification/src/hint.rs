//! The keys that the window of a runner answers to, for the hint line.

use crate::command::string_views;
use vstd::prelude::*;

verus! {

/// What a key does, and the keys that do it.
#[derive(Debug)]
pub struct Shortcut {
    pub desc: String,
    pub key_sequences: Vec<String>,
}

/// The mathematical value of a [`Shortcut`].
pub struct ShortcutView {
    pub desc: Seq<char>,
    pub key_sequences: Seq<Seq<char>>,
}

impl View for Shortcut {
    type V = ShortcutView;

    open spec fn view(&self) -> ShortcutView {
        ShortcutView { desc: self.desc@, key_sequences: string_views(self.key_sequences@) }
    }
}

/// The values of a list of shortcuts.
pub open spec fn shortcut_views(shortcuts: Seq<Shortcut>) -> Seq<ShortcutView> {
    shortcuts.map_values(|shortcut: Shortcut| shortcut@)
}

/// The name of the hint of a runner.
pub open spec fn hint_title(finished: bool) -> Seq<char> {
    if finished {
        "Finished command"@
    } else {
        "Running command"@
    }
}

/// The shortcuts of a runner.  A running command can be killed; the window
/// of a finished one can be closed and its log saved.  Both can be
/// scrolled.
pub open spec fn hint_shortcuts(finished: bool) -> Seq<ShortcutView> {
    if finished {
        seq![
            ShortcutView { desc: "Close window"@, key_sequences: seq!["Enter"@, "q"@] },
            ShortcutView { desc: "Scroll up"@, key_sequences: seq!["Page up"@] },
            ShortcutView { desc: "Scroll down"@, key_sequences: seq!["Page down"@] },
            ShortcutView { desc: "Save log"@, key_sequences: seq!["l"@] },
        ]
    } else {
        seq![
            ShortcutView { desc: "Kill the command"@, key_sequences: seq!["CTRL-c"@] },
            ShortcutView { desc: "Scroll up"@, key_sequences: seq!["Page up"@] },
            ShortcutView { desc: "Scroll down"@, key_sequences: seq!["Page down"@] },
        ]
    }
}

/// The shortcut that says that `key` does `desc`.
fn shortcut(desc: &str, key: &str) -> (made: Shortcut)
    ensures
        made@ == (ShortcutView { desc: desc@, key_sequences: seq![key@] }),
{
    let mut key_sequences: Vec<String> = Vec::new();
    key_sequences.push(String::from_str(key));
    let made = Shortcut { desc: String::from_str(desc), key_sequences };
    assert(made@.key_sequences =~= seq![key@]);
    made
}

/// The name of the hint of a runner and its shortcuts.
pub fn shortcut_list(finished: bool) -> (hint: (String, Vec<Shortcut>))
    ensures
        hint.0@ == hint_title(finished),
        shortcut_views(hint.1@) == hint_shortcuts(finished),
{
    let mut shortcuts: Vec<Shortcut> = Vec::new();
    if finished {
        let mut close_keys: Vec<String> = Vec::new();
        close_keys.push(String::from_str("Enter"));
        close_keys.push(String::from_str("q"));
        let close = Shortcut { desc: String::from_str("Close window"), key_sequences: close_keys };
        assert(close@.key_sequences =~= seq!["Enter"@, "q"@]);
        shortcuts.push(close);
        shortcuts.push(shortcut("Scroll up", "Page up"));
        shortcuts.push(shortcut("Scroll down", "Page down"));
        shortcuts.push(shortcut("Save log", "l"));
        (String::from_str("Finished command"), shortcuts)
    } else {
        shortcuts.push(shortcut("Kill the command", "CTRL-c"));
        shortcuts.push(shortcut("Scroll up", "Page up"));
        shortcuts.push(shortcut("Scroll down", "Page down"));
        (String::from_str("Running command"), shortcuts)
    }
}

} // verus!
