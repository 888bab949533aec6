//! The menu that is made of the entries of the catalog.
//!
//! Every tab of the menu is a tree of lines.  The tree is an
//! `ego_tree::Tree`, built from its root downwards: each line is appended
//! below the line above it, after the lines that stand before it.

use crate::catalog::{
    entry_view, entry_views, filter_entries, filtered, Entry, EntryKindView, EntryType,
    EntryView,
};
use crate::command::{string_views, Command, CommandView};
use crate::text::copy_strings;
use ego_tree::{NodeId, Tree};
use std::rc::Rc;
use vstd::prelude::*;

verus! {

/// What a line of the menu stands for.
#[derive(Debug)]
pub struct ListNode {
    pub name: String,
    pub description: String,
    pub command: Command,
    pub task_list: String,
    pub multi_select: bool,
}

/// The mathematical value of a [`ListNode`].
pub struct LineView {
    pub name: Seq<char>,
    pub description: Seq<char>,
    pub command: CommandView,
    pub task_list: Seq<char>,
    pub multi_select: bool,
}

impl View for ListNode {
    type V = LineView;

    open spec fn view(&self) -> LineView {
        LineView {
            name: self.name@,
            description: self.description@,
            command: self.command@,
            task_list: self.task_list@,
            multi_select: self.multi_select,
        }
    }
}

/// A line of a menu with the lines below it.
pub struct MenuView {
    pub line: LineView,
    pub children: Seq<MenuView>,
}

/// A line as it stands in a tree: the position of the line above it among
/// the lines of the tree, and what it stands for.  The root of a tree has
/// no line above it, and the position `-1`.
pub struct PlacedLine {
    pub parent: int,
    pub line: LineView,
}

/// A tab of the catalog as it is read: a name and the entries below it.
#[derive(Debug)]
pub struct TabEntry {
    pub name: String,
    pub data: Vec<Entry>,
}

/// A tab of the menu: a name and the tree of its lines, below a root that
/// is no line itself.
pub struct Tab {
    pub name: String,
    pub tree: Tree<Rc<ListNode>>,
}

#[verifier::external_type_specification]
#[verifier::external_body]
#[verifier::reject_recursive_types(T)]
pub struct ExTree<T>(ego_tree::Tree<T>);

#[verifier::external_type_specification]
#[verifier::external_body]
pub struct ExNodeId(ego_tree::NodeId);

/// The lines of a tree in the order in which they were added to it, the
/// root first, each with the position of the line above it.  In a tree that
/// was built by appending alone, the lines below one line stand in the
/// order in which they were added.
pub uninterp spec fn tree_lines(tree: ego_tree::Tree<std::rc::Rc<ListNode>>) -> Seq<PlacedLine>;

/// The position among the lines of its tree of the line that a node id
/// names, counted from zero.
pub uninterp spec fn node_position(id: ego_tree::NodeId) -> int;

/// `ego_tree::Tree::new`: a tree that holds the root and nothing else.
#[verifier::external_body]
fn tree_new(root: ListNode) -> (tree: Tree<Rc<ListNode>>)
    ensures
        tree_lines(tree) == seq![PlacedLine { parent: -1, line: root@ }],
{
    Tree::new(Rc::new(root))
}

/// `ego_tree::Tree::root`, of which the id is taken: the root is the first
/// line of its tree.
#[verifier::external_body]
fn tree_root(tree: &Tree<Rc<ListNode>>) -> (id: NodeId)
    ensures
        node_position(id) == 0,
{
    tree.root().id()
}

/// `ego_tree::NodeMut::append`, on the node that `parent` names: the new
/// line is added behind all lines of the tree, below `parent`, and is
/// named by the id that comes back.  The precondition leaves out ids that
/// name no line of the tree.
#[verifier::external_body]
fn tree_append(tree: &mut Tree<Rc<ListNode>>, parent: NodeId, line: ListNode) -> (id: NodeId)
    requires
        0 <= node_position(parent) < tree_lines(*old(tree)).len(),
    ensures
        tree_lines(*final(tree)) == tree_lines(*old(tree)).push(
            PlacedLine { parent: node_position(parent), line: line@ },
        ),
        node_position(id) == tree_lines(*old(tree)).len(),
{
    tree.get_mut(parent).unwrap().append(Rc::new(line)).id()
}

/// The lines that `entry` adds to a menu whose lines above allow several
/// choices as `parent_multi_select` says.
///
/// A line allows several choices where its entry and every line above do.
/// A group becomes a line with the lines of its entries below it.  A
/// command becomes a line.  A script becomes a line where it has a way to
/// be started, and nothing where it has none.
pub open spec fn entry_menu(entry: EntryView, parent_multi_select: bool) -> Seq<MenuView>
    decreases entry, 1int,
{
    let multi_select = parent_multi_select && entry.multi_select;
    match entry.kind {
        EntryKindView::Entries(children) => seq![
            MenuView {
                line: LineView {
                    name: entry.name,
                    description: entry.description,
                    command: CommandView::Nothing,
                    task_list: Seq::empty(),
                    multi_select,
                },
                children: menu_of(children, multi_select),
            },
        ],
        EntryKindView::Command(command) => seq![
            MenuView {
                line: LineView {
                    name: entry.name,
                    description: entry.description,
                    command: CommandView::Raw(command),
                    task_list: Seq::empty(),
                    multi_select,
                },
                children: Seq::empty(),
            },
        ],
        EntryKindView::Script { file, start } => match start {
            Some((executable, args)) => seq![
                MenuView {
                    line: LineView {
                        name: entry.name,
                        description: entry.description,
                        command: CommandView::LocalFile { executable, args, file },
                        task_list: entry.task_list,
                        multi_select,
                    },
                    children: Seq::empty(),
                },
            ],
            None => Seq::empty(),
        },
    }
}

/// The lines of the menu for `entries`, in order.
pub open spec fn menu_of(entries: Seq<EntryView>, parent_multi_select: bool) -> Seq<MenuView>
    decreases entries, 0int,
{
    if entries.len() == 0 {
        Seq::empty()
    } else {
        menu_of(entries.drop_last(), parent_multi_select) + entry_menu(
            entries.last(),
            parent_multi_select,
        )
    }
}

/// How many lines `menu` holds, those below its lines counted in.
pub open spec fn menu_size(menu: Seq<MenuView>) -> nat
    decreases menu,
{
    if menu.len() == 0 {
        0
    } else {
        menu_size(menu.drop_last()) + 1 + menu_size(menu.last().children)
    }
}

/// The lines of `menu` as they stand in a tree when they are added below
/// the line at position `parent` and the first of them gets the position
/// `start`: each line is followed by the lines below it, and then by the
/// line that stands after it.
pub open spec fn placed(menu: Seq<MenuView>, parent: int, start: int) -> Seq<PlacedLine>
    decreases menu,
{
    if menu.len() == 0 {
        Seq::empty()
    } else {
        let front = menu.drop_last();
        let last = menu.last();
        let at = start + menu_size(front);
        placed(front, parent, start) + seq![PlacedLine { parent, line: last.line }] + placed(
            last.children,
            at,
            at + 1,
        )
    }
}

/// The entries of a tab as they go into the menu: filtered where the
/// catalog is validated, as they are where it is not.
pub open spec fn tab_entries(data: Seq<EntryView>, validate: bool) -> Seq<EntryView> {
    if validate {
        filtered(data)
    } else {
        data
    }
}

/// The root of every tab: a line named `root` that runs nothing.
pub open spec fn root_line() -> LineView {
    LineView {
        name: "root"@,
        description: Seq::empty(),
        command: CommandView::Nothing,
        task_list: Seq::empty(),
        multi_select: false,
    }
}

/// The lines of the tree of a tab with these entries: the root, and below
/// it the lines of the entries.  The lines at the top may allow several
/// choices.
pub open spec fn tab_lines(data: Seq<EntryView>, validate: bool) -> Seq<PlacedLine> {
    seq![PlacedLine { parent: -1, line: root_line() }] + placed(
        menu_of(tab_entries(data, validate), true),
        0,
        1,
    )
}

/// A menu takes as many places in a tree as it holds lines.
pub proof fn lemma_placed_len(menu: Seq<MenuView>, parent: int, start: int)
    ensures
        placed(menu, parent, start).len() == menu_size(menu),
    decreases menu,
{
    if menu.len() > 0 {
        let front = menu.drop_last();
        let at = start + menu_size(front);
        lemma_placed_len(front, parent, start);
        lemma_placed_len(menu.last().children, at, at + 1);
    }
}

/// The lines of two menus in a row are placed one menu after the other.
pub proof fn lemma_placed_concat(
    front: Seq<MenuView>,
    back: Seq<MenuView>,
    parent: int,
    start: int,
)
    ensures
        menu_size(front + back) == menu_size(front) + menu_size(back),
        placed(front + back, parent, start) == placed(front, parent, start) + placed(
            back,
            parent,
            start + menu_size(front),
        ),
    decreases back.len(),
{
    if back.len() > 0 {
        let shorter = back.drop_last();
        lemma_placed_concat(front, shorter, parent, start);
        assert((front + back).drop_last() =~= front + shorter);
    }
}

/// A menu of one line is placed as that line, followed by the lines below
/// it.
pub proof fn lemma_placed_one(menu: Seq<MenuView>, parent: int, start: int)
    requires
        menu.len() == 1,
    ensures
        placed(menu, parent, start) == seq![PlacedLine { parent, line: menu[0].line }] + placed(
            menu[0].children,
            start,
            start + 1,
        ),
        menu[0].children.len() == 0 ==> placed(menu, parent, start) == seq![
            PlacedLine { parent, line: menu[0].line },
        ],
{
    assert(placed(menu.drop_last(), parent, start) =~= Seq::<PlacedLine>::empty());
}

/// A line of the menu allows several choices only where the lines above
/// it do: below a line that does not, no line does.
pub proof fn lemma_single_choice_is_inherited(entries: Seq<EntryView>, i: int)
    requires
        0 <= i < menu_of(entries, false).len(),
    ensures
        !menu_of(entries, false)[i].line.multi_select,
    decreases entries.len(),
{
    if entries.len() > 0 {
        let front = menu_of(entries.drop_last(), false);
        let added = entry_menu(entries.last(), false);
        if i < front.len() {
            lemma_single_choice_is_inherited(entries.drop_last(), i);
        } else {
            assert(!added[i - front.len()].line.multi_select);
        }
    }
}

/// A copy of the way in which a script is started, as a command.
fn script_command(file: &String, executable: &String, args: &Vec<String>) -> (command: Command)
    ensures
        command@ == (CommandView::LocalFile {
            executable: executable@,
            args: string_views(args@),
            file: file@,
        }),
{
    Command::LocalFile {
        executable: executable.clone(),
        args: copy_strings(args),
        file: file.clone(),
    }
}

/// Adds the lines of the menu for `data` to `tree`, below the line that
/// `parent` names, which allows several choices as `parent_multi_select`
/// says.  The lines are placed behind all lines that the tree holds.
pub fn create_directory(
    data: &Vec<Entry>,
    tree: &mut Tree<Rc<ListNode>>,
    parent: NodeId,
    parent_multi_select: bool,
)
    requires
        0 <= node_position(parent) < tree_lines(*old(tree)).len(),
    ensures
        tree_lines(*final(tree)) == tree_lines(*old(tree)) + placed(
            menu_of(entry_views(data@), parent_multi_select),
            node_position(parent),
            tree_lines(*old(tree)).len() as int,
        ),
    decreases data,
{
    let ghost all = entry_views(data@);
    let ghost before = tree_lines(*tree);
    let ghost above = node_position(parent);
    let ghost start = before.len() as int;
    let mut i: usize = 0;
    while i < data.len()
        invariant
            i <= data.len(),
            all == entry_views(data@),
            above == node_position(parent),
            start == before.len(),
            0 <= above < start,
            tree_lines(*tree) == before + placed(
                menu_of(all.take(i as int), parent_multi_select),
                above,
                start,
            ),
        decreases data.len() - i,
    {
        let entry = &data[i];
        let ghost view = entry_view(*entry);
        let ghost done = menu_of(all.take(i as int), parent_multi_select);
        let ghost added = entry_menu(view, parent_multi_select);
        let ghost at = start + menu_size(done);
        proof {
            let next = all.take(i + 1);
            assert(next.drop_last() =~= all.take(i as int));
            lemma_placed_concat(done, added, above, start);
            lemma_placed_len(done, above, start);
        }
        let multi_select = parent_multi_select && entry.multi_select;
        match &entry.entry_type {
            EntryType::Entries(children) => {
                assert(view.kind->Entries_0 =~= entry_views(children@));
                let line = ListNode {
                    name: entry.name.clone(),
                    description: entry.description.clone(),
                    command: Command::Nothing,
                    task_list: String::new(),
                    multi_select,
                };
                let id = tree_append(tree, parent, line);
                create_directory(children, tree, id, multi_select);
                proof {
                    lemma_placed_one(added, above, at);
                }
            },
            EntryType::Command(command) => {
                let line = ListNode {
                    name: entry.name.clone(),
                    description: entry.description.clone(),
                    command: Command::Raw(command.clone()),
                    task_list: String::new(),
                    multi_select,
                };
                let _id = tree_append(tree, parent, line);
                proof {
                    lemma_placed_one(added, above, at);
                }
            },
            EntryType::Script { file, start: script_start } => {
                match script_start {
                    Some((executable, args)) => {
                        let line = ListNode {
                            name: entry.name.clone(),
                            description: entry.description.clone(),
                            command: script_command(file, executable, args),
                            task_list: entry.task_list.clone(),
                            multi_select,
                        };
                        let _id = tree_append(tree, parent, line);
                        proof {
                            lemma_placed_one(added, above, at);
                        }
                    },
                    None => {},
                }
            },
        }
        i = i + 1;
    }
    assert(all.take(data.len() as int) =~= all);
}

/// The tab of the menu for `entry`: its entries are filtered where
/// `validate` asks for it, and their lines stand below the root.
pub fn build_tab(entry: TabEntry, validate: bool) -> (tab: Tab)
    ensures
        tab.name@ == entry.name@,
        tree_lines(tab.tree) == tab_lines(entry_views(entry.data@), validate),
{
    let TabEntry { name, data } = entry;
    let mut data = data;
    if validate {
        filter_entries(&mut data);
    }
    let mut tree = tree_new(
        ListNode {
            name: String::from_str("root"),
            description: String::new(),
            command: Command::Nothing,
            task_list: String::new(),
            multi_select: false,
        },
    );
    let root = tree_root(&tree);
    create_directory(&data, &mut tree, root, true);
    Tab { name, tree }
}

} // verus!
