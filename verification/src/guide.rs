//! The user guide: the task catalog as a Markdown text.
//!
//! The guide has a title, a section for each tab, a subsection for each
//! group of entries, and a list item with name and description for each
//! command and each script.

use crate::catalog::{entry_view, entry_views, Entry, EntryKindView, EntryType, EntryView};
use crate::menu::TabEntry;
use vstd::prelude::*;

verus! {

/// The mathematical value of a [`TabEntry`].
pub struct TabView {
    pub name: Seq<char>,
    pub data: Seq<EntryView>,
}

/// The value of a tab of the catalog.
pub open spec fn tab_view(tab: TabEntry) -> TabView {
    TabView { name: tab.name@, data: entry_views(tab.data@) }
}

/// The values of a list of tabs.
pub open spec fn tab_views(tabs: Seq<TabEntry>) -> Seq<TabView> {
    tabs.map_values(|tab: TabEntry| tab_view(tab))
}

/// What the guide says of `entry`: a heading and the entries below it for
/// a group, a list item with the name and the description for a command or
/// a script.
pub open spec fn entry_guide(entry: EntryView) -> Seq<char>
    decreases entry, 1int,
{
    match entry.kind {
        EntryKindView::Entries(children) => "\n### "@ + entry.name + "\n\n"@ + entries_guide(
            children,
        ),
        _ => "- **"@ + entry.name + "**: "@ + entry.description + "\n"@,
    }
}

/// What the guide says of `entries`, one after another.
pub open spec fn entries_guide(entries: Seq<EntryView>) -> Seq<char>
    decreases entries, 0int,
{
    if entries.len() == 0 {
        Seq::empty()
    } else {
        entries_guide(entries.drop_last()) + entry_guide(entries.last())
    }
}

/// The section of a tab: a heading with its name, then its entries.
pub open spec fn tab_guide(tab: TabView) -> Seq<char> {
    "\n## "@ + tab.name + "\n\n"@ + entries_guide(tab.data)
}

/// The sections of `tabs`, one after another.
pub open spec fn tabs_guide(tabs: Seq<TabView>) -> Seq<char>
    decreases tabs.len(),
{
    if tabs.len() == 0 {
        Seq::empty()
    } else {
        tabs_guide(tabs.drop_last()) + tab_guide(tabs.last())
    }
}

/// The user guide of a catalog with the tabs `tabs`.
pub open spec fn guide_text(tabs: Seq<TabView>) -> Seq<char> {
    "# Walkthrough\n"@ + tabs_guide(tabs)
}

/// Appends what the guide says of `entry` to `text`.
fn push_entry(text: &mut String, entry: &Entry)
    ensures
        final(text)@ == old(text)@ + entry_guide(entry_view(*entry)),
    decreases entry, 1int,
{
    let ghost view = entry_view(*entry);
    match &entry.entry_type {
        EntryType::Entries(children) => {
            assert(view.kind->Entries_0 =~= entry_views(children@));
            text.append("\n### ");
            text.append(entry.name.as_str());
            text.append("\n\n");
            push_entries(text, children);
        },
        _ => {
            text.append("- **");
            text.append(entry.name.as_str());
            text.append("**: ");
            text.append(entry.description.as_str());
            text.append("\n");
        },
    }
}

/// Appends what the guide says of `entries` to `text`.
fn push_entries(text: &mut String, entries: &Vec<Entry>)
    ensures
        final(text)@ == old(text)@ + entries_guide(entry_views(entries@)),
    decreases entries, 0int,
{
    let ghost views = entry_views(entries@);
    let mut i: usize = 0;
    while i < entries.len()
        invariant
            i <= entries.len(),
            views == entry_views(entries@),
            text@ == old(text)@ + entries_guide(views.take(i as int)),
        decreases entries.len() - i,
    {
        proof {
            let next = views.take(i + 1);
            assert(next.drop_last() =~= views.take(i as int));
        }
        push_entry(text, &entries[i]);
        i = i + 1;
    }
    assert(views.take(entries.len() as int) =~= views);
}

/// The user guide of a catalog with the tabs `tabs`: the title, then for
/// each tab in order a section with its entries.
pub fn user_guide(tabs: &Vec<TabEntry>) -> (guide: String)
    ensures
        guide@ == guide_text(tab_views(tabs@)),
{
    let ghost views = tab_views(tabs@);
    let mut guide = String::from_str("# Walkthrough\n");
    let mut i: usize = 0;
    while i < tabs.len()
        invariant
            i <= tabs.len(),
            views == tab_views(tabs@),
            guide@ == "# Walkthrough\n"@ + tabs_guide(views.take(i as int)),
        decreases tabs.len() - i,
    {
        proof {
            let next = views.take(i + 1);
            assert(next.drop_last() =~= views.take(i as int));
        }
        let tab = &tabs[i];
        guide.append("\n## ");
        guide.append(tab.name.as_str());
        guide.append("\n\n");
        push_entries(&mut guide, &tab.data);
        i = i + 1;
    }
    assert(views.take(tabs.len() as int) =~= views);
    guide
}

} // verus!
