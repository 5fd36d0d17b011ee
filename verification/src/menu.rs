//! Tray-menu construction.
//!
//! `build` turns the dynamic item list supplied by the UI into the full
//! ordered menu model: a fixed show-window action, a separator, a
//! non-clickable section header, the dynamic entries (or a non-clickable
//! placeholder when the list is empty), a separator, and a fixed quit action.
//! Displayed titles longer than [`TITLE_LIMIT`] characters are shortened to a
//! [`TITLE_PREFIX`]-character prefix followed by an ellipsis marker, measured
//! in characters so that multi-byte glyphs are never split.

use vstd::prelude::*;
use vstd::string::StrSliceExecFns;
use vstd::string::StringExecFns;

verus! {

/// Characters a displayed title may have before it is shortened.
pub const TITLE_LIMIT: usize = 30;

/// Characters kept of a title that is shortened.
pub const TITLE_PREFIX: usize = 27;

/// One dynamic entry as the UI supplies it: an identifier to route on and a
/// title to display.
pub struct MenuItemSpec {
    pub id: String,
    pub title: String,
}

/// One rendered entry of the tray menu.
pub enum MenuEntry {
    Separator,
    Item { id: String, title: String, clickable: bool },
}

/// The ordered list of entries the tray actually renders.
pub struct TrayMenuModel {
    pub entries: Vec<MenuEntry>,
}

/// The identifier of `e`, or the empty sequence for a separator.
pub open spec fn entry_id(e: MenuEntry) -> Seq<char> {
    match e {
        MenuEntry::Separator => Seq::empty(),
        MenuEntry::Item { id, .. } => id@,
    }
}

/// The displayed title of `e`, or the empty sequence for a separator.
pub open spec fn entry_title(e: MenuEntry) -> Seq<char> {
    match e {
        MenuEntry::Separator => Seq::empty(),
        MenuEntry::Item { title, .. } => title@,
    }
}

/// Whether `e` reacts to a click.
pub open spec fn entry_clickable(e: MenuEntry) -> bool {
    match e {
        MenuEntry::Separator => false,
        MenuEntry::Item { clickable, .. } => clickable,
    }
}

/// Whether `e` is an item (clickable or not) rather than a separator.
pub open spec fn entry_is_item(e: MenuEntry) -> bool {
    e is Item
}

/// How a title is displayed: longer than `TITLE_LIMIT` characters, it becomes
/// its first `TITLE_PREFIX` characters followed by the ellipsis marker.
pub open spec fn displayed_title(t: Seq<char>) -> Seq<char> {
    if t.len() > TITLE_LIMIT {
        t.subrange(0, TITLE_PREFIX as int) + "..."@
    } else {
        t
    }
}

/// Renders a title for display, shortening it per [`displayed_title`].
pub fn render_title(title: &str) -> (r: String)
    ensures
        r@ == displayed_title(title@),
{
    let n = title.unicode_len();
    if n > TITLE_LIMIT {
        let prefix = title.substring_char(0, TITLE_PREFIX);
        let mut s = String::from_str(prefix);
        s.append("...");
        s
    } else {
        String::from_str(title)
    }
}

/// The menu `m` is exactly what `build` renders for the item list `items`.
pub open spec fn built_from(m: TrayMenuModel, items: Seq<MenuItemSpec>) -> bool {
    let n = items.len() as int;
    let e = m.entries@;
    &&& e.len() == if n == 0 { 6int } else { n + 5 }
    &&& e[0] matches MenuEntry::Item { id, title, clickable }
        && id@ == "show-window"@ && title@ == "Show Window"@ && clickable
    &&& e[1] is Separator
    &&& e[2] matches MenuEntry::Item { id, title, clickable }
        && id@ == "recent-title"@ && title@ == "Recent Prompts"@ && !clickable
    &&& n == 0 ==> (e[3] matches MenuEntry::Item { id, title, clickable }
        && id@ == "no-recent"@ && title@ == "No entries"@ && !clickable)
    &&& forall|i: int|
        0 <= i < n ==> (#[trigger] e[3 + i] matches MenuEntry::Item { id, title, clickable }
            && id@ == items[i].id@ && title@ == displayed_title(items[i].title@) && clickable)
    &&& e[e.len() - 2] is Separator
    &&& e[e.len() - 1] matches MenuEntry::Item { id, title, clickable }
        && id@ == "quit"@ && title@ == "Quit"@ && clickable
}

/// Builds the tray-menu model for the supplied dynamic items, in the fixed
/// construction order, shortening every displayed title per
/// [`displayed_title`].
pub fn build(items: &Vec<MenuItemSpec>) -> (m: TrayMenuModel)
    ensures
        built_from(m, items@),
{
    let mut entries: Vec<MenuEntry> = Vec::new();
    entries.push(MenuEntry::Item {
        id: String::from_str("show-window"),
        title: String::from_str("Show Window"),
        clickable: true,
    });
    entries.push(MenuEntry::Separator);
    entries.push(MenuEntry::Item {
        id: String::from_str("recent-title"),
        title: String::from_str("Recent Prompts"),
        clickable: false,
    });
    if items.len() == 0 {
        entries.push(MenuEntry::Item {
            id: String::from_str("no-recent"),
            title: String::from_str("No entries"),
            clickable: false,
        });
    } else {
        let mut i: usize = 0;
        while i < items.len()
            invariant
                i <= items@.len(),
                entries@.len() == 3 + i,
                entries@[0] matches MenuEntry::Item { id, title, clickable }
                    && id@ == "show-window"@ && title@ == "Show Window"@ && clickable,
                entries@[1] is Separator,
                entries@[2] matches MenuEntry::Item { id, title, clickable }
                    && id@ == "recent-title"@ && title@ == "Recent Prompts"@ && !clickable,
                forall|j: int|
                    0 <= j < i ==> (#[trigger] entries@[3 + j] matches MenuEntry::Item {
                        id,
                        title,
                        clickable,
                    } && id@ == items@[j].id@ && title@ == displayed_title(items@[j].title@)
                        && clickable),
            decreases items@.len() - i,
        {
            let rendered = render_title(items[i].title.as_str());
            entries.push(MenuEntry::Item {
                id: items[i].id.clone(),
                title: rendered,
                clickable: true,
            });
            i += 1;
        }
    }
    entries.push(MenuEntry::Separator);
    entries.push(MenuEntry::Item {
        id: String::from_str("quit"),
        title: String::from_str("Quit"),
        clickable: true,
    });
    TrayMenuModel { entries }
}

/// Law: a title longer than `TITLE_LIMIT` characters is displayed as exactly
/// its first `TITLE_PREFIX` characters followed by the three-character
/// ellipsis marker; a title within the limit is displayed unchanged.
pub proof fn lemma_title_display(t: Seq<char>)
    ensures
        t.len() > TITLE_LIMIT ==> displayed_title(t).len() == TITLE_PREFIX + 3,
        t.len() > TITLE_LIMIT ==> displayed_title(t).subrange(0, TITLE_PREFIX as int) == t.subrange(
            0,
            TITLE_PREFIX as int,
        ),
        t.len() > TITLE_LIMIT ==> displayed_title(t).subrange(
            TITLE_PREFIX as int,
            TITLE_PREFIX + 3,
        ) == "..."@,
        t.len() <= TITLE_LIMIT ==> displayed_title(t) == t,
{
    reveal_strlit("...");
    if t.len() > TITLE_LIMIT {
        assert(displayed_title(t).subrange(0, TITLE_PREFIX as int) =~= t.subrange(
            0,
            TITLE_PREFIX as int,
        ));
        assert(displayed_title(t).subrange(TITLE_PREFIX as int, TITLE_PREFIX + 3) =~= "..."@);
    }
}

/// Law: building twice from the same dynamic items yields an observably
/// identical menu — the same number of entries, and entry for entry the same
/// identifier, displayed title and clickability — so a rebuilt menu replaces
/// an equal one.
pub proof fn lemma_build_deterministic(m1: TrayMenuModel, m2: TrayMenuModel, items: Seq<MenuItemSpec>)
    requires
        built_from(m1, items),
        built_from(m2, items),
    ensures
        m1.entries@.len() == m2.entries@.len(),
        forall|i: int|
            0 <= i < m1.entries@.len() ==> entry_is_item(#[trigger] m1.entries@[i]) == entry_is_item(
                m2.entries@[i],
            ) && entry_id(m1.entries@[i]) == entry_id(m2.entries@[i]) && entry_title(
                m1.entries@[i],
            ) == entry_title(m2.entries@[i]) && entry_clickable(m1.entries@[i]) == entry_clickable(
                m2.entries@[i],
            ),
{
    let n = items.len() as int;
    let len = m1.entries@.len() as int;
    assert forall|i: int| 0 <= i < len implies entry_is_item(#[trigger] m1.entries@[i])
        == entry_is_item(m2.entries@[i]) && entry_id(m1.entries@[i]) == entry_id(m2.entries@[i])
        && entry_title(m1.entries@[i]) == entry_title(m2.entries@[i]) && entry_clickable(
        m1.entries@[i],
    ) == entry_clickable(m2.entries@[i]) by {
        if 3 <= i < 3 + n {
            let j = i - 3;
            assert(m1.entries@[3 + j] matches MenuEntry::Item { id, title, clickable }
                && id@ == items[j].id@ && title@ == displayed_title(items[j].title@) && clickable);
            assert(m2.entries@[3 + j] matches MenuEntry::Item { id, title, clickable }
                && id@ == items[j].id@ && title@ == displayed_title(items[j].title@) && clickable);
        }
    }
}

/// One of the identifiers the builder itself assigns.
pub open spec fn is_fixed_id(s: Seq<char>) -> bool {
    ||| s == "show-window"@
    ||| s == "recent-title"@
    ||| s == "no-recent"@
    ||| s == "quit"@
}

/// Whether `e` is the non-clickable placeholder shown for an empty item list.
pub open spec fn entry_is_placeholder(e: MenuEntry) -> bool {
    entry_is_item(e) && !entry_clickable(e) && entry_id(e) == "no-recent"@
}

/// Clickable entries of `e` at the indices `lo <= i < hi`.
pub open spec fn count_clickable_between(e: Seq<MenuEntry>, lo: int, hi: int) -> int
    decreases hi - lo,
{
    if lo >= hi {
        0
    } else {
        (if entry_clickable(e[lo]) {
            1int
        } else {
            0int
        }) + count_clickable_between(e, lo + 1, hi)
    }
}

/// Placeholder entries of `e` at the indices `lo <= i < hi`.
pub open spec fn count_placeholder_between(e: Seq<MenuEntry>, lo: int, hi: int) -> int
    decreases hi - lo,
{
    if lo >= hi {
        0
    } else {
        (if entry_is_placeholder(e[lo]) {
            1int
        } else {
            0int
        }) + count_placeholder_between(e, lo + 1, hi)
    }
}

/// Clickable entries of the whole model.
pub open spec fn clickable_count(m: TrayMenuModel) -> int {
    count_clickable_between(m.entries@, 0, m.entries@.len() as int)
}

/// Placeholder entries of the whole model.
pub open spec fn placeholder_count(m: TrayMenuModel) -> int {
    count_placeholder_between(m.entries@, 0, m.entries@.len() as int)
}

/// No two item entries share an identifier.
pub open spec fn unique_entry_ids(e: Seq<MenuEntry>) -> bool {
    forall|i: int, j: int|
        0 <= i < j < e.len() && entry_is_item(e[i]) && entry_is_item(e[j]) ==> entry_id(e[i])
            != entry_id(e[j])
}

proof fn lemma_count_split(e: Seq<MenuEntry>, lo: int, mid: int, hi: int)
    requires
        lo <= mid <= hi,
    ensures
        count_clickable_between(e, lo, hi) == count_clickable_between(e, lo, mid)
            + count_clickable_between(e, mid, hi),
        count_placeholder_between(e, lo, hi) == count_placeholder_between(e, lo, mid)
            + count_placeholder_between(e, mid, hi),
    decreases mid - lo,
{
    if lo < mid {
        lemma_count_split(e, lo + 1, mid, hi);
    }
}

proof fn lemma_count_uniform_clickable(e: Seq<MenuEntry>, lo: int, hi: int)
    requires
        lo <= hi,
        forall|k: int| lo <= k < hi ==> entry_clickable(#[trigger] e[k]) && !entry_is_placeholder(e[k]),
    ensures
        count_clickable_between(e, lo, hi) == hi - lo,
        count_placeholder_between(e, lo, hi) == 0,
    decreases hi - lo,
{
    if lo < hi {
        lemma_count_uniform_clickable(e, lo + 1, hi);
    }
}

/// Law: for every dynamic item list of any length N whose identifiers are
/// pairwise distinct and distinct from the fixed identifiers, the built model
/// has exactly max(1, N) + 2 entries that are clickable or the placeholder —
/// the two fixed actions plus the N items, the placeholder standing in when
/// N is 0 — its identifiers are unique across the whole model, and exactly
/// one quit entry exists: the last one.
pub proof fn lemma_build_shape(m: TrayMenuModel, items: Seq<MenuItemSpec>)
    requires
        built_from(m, items),
        forall|i: int, j: int| 0 <= i < j < items.len() ==> items[i].id@ != items[j].id@,
        forall|i: int| 0 <= i < items.len() ==> !is_fixed_id(#[trigger] items[i].id@),
    ensures
        clickable_count(m) + placeholder_count(m) == (if items.len() == 0 {
            1int
        } else {
            items.len() as int
        }) + 2,
        clickable_count(m) == (if items.len() == 0 {
            0int
        } else {
            items.len() as int
        }) + 2,
        unique_entry_ids(m.entries@),
        entry_id(m.entries@[m.entries@.len() - 1]) == "quit"@,
        forall|i: int|
            0 <= i < m.entries@.len() - 1 ==> entry_id(#[trigger] m.entries@[i]) != "quit"@,
{
    reveal_strlit("show-window");
    reveal_strlit("recent-title");
    reveal_strlit("no-recent");
    reveal_strlit("quit");
    assert("show-window"@.len() == 11 && "recent-title"@.len() == 12 && "no-recent"@.len() == 9
        && "quit"@.len() == 4);
    let e = m.entries@;
    let n = items.len() as int;
    let len = e.len() as int;
    assert(entry_is_item(e[0]) && entry_clickable(e[0]) && entry_id(e[0]) == "show-window"@);
    assert(entry_is_item(e[2]) && !entry_clickable(e[2]) && entry_id(e[2]) == "recent-title"@);
    assert(entry_is_item(e[len - 1]) && entry_clickable(e[len - 1]) && entry_id(e[len - 1])
        == "quit"@);
    assert(!entry_is_item(e[1]) && !entry_is_item(e[len - 2]));
    assert(!entry_is_placeholder(e[2]));
    if n == 0 {
        assert(entry_is_item(e[3]) && !entry_clickable(e[3]) && entry_id(e[3]) == "no-recent"@);
        assert(entry_is_placeholder(e[3]));
    }
    assert(forall|k: int|
        3 <= k < 3 + n ==> entry_is_item(#[trigger] e[k]) && entry_clickable(e[k]) && entry_id(e[k])
            == items[k - 3].id@) by {
        assert forall|k: int| 3 <= k < 3 + n implies entry_is_item(#[trigger] e[k])
            && entry_clickable(e[k]) && entry_id(e[k]) == items[k - 3].id@ by {
            let i = k - 3;
            assert(e[3 + i] matches MenuEntry::Item { id, title, clickable }
                && id@ == items[i].id@ && clickable);
        }
    }
    assert(forall|k: int|
        3 <= k < 3 + n ==> !entry_is_placeholder(#[trigger] e[k]));
    // entry counts
    assert(count_clickable_between(e, len, len) == 0);
    assert(count_placeholder_between(e, len, len) == 0);
    assert(count_clickable_between(e, len - 1, len) == 1);
    assert(count_placeholder_between(e, len - 1, len) == 0);
    assert(count_clickable_between(e, len - 2, len) == 1);
    assert(count_placeholder_between(e, len - 2, len) == 0);
    if n == 0 {
        assert(count_clickable_between(e, 3, len) == 1);
        assert(count_placeholder_between(e, 3, len) == 1);
    } else {
        lemma_count_split(e, 3, 3 + n, len);
        lemma_count_uniform_clickable(e, 3, 3 + n);
        assert(count_clickable_between(e, 3, len) == n + 1);
        assert(count_placeholder_between(e, 3, len) == 0);
    }
    assert(count_clickable_between(e, 2, len) == count_clickable_between(e, 3, len));
    assert(count_placeholder_between(e, 2, len) == count_placeholder_between(e, 3, len));
    assert(count_clickable_between(e, 1, len) == count_clickable_between(e, 2, len));
    assert(count_placeholder_between(e, 1, len) == count_placeholder_between(e, 2, len));
    assert(count_clickable_between(e, 0, len) == 1 + count_clickable_between(e, 1, len));
    assert(count_placeholder_between(e, 0, len) == count_placeholder_between(e, 1, len));
    // identifier uniqueness
    assert forall|i: int, j: int|
        0 <= i < j < e.len() && entry_is_item(e[i]) && entry_is_item(e[j]) implies entry_id(e[i])
        != entry_id(e[j]) by {
        if 3 <= i < 3 + n && 3 <= j < 3 + n {
            assert(items[i - 3].id@ != items[j - 3].id@);
        } else if 3 <= i < 3 + n {
            assert(!is_fixed_id(items[i - 3].id@));
        } else if 3 <= j < 3 + n {
            assert(!is_fixed_id(items[j - 3].id@));
        }
    }
}

} // verus!
