use vstd::prelude::*;

use crate::id_set::IdSet;
use crate::tree::{
    build_rows, collapse_rows, collect_default_expanded_ids, ids_distinct,
    lemma_collapse_removes_descendants, default_expanded_of, find_in, find_item,
    has_children_in, item_has_children, lemma_collapsed_rows, lemma_rows_nest, lemma_rows_shape,
    lemma_collapsed_rows_show_roots, lemma_rows_show_items, nesting, placed_items, row_of,
    row_views, rows_nest, rows_of, shows_placed, Item, ItemKind, Row, RowView,
};

verus! {

/// The state of a tree view: its roots, the ids of the expanded items, the
/// selected id, and the rows that are visible.
pub struct TreeView {
    roots: Vec<Item>,
    rows: Vec<Row>,
    expanded_ids: IdSet,
    selected_id: Option<String>,
}

/// What a tree view holds, as values.
pub struct TreeViewModel {
    pub roots: Seq<Item>,
    pub rows: Seq<RowView>,
    pub expanded: Set<Seq<char>>,
    pub selected: Option<Seq<char>>,
}

impl View for TreeView {
    type V = TreeViewModel;

    closed spec fn view(&self) -> TreeViewModel {
        TreeViewModel {
            roots: self.roots@,
            rows: row_views(self.rows@),
            expanded: self.expanded_ids@,
            selected: match self.selected_id {
                Some(id) => Some(id@),
                None => None,
            },
        }
    }
}

/// Which of the icons a row shows.
#[derive(Clone, Copy, Debug, PartialEq, Eq, Structural)]
pub enum IconSlot {
    Expanded,
    Collapsed,
    Folder,
    FolderOpen,
    File,
}

/// The expanded set after a click on the disclosure of `id`: an id whose item
/// has children flips in or out of the set; any other id changes nothing.
pub open spec fn toggled(roots: Seq<Item>, expanded: Set<Seq<char>>, id: Seq<char>) -> Set<
    Seq<char>,
> {
    if has_children_in(roots, id) {
        if expanded.contains(id) {
            expanded.remove(id)
        } else {
            expanded.insert(id)
        }
    } else {
        expanded
    }
}

/// The expanded set after `id` is set to expanded or collapsed.
pub open spec fn with_expanded(expanded: Set<Seq<char>>, id: Seq<char>, on: bool) -> Set<
    Seq<char>,
> {
    if on {
        expanded.insert(id)
    } else {
        expanded.remove(id)
    }
}

/// The icon left of a row: the expanded one when the row is expanded.
pub open spec fn disclosure_slot(row: RowView) -> IconSlot {
    if row.expanded {
        IconSlot::Expanded
    } else {
        IconSlot::Collapsed
    }
}

/// The icon of a row's kind: a file, an open folder when expanded, a folder otherwise.
pub open spec fn type_slot(row: RowView) -> IconSlot {
    match row.icon {
        ItemKind::File => IconSlot::File,
        ItemKind::Folder => if row.expanded {
            IconSlot::FolderOpen
        } else {
            IconSlot::Folder
        },
    }
}

impl TreeView {
    /// The rows are those that the roots and the expanded ids show, and the
    /// tree is shallow enough for a row's depth to fit a `usize`.
    pub open spec fn wf(&self) -> bool {
        &&& self@.rows == rows_of(self@.roots, 0, self@.expanded)
        &&& nesting(self@.roots) <= usize::MAX
    }

    /// A view of `roots`: the items that start expanded are expanded, at every
    /// depth, and nothing is selected.
    pub fn new(roots: Vec<Item>) -> (view: TreeView)
        requires
            nesting(roots@) <= usize::MAX,
        ensures
            view.wf(),
            view@.roots == roots@,
            view@.expanded == default_expanded_of(roots@),
            view@.rows == rows_of(roots@, 0, default_expanded_of(roots@)),
            view@.selected is None,
    {
        let mut expanded_ids = IdSet::new();
        collect_default_expanded_ids(roots.as_slice(), &mut expanded_ids);
        assert(expanded_ids@ =~= default_expanded_of(roots@));
        let mut rows: Vec<Row> = Vec::new();
        build_rows(roots.as_slice(), 0, &expanded_ids, &mut rows);
        assert(row_views(rows@) =~= rows_of(roots@, 0, expanded_ids@));
        TreeView { roots, rows, expanded_ids, selected_id: None }
    }

    /// Replaces the roots; the expanded ids start over from the items, so the
    /// rows are those a new view of the roots shows, and the selection is
    /// cleared.
    pub fn set_items(&mut self, roots: Vec<Item>)
        requires
            nesting(roots@) <= usize::MAX,
        ensures
            final(self).wf(),
            final(self)@.roots == roots@,
            final(self)@.expanded == default_expanded_of(roots@),
            final(self)@.rows == rows_of(roots@, 0, default_expanded_of(roots@)),
            final(self)@.selected is None,
    {
        self.roots = roots;
        self.expanded_ids.clear();
        collect_default_expanded_ids(self.roots.as_slice(), &mut self.expanded_ids);
        assert(self.expanded_ids@ =~= default_expanded_of(self.roots@));
        self.selected_id = None;
        self.rebuild_rows();
    }

    /// How many rows are visible.
    pub fn visible_len(&self) -> (len: usize)
        ensures
            len == self@.rows.len(),
    {
        self.rows.len()
    }

    /// The selected id, if any.
    pub fn selected_id(&self) -> (id: Option<&str>)
        ensures
            id is Some == self@.selected is Some,
            id is Some ==> id->0@ == self@.selected->0,
    {
        match &self.selected_id {
            Some(id) => Some(id.as_str()),
            None => None,
        }
    }

    /// The first item, depth first, whose id is the selected one; none when
    /// nothing is selected or no item has that id.
    pub fn selected_item(&self) -> (item: Option<&Item>)
        ensures
            item is Some == (self@.selected is Some && find_in(
                self@.roots,
                self@.selected->0,
            ) is Some),
            item is Some ==> *item->0 == find_in(self@.roots, self@.selected->0)->0,
    {
        match &self.selected_id {
            Some(id) => find_item(self.roots.as_slice(), id.as_str()),
            None => None,
        }
    }

    /// Selects `id`, whether or not an item has it.
    pub fn set_selected_id(&mut self, id: &str)
        ensures
            final(self)@.selected == Some(id@),
            final(self)@.roots == old(self)@.roots,
            final(self)@.rows == old(self)@.rows,
            final(self)@.expanded == old(self)@.expanded,
    {
        self.selected_id = Some(id.to_owned());
    }

    /// Clears the selection.
    pub fn clear_selection(&mut self)
        ensures
            final(self)@.selected is None,
            final(self)@.roots == old(self)@.roots,
            final(self)@.rows == old(self)@.rows,
            final(self)@.expanded == old(self)@.expanded,
    {
        self.selected_id = None;
    }

    /// Marks `id` expanded or collapsed and shows the rows again.
    pub fn set_expanded(&mut self, id: &str, expanded: bool)
        requires
            old(self).wf(),
        ensures
            final(self).wf(),
            final(self)@.expanded == with_expanded(old(self)@.expanded, id@, expanded),
            final(self)@.roots == old(self)@.roots,
            final(self)@.selected == old(self)@.selected,
    {
        if expanded {
            self.expanded_ids.insert(id);
        } else {
            self.expanded_ids.remove(id);
        }
        self.rebuild_rows();
    }

    /// Selects the row that was clicked.
    pub fn select_id(&mut self, id: String)
        ensures
            final(self)@.selected == Some(id@),
            final(self)@.roots == old(self)@.roots,
            final(self)@.rows == old(self)@.rows,
            final(self)@.expanded == old(self)@.expanded,
    {
        self.selected_id = Some(id);
    }

    /// A click on the disclosure of `id`: the item's expanded state flips when
    /// it has children, and nothing happens otherwise.  Tells whether the view
    /// changed.
    pub fn toggle_id(&mut self, id: &str) -> (changed: bool)
        requires
            old(self).wf(),
        ensures
            final(self).wf(),
            changed == has_children_in(old(self)@.roots, id@),
            final(self)@.expanded == toggled(old(self)@.roots, old(self)@.expanded, id@),
            final(self)@.roots == old(self)@.roots,
            final(self)@.selected == old(self)@.selected,
            !changed ==> final(self)@ == old(self)@,
    {
        if !item_has_children(self.roots.as_slice(), id) {
            return false;
        }
        if self.expanded_ids.contains(id) {
            self.expanded_ids.remove(id);
        } else {
            self.expanded_ids.insert(id);
        }
        self.rebuild_rows();
        true
    }

    fn rebuild_rows(&mut self)
        requires
            nesting(old(self)@.roots) <= usize::MAX,
        ensures
            final(self).wf(),
            final(self)@.roots == old(self)@.roots,
            final(self)@.expanded == old(self)@.expanded,
            final(self)@.selected == old(self)@.selected,
    {
        let mut rows: Vec<Row> = Vec::new();
        build_rows(self.roots.as_slice(), 0, &self.expanded_ids, &mut rows);
        assert(row_views(rows@) =~= rows_of(self.roots@, 0, self.expanded_ids@));
        self.rows = rows;
    }

    /// The visible row at `ix`, if there is one.
    pub fn row(&self, ix: usize) -> (row: Option<&Row>)
        ensures
            row is Some == (ix < self@.rows.len()),
            row is Some ==> row->0@ == self@.rows[ix as int],
    {
        if ix < self.rows.len() {
            Some(&self.rows[ix])
        } else {
            None
        }
    }

    /// Whether `row` shows the selected id.
    pub fn row_is_selected(&self, row: &Row) -> (selected: bool)
        ensures
            selected == (self@.selected == Some(row.id@)),
    {
        match &self.selected_id {
            Some(id) => *id == row.id,
            None => false,
        }
    }
}

// ---------------------------------------------------------------------------------------------- //
// Laws of the tree view.

/// Two clicks on the same disclosure leave the expanded ids as they were.
pub proof fn lemma_toggle_twice(roots: Seq<Item>, expanded: Set<Seq<char>>, id: Seq<char>)
    ensures
        toggled(roots, toggled(roots, expanded, id), id) == expanded,
{
    if has_children_in(roots, id) {
        if expanded.contains(id) {
            assert(expanded.remove(id).insert(id) =~= expanded);
        } else {
            assert(expanded.insert(id).remove(id) =~= expanded);
        }
    }
}

/// Expanding an id and collapsing it again is collapsing it; collapsing and
/// expanding again is expanding it.
pub proof fn lemma_expand_collapse(expanded: Set<Seq<char>>, id: Seq<char>)
    ensures
        with_expanded(with_expanded(expanded, id, true), id, false) == expanded.remove(id),
        with_expanded(with_expanded(expanded, id, false), id, true) == expanded.insert(id),
{
    assert(expanded.insert(id).remove(id) =~= expanded.remove(id));
    assert(expanded.remove(id).insert(id) =~= expanded.insert(id));
}

/// Collapsing an expanded item and expanding it again brings back the same
/// expanded ids and so the same rows: what was expanded below it stays
/// remembered.
pub proof fn lemma_collapse_then_expand(before: &TreeView, collapsed: &TreeView, restored: &TreeView, id: Seq<char>)
    requires
        before.wf(),
        collapsed.wf(),
        restored.wf(),
        before@.expanded.contains(id),
        collapsed@.roots == before@.roots,
        collapsed@.expanded == with_expanded(before@.expanded, id, false),
        restored@.roots == collapsed@.roots,
        restored@.expanded == with_expanded(collapsed@.expanded, id, true),
    ensures
        restored@.expanded == before@.expanded,
        restored@.rows == before@.rows,
{
    lemma_expand_collapse(before@.expanded, id);
    assert(before@.expanded.insert(id) =~= before@.expanded);
}

/// When no id occurs twice in the tree, collapsing an item shows its row
/// collapsed and takes away the rows that hung below it, right after it and
/// deeper than it; all other rows stay.
pub proof fn lemma_collapse_hides_descendants(before: &TreeView, after: &TreeView, id: Seq<char>)
    requires
        before.wf(),
        after.wf(),
        ids_distinct(before@.roots),
        after@.roots == before@.roots,
        after@.expanded == with_expanded(before@.expanded, id, false),
    ensures
        after@.rows == collapse_rows(before@.rows, id),
{
    lemma_collapse_removes_descendants(before@.roots, 0, before@.expanded, id);
}

/// The rows of a view follow from its roots and its expanded ids alone: two
/// views that agree on those show the same rows.
pub proof fn lemma_rows_follow_state(a: &TreeView, b: &TreeView)
    requires
        a.wf(),
        b.wf(),
        a@.roots == b@.roots,
        a@.expanded == b@.expanded,
    ensures
        a@.rows == b@.rows,
{
}

/// Every root has a row, a row is expanded only when its item has children,
/// the rows nest (the first at depth zero, each at most one level below the
/// row above it and exactly one below an expanded row), and the rows of the
/// roots come in the roots' order at depth zero when no id is expanded.
pub proof fn lemma_view_rows(view: &TreeView)
    requires
        view.wf(),
    ensures
        view@.rows.len() >= view@.roots.len(),
        forall|k: int|
            0 <= k < view@.rows.len() ==> (#[trigger] view@.rows[k]).expanded
                ==> view@.rows[k].has_children,
        rows_nest(view@.rows, 0),
        view@.expanded == Set::<Seq<char>>::empty() ==> view@.rows == view@.roots.map_values(
            |item: Item| row_of(item, 0, Set::empty()),
        ),
{
    lemma_rows_shape(view@.roots, 0, view@.expanded);
    lemma_rows_nest(view@.roots, 0, view@.expanded);
    lemma_collapsed_rows(view@.roots, 0);
    assert forall|k: int|
        0 <= k < view@.rows.len() && (#[trigger] view@.rows[k]).expanded implies view@.rows[k].has_children by {
        assert(view@.rows[k] == rows_of(view@.roots, 0, view@.expanded)[k]);
    }
}

/// Every visible row of a view shows an item of its tree at the row's depth,
/// with that item's id, label and kind; with no id expanded, row `k` is root
/// `k` with its label.
pub proof fn lemma_view_rows_show_items(view: &TreeView)
    requires
        view.wf(),
    ensures
        forall|k: int|
            0 <= k < view@.rows.len() ==> shows_placed(
                #[trigger] view@.rows[k],
                placed_items(view@.roots, 0),
                view@.expanded,
            ),
        view@.expanded == Set::<Seq<char>>::empty() ==> view@.rows.len() == view@.roots.len() && forall|k: int|
            0 <= k < view@.roots.len() ==> (#[trigger] view@.rows[k]).label == view@.roots[k].label@
                && view@.rows[k].id == view@.roots[k].id@,
{
    lemma_rows_show_items(view@.roots, 0, view@.expanded);
    lemma_collapsed_rows_show_roots(view@.roots, 0);
}

/// The icon left of `row`.
pub fn disclosure_icon(row: &Row) -> (slot: IconSlot)
    ensures
        slot == disclosure_slot(row@),
{
    if row.expanded {
        IconSlot::Expanded
    } else {
        IconSlot::Collapsed
    }
}

/// The icon of `row`'s kind.
pub fn type_icon(row: &Row) -> (slot: IconSlot)
    ensures
        slot == type_slot(row@),
{
    match row.icon {
        ItemKind::File => IconSlot::File,
        ItemKind::Folder => if row.expanded {
            IconSlot::FolderOpen
        } else {
            IconSlot::Folder
        },
    }
}

} // verus!
