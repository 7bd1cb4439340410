use vstd::prelude::*;

use crate::id_set::IdSet;

verus! {

/// What an entry of the tree is: a file or a folder.
#[derive(Clone, Copy, Debug, PartialEq, Eq, Structural)]
pub enum ItemKind {
    File,
    Folder,
}

/// A node of the tree: an id that names it, the label that is shown, its
/// kind, whether it starts expanded, and its children in order.
#[derive(Debug)]
pub struct Item {
    pub id: String,
    pub label: String,
    pub icon: ItemKind,
    pub expanded: bool,
    pub children: Vec<Item>,
}

/// One visible line of the tree.
#[derive(Debug)]
pub struct Row {
    pub id: String,
    pub label: String,
    pub icon: ItemKind,
    pub depth: usize,
    pub has_children: bool,
    pub expanded: bool,
}

/// The mathematical content of a row.
pub struct RowView {
    pub id: Seq<char>,
    pub label: Seq<char>,
    pub icon: ItemKind,
    pub depth: nat,
    pub has_children: bool,
    pub expanded: bool,
}

impl View for Row {
    type V = RowView;

    open spec fn view(&self) -> RowView {
        RowView {
            id: self.id@,
            label: self.label@,
            icon: self.icon,
            depth: self.depth as nat,
            has_children: self.has_children,
            expanded: self.expanded,
        }
    }
}

impl Clone for Row {
    /// A copy of the row.
    fn clone(&self) -> (copy: Row)
        ensures
            copy@ == self@,
    {
        Row {
            id: self.id.clone(),
            label: self.label.clone(),
            icon: self.icon,
            depth: self.depth,
            has_children: self.has_children,
            expanded: self.expanded,
        }
    }
}

/// The contents of a list of rows.
pub open spec fn row_views(rows: Seq<Row>) -> Seq<RowView> {
    rows.map_values(|r: Row| r@)
}

// ---------------------------------------------------------------------------------------------- //
// The model: which ids start expanded, which rows are visible, which item an id finds.

/// The mathematical content of an item and, in order, of its children.
pub struct ItemView {
    pub id: Seq<char>,
    pub label: Seq<char>,
    pub icon: ItemKind,
    pub expanded: bool,
    pub children: Seq<ItemView>,
}

/// The content of `item` and of everything below it.
pub open spec fn item_view(item: Item) -> ItemView
    decreases item,
{
    ItemView {
        id: item.id@,
        label: item.label@,
        icon: item.icon,
        expanded: item.expanded,
        children: items_view(item.children@),
    }
}

/// The content of `items`, in order.
pub open spec fn items_view(items: Seq<Item>) -> Seq<ItemView>
    decreases items,
{
    if items.len() == 0 {
        Seq::empty()
    } else {
        items_view(items.drop_last()).push(item_view(items.last()))
    }
}

/// The content of a list is the content of each of its items.
pub proof fn lemma_items_view_index(items: Seq<Item>)
    ensures
        items_view(items).len() == items.len(),
        forall|k: int| 0 <= k < items.len() ==> #[trigger] items_view(items)[k] == item_view(items[k]),
    decreases items.len(),
{
    if items.len() > 0 {
        lemma_items_view_index(items.drop_last());
        assert forall|k: int| 0 <= k < items.len() implies #[trigger] items_view(items)[k] == item_view(
            items[k],
        ) by {
            if k < items.len() - 1 {
                assert(items.drop_last()[k] == items[k]);
            }
        }
    }
}

/// The content of two lists one after the other.
proof fn lemma_items_view_append(front: Seq<Item>, back: Seq<Item>)
    ensures
        items_view(front + back) == items_view(front) + items_view(back),
{
    lemma_items_view_index(front);
    lemma_items_view_index(back);
    lemma_items_view_index(front + back);
    assert forall|k: int| 0 <= k < (front + back).len() implies #[trigger] items_view(front + back)[k] == (
    items_view(front) + items_view(back))[k] by {
        if k < front.len() {
            assert((front + back)[k] == front[k]);
        } else {
            assert((front + back)[k] == back[k - front.len()]);
        }
    }
    assert(items_view(front + back) =~= items_view(front) + items_view(back));
}

/// The ids of `item` and of all items below it that start expanded.
pub open spec fn default_expanded_of_item(item: Item) -> Set<Seq<char>>
    decreases item,
{
    let own = if item.expanded {
        set![item.id@]
    } else {
        Set::empty()
    };
    own.union(default_expanded_of(item.children@))
}

/// The ids, at every depth of `items`, of the items that start expanded.
pub open spec fn default_expanded_of(items: Seq<Item>) -> Set<Seq<char>>
    decreases items,
{
    if items.len() == 0 {
        Set::empty()
    } else {
        default_expanded_of(items.drop_last()).union(default_expanded_of_item(items.last()))
    }
}

/// The row that shows `item` at `depth`: it is expanded when the item has
/// children and its id is in `expanded`.
pub open spec fn row_of(item: Item, depth: nat, expanded: Set<Seq<char>>) -> RowView {
    RowView {
        id: item.id@,
        label: item.label@,
        icon: item.icon,
        depth,
        has_children: item.children@.len() > 0,
        expanded: item.children@.len() > 0 && expanded.contains(item.id@),
    }
}

/// The rows of `item` and, when its row is expanded, of its descendants.
pub open spec fn item_rows(item: Item, depth: nat, expanded: Set<Seq<char>>) -> Seq<RowView>
    decreases item,
{
    let row = row_of(item, depth, expanded);
    if row.expanded {
        seq![row] + rows_of(item.children@, depth + 1, expanded)
    } else {
        seq![row]
    }
}

/// The visible rows of `items`, depth first, in order: every item is shown and
/// the children of an item are shown only below an expanded row.
pub open spec fn rows_of(items: Seq<Item>, depth: nat, expanded: Set<Seq<char>>) -> Seq<RowView>
    decreases items,
{
    if items.len() == 0 {
        seq![]
    } else {
        rows_of(items.drop_last(), depth, expanded) + item_rows(items.last(), depth, expanded)
    }
}

/// The first item, depth first, in `item` and below it, whose id is `id`.
pub open spec fn find_in_item(item: Item, id: Seq<char>) -> Option<Item>
    decreases item,
{
    if item.id@ == id {
        Some(item)
    } else {
        find_in(item.children@, id)
    }
}

/// The first item, depth first, in `items` and below them, whose id is `id`.
pub open spec fn find_in(items: Seq<Item>, id: Seq<char>) -> Option<Item>
    decreases items,
{
    if items.len() == 0 {
        None
    } else {
        match find_in(items.drop_last(), id) {
            Some(found) => Some(found),
            None => find_in_item(items.last(), id),
        }
    }
}

/// Whether the item that `id` finds has children.
pub open spec fn has_children_in(items: Seq<Item>, id: Seq<char>) -> bool {
    match find_in(items, id) {
        Some(item) => item.children@.len() > 0,
        None => false,
    }
}

/// How many levels `item` spans: one for itself and those below it.
pub open spec fn item_nesting(item: Item) -> nat
    decreases item,
{
    1 + nesting(item.children@)
}

/// How many levels the deepest item of `items` lies below them, itself counted.
pub open spec fn nesting(items: Seq<Item>) -> nat
    decreases items,
{
    if items.len() == 0 {
        0
    } else {
        let rest = nesting(items.drop_last());
        let last = item_nesting(items.last());
        if rest < last {
            last
        } else {
            rest
        }
    }
}

// ---------------------------------------------------------------------------------------------- //
// Lemmas over prefixes.

proof fn lemma_take_step<A>(s: Seq<A>, i: int)
    requires
        0 <= i < s.len(),
    ensures
        s.take(i + 1).drop_last() == s.take(i),
        s.take(i + 1).last() == s[i],
        s.take(i + 1).len() > 0,
{
    assert(s.take(i + 1).drop_last() =~= s.take(i));
}

proof fn lemma_nesting_bounds(items: Seq<Item>, i: int)
    requires
        0 <= i < items.len(),
    ensures
        item_nesting(items[i]) <= nesting(items),
        nesting(items.take(i)) <= nesting(items),
    decreases items.len(),
{
    if i == items.len() - 1 {
        assert(items.take(i) =~= items.drop_last());
    } else {
        lemma_nesting_bounds(items.drop_last(), i);
        assert(items.drop_last()[i] == items[i]);
        assert(items.drop_last().take(i) =~= items.take(i));
    }
}

// ---------------------------------------------------------------------------------------------- //
// Laws of the visible rows.

/// A row is expanded only when its item has children, no row lies above the
/// depth that the walk starts at, and every item of `items` has a row.
pub proof fn lemma_rows_shape(items: Seq<Item>, depth: nat, expanded: Set<Seq<char>>)
    ensures
        rows_of(items, depth, expanded).len() >= items.len(),
        forall|k: int|
            0 <= k < rows_of(items, depth, expanded).len() ==> {
                let row = #[trigger] rows_of(items, depth, expanded)[k];
                &&& row.expanded ==> row.has_children
                &&& row.depth >= depth
            },
    decreases items,
{
    if items.len() > 0 {
        lemma_rows_shape(items.drop_last(), depth, expanded);
        lemma_item_rows_shape(items.last(), depth, expanded);
        let front = rows_of(items.drop_last(), depth, expanded);
        let back = item_rows(items.last(), depth, expanded);
        assert forall|k: int| 0 <= k < rows_of(items, depth, expanded).len() implies {
            let row = #[trigger] rows_of(items, depth, expanded)[k];
            &&& row.expanded ==> row.has_children
            &&& row.depth >= depth
        } by {
            if k < front.len() {
                assert(rows_of(items, depth, expanded)[k] == front[k]);
            } else {
                assert(rows_of(items, depth, expanded)[k] == back[k - front.len()]);
            }
        }
    }
}

/// The rows of one item: its own row comes first, at `depth`, and no row of it
/// is expanded without children or lies above `depth`.
pub proof fn lemma_item_rows_shape(item: Item, depth: nat, expanded: Set<Seq<char>>)
    ensures
        item_rows(item, depth, expanded).len() >= 1,
        item_rows(item, depth, expanded)[0] == row_of(item, depth, expanded),
        forall|k: int|
            0 <= k < item_rows(item, depth, expanded).len() ==> {
                let row = #[trigger] item_rows(item, depth, expanded)[k];
                &&& row.expanded ==> row.has_children
                &&& row.depth >= depth
            },
    decreases item,
{
    let row = row_of(item, depth, expanded);
    if row.expanded {
        lemma_rows_shape(item.children@, depth + 1, expanded);
        let below = rows_of(item.children@, depth + 1, expanded);
        assert forall|k: int| 0 <= k < item_rows(item, depth, expanded).len() implies {
            let r = #[trigger] item_rows(item, depth, expanded)[k];
            &&& r.expanded ==> r.has_children
            &&& r.depth >= depth
        } by {
            if k > 0 {
                assert(item_rows(item, depth, expanded)[k] == below[k - 1]);
            }
        }
    }
}

/// With no id expanded, the rows are the items themselves, one each, at `depth`.
pub proof fn lemma_collapsed_rows(items: Seq<Item>, depth: nat)
    ensures
        rows_of(items, depth, Set::empty()) == items.map_values(
            |item: Item| row_of(item, depth, Set::empty()),
        ),
    decreases items.len(),
{
    if items.len() > 0 {
        lemma_collapsed_rows(items.drop_last(), depth);
        let none = Set::<Seq<char>>::empty();
        assert(!none.contains(items.last().id@));
        assert(item_rows(items.last(), depth, none) == seq![row_of(items.last(), depth, none)]);
        assert(rows_of(items, depth, none) =~= rows_of(items.drop_last(), depth, none).push(
            row_of(items.last(), depth, none),
        ));
        assert(items.map_values(|item: Item| row_of(item, depth, Set::empty())) =~= items.drop_last().map_values(
            |item: Item| row_of(item, depth, Set::empty()),
        ).push(row_of(items.last(), depth, Set::empty())));
    } else {
        assert(items.map_values(|item: Item| row_of(item, depth, Set::empty())) =~= Seq::<RowView>::empty());
    }
}

/// A row may sit one level below the row above it only when that row is
/// expanded, and must then: it never lies deeper than that.
pub open spec fn row_follows(above: RowView, below: RowView) -> bool {
    &&& below.depth <= above.depth + 1
    &&& (below.depth == above.depth + 1 <==> above.expanded)
}

/// Rows that a depth-first walk from `depth` gives: the first row lies at
/// `depth`, the last is not expanded, and each row follows the one above it.
pub open spec fn rows_nest(rows: Seq<RowView>, depth: nat) -> bool {
    &&& rows.len() > 0 ==> rows[0].depth == depth && !rows.last().expanded
    &&& forall|i: int, j: int|
        0 <= i && j == i + 1 && j < rows.len() ==> #[trigger] row_follows(rows[i], rows[j])
}

/// The visible rows of `items` nest: they start at `depth`, each row lies at
/// most one level below the row above it, exactly one level below it when
/// that row is expanded, and the last row is not expanded.
pub proof fn lemma_rows_nest(items: Seq<Item>, depth: nat, expanded: Set<Seq<char>>)
    ensures
        rows_nest(rows_of(items, depth, expanded), depth),
    decreases items,
{
    if items.len() > 0 {
        lemma_rows_nest(items.drop_last(), depth, expanded);
        lemma_item_rows_nest(items.last(), depth, expanded);
        lemma_rows_shape(items.drop_last(), depth, expanded);
        let front = rows_of(items.drop_last(), depth, expanded);
        let back = item_rows(items.last(), depth, expanded);
        let rows = rows_of(items, depth, expanded);
        assert(rows == front + back);
        assert forall|i: int, j: int|
            0 <= i && j == i + 1 && j < rows.len() implies #[trigger] row_follows(rows[i], rows[j]) by {
            if j < front.len() {
                assert(rows[i] == front[i] && rows[j] == front[j]);
                assert(row_follows(front[i], front[j]));
            } else if i >= front.len() {
                assert(rows[i] == back[i - front.len()] && rows[j] == back[j - front.len()]);
                assert(row_follows(back[i - front.len()], back[j - front.len()]));
            } else {
                assert(rows[i] == front.last());
                assert(front[front.len() - 1].depth >= depth);
                assert(rows[j] == back[0]);
            }
        }
        if front.len() > 0 {
            assert(rows[0] == front[0]);
        } else {
            assert(rows[0] == back[0]);
        }
        assert(rows.last() == back.last());
    }
}

/// The rows of one item nest from `depth`.
pub proof fn lemma_item_rows_nest(item: Item, depth: nat, expanded: Set<Seq<char>>)
    ensures
        rows_nest(item_rows(item, depth, expanded), depth),
    decreases item,
{
    let row = row_of(item, depth, expanded);
    let rows = item_rows(item, depth, expanded);
    if row.expanded {
        lemma_rows_nest(item.children@, depth + 1, expanded);
        lemma_rows_shape(item.children@, depth + 1, expanded);
        let below = rows_of(item.children@, depth + 1, expanded);
        assert(rows == seq![row] + below);
        assert(below.len() > 0);
        assert forall|i: int, j: int|
            0 <= i && j == i + 1 && j < rows.len() implies #[trigger] row_follows(rows[i], rows[j]) by {
            if i == 0 {
                assert(rows[j] == below[0]);
            } else {
                assert(rows[i] == below[i - 1] && rows[j] == below[j - 1]);
                assert(row_follows(below[i - 1], below[j - 1]));
            }
        }
        assert(rows.last() == below.last());
    }
}

// ---------------------------------------------------------------------------------------------- //
// What collapsing an item does to the rows.

/// The ids of `item` and of every item below it, shown or not.
pub open spec fn item_ids(item: Item) -> Set<Seq<char>>
    decreases item,
{
    set![item.id@].union(ids_of(item.children@))
}

/// The ids of `items` and of every item below them.
pub open spec fn ids_of(items: Seq<Item>) -> Set<Seq<char>>
    decreases items,
{
    if items.len() == 0 {
        Set::empty()
    } else {
        ids_of(items.drop_last()).union(item_ids(items.last()))
    }
}

/// No id occurs twice in `item` and below it.
pub open spec fn item_ids_distinct(item: Item) -> bool
    decreases item,
{
    &&& !ids_of(item.children@).contains(item.id@)
    &&& ids_distinct(item.children@)
}

/// No id occurs twice in `items` and below them, at any depth.
pub open spec fn ids_distinct(items: Seq<Item>) -> bool
    decreases items,
{
    items.len() == 0 || {
        &&& ids_distinct(items.drop_last())
        &&& item_ids_distinct(items.last())
        &&& ids_of(items.drop_last()).disjoint(item_ids(items.last()))
    }
}

/// `row`, shown collapsed.
pub open spec fn collapsed_row(row: RowView) -> RowView {
    RowView {
        id: row.id,
        label: row.label,
        icon: row.icon,
        depth: row.depth,
        has_children: row.has_children,
        expanded: false,
    }
}

/// `rows` without the rows at their front that lie deeper than `depth`.
pub open spec fn without_deeper(rows: Seq<RowView>, depth: nat) -> Seq<RowView>
    decreases rows.len(),
{
    if rows.len() > 0 && rows[0].depth > depth {
        without_deeper(rows.drop_first(), depth)
    } else {
        rows
    }
}

/// `rows` with the first row of `id` shown collapsed and the rows that hang
/// below it, deeper than it and right after it, taken away.
pub open spec fn collapse_rows(rows: Seq<RowView>, id: Seq<char>) -> Seq<RowView>
    decreases rows.len(),
{
    if rows.len() == 0 {
        rows
    } else if rows[0].id == id {
        seq![collapsed_row(rows[0])] + without_deeper(rows.drop_first(), rows[0].depth)
    } else {
        seq![rows[0]] + collapse_rows(rows.drop_first(), id)
    }
}

/// Every row shows an item of the tree.
proof fn lemma_row_ids(items: Seq<Item>, depth: nat, expanded: Set<Seq<char>>)
    ensures
        forall|k: int|
            0 <= k < rows_of(items, depth, expanded).len() ==> ids_of(items).contains(
                #[trigger] rows_of(items, depth, expanded)[k].id,
            ),
    decreases items,
{
    if items.len() > 0 {
        lemma_row_ids(items.drop_last(), depth, expanded);
        lemma_item_row_ids(items.last(), depth, expanded);
        let front = rows_of(items.drop_last(), depth, expanded);
        let back = item_rows(items.last(), depth, expanded);
        assert forall|k: int| 0 <= k < rows_of(items, depth, expanded).len() implies ids_of(items).contains(
            #[trigger] rows_of(items, depth, expanded)[k].id,
        ) by {
            if k < front.len() {
                assert(rows_of(items, depth, expanded)[k] == front[k]);
            } else {
                assert(rows_of(items, depth, expanded)[k] == back[k - front.len()]);
            }
        }
    }
}

/// Every row of an item shows it or an item below it.
proof fn lemma_item_row_ids(item: Item, depth: nat, expanded: Set<Seq<char>>)
    ensures
        forall|k: int|
            0 <= k < item_rows(item, depth, expanded).len() ==> item_ids(item).contains(
                #[trigger] item_rows(item, depth, expanded)[k].id,
            ),
    decreases item,
{
    let row = row_of(item, depth, expanded);
    if row.expanded {
        lemma_row_ids(item.children@, depth + 1, expanded);
        let below = rows_of(item.children@, depth + 1, expanded);
        assert forall|k: int| 0 <= k < item_rows(item, depth, expanded).len() implies item_ids(item).contains(
            #[trigger] item_rows(item, depth, expanded)[k].id,
        ) by {
            if k > 0 {
                assert(item_rows(item, depth, expanded)[k] == below[k - 1]);
            }
        }
    }
}

/// Taking an id that no item of the tree has out of the expanded ids changes
/// no row.
proof fn lemma_rows_ignore_other_ids(items: Seq<Item>, depth: nat, expanded: Set<Seq<char>>, id: Seq<char>)
    requires
        !ids_of(items).contains(id),
    ensures
        rows_of(items, depth, expanded.remove(id)) == rows_of(items, depth, expanded),
    decreases items,
{
    if items.len() > 0 {
        lemma_rows_ignore_other_ids(items.drop_last(), depth, expanded, id);
        lemma_item_rows_ignore_other_ids(items.last(), depth, expanded, id);
    }
}

/// The rows of one item ignore an id that it and the items below it lack.
proof fn lemma_item_rows_ignore_other_ids(item: Item, depth: nat, expanded: Set<Seq<char>>, id: Seq<char>)
    requires
        !item_ids(item).contains(id),
    ensures
        item_rows(item, depth, expanded.remove(id)) == item_rows(item, depth, expanded),
    decreases item,
{
    assert(row_of(item, depth, expanded.remove(id)) == row_of(item, depth, expanded));
    lemma_rows_ignore_other_ids(item.children@, depth + 1, expanded, id);
}

/// Rows without `id` stay as they are.
proof fn lemma_collapse_absent(rows: Seq<RowView>, id: Seq<char>)
    requires
        forall|k: int| 0 <= k < rows.len() ==> #[trigger] rows[k].id != id,
    ensures
        collapse_rows(rows, id) == rows,
    decreases rows.len(),
{
    if rows.len() > 0 {
        assert(rows[0].id != id);
        assert forall|k: int| 0 <= k < rows.drop_first().len() implies #[trigger] rows.drop_first()[k].id != id by {
            assert(rows.drop_first()[k] == rows[k + 1]);
        }
        lemma_collapse_absent(rows.drop_first(), id);
        assert(seq![rows[0]] + rows.drop_first() =~= rows);
    }
}

/// Skipping deeper rows stops before rows that do not lie deeper.
proof fn lemma_without_deeper_append(rows: Seq<RowView>, more: Seq<RowView>, depth: nat)
    requires
        more.len() > 0 ==> more[0].depth <= depth,
    ensures
        without_deeper(rows + more, depth) == without_deeper(rows, depth) + more,
    decreases rows.len(),
{
    if rows.len() == 0 {
        assert(rows + more =~= more);
    } else {
        assert((rows + more)[0] == rows[0]);
        if rows[0].depth > depth {
            assert((rows + more).drop_first() =~= rows.drop_first() + more);
            lemma_without_deeper_append(rows.drop_first(), more, depth);
        }
    }
}

/// Collapsing rows followed by rows that lack the id and lie no deeper than
/// the front rows collapses the front rows alone.
proof fn lemma_collapse_append(rows: Seq<RowView>, more: Seq<RowView>, id: Seq<char>, depth: nat)
    requires
        forall|k: int| 0 <= k < rows.len() ==> (#[trigger] rows[k]).depth >= depth,
        more.len() > 0 ==> more[0].depth <= depth,
        forall|k: int| 0 <= k < more.len() ==> #[trigger] more[k].id != id,
    ensures
        collapse_rows(rows + more, id) == collapse_rows(rows, id) + more,
    decreases rows.len(),
{
    if rows.len() == 0 {
        assert(rows + more =~= more);
        lemma_collapse_absent(more, id);
    } else {
        let all = rows + more;
        assert(all[0] == rows[0]);
        assert(all.drop_first() =~= rows.drop_first() + more);
        if rows[0].id == id {
            lemma_without_deeper_append(rows.drop_first(), more, rows[0].depth);
        } else {
            assert forall|k: int| 0 <= k < rows.drop_first().len() implies (#[trigger] rows.drop_first()[k]).depth
                >= depth by {
                assert(rows.drop_first()[k] == rows[k + 1]);
            }
            lemma_collapse_append(rows.drop_first(), more, id, depth);
        }
    }
}

/// Collapsing rows that lack the id in front of others collapses the others.
proof fn lemma_collapse_after(rows: Seq<RowView>, more: Seq<RowView>, id: Seq<char>)
    requires
        forall|k: int| 0 <= k < rows.len() ==> #[trigger] rows[k].id != id,
    ensures
        collapse_rows(rows + more, id) == rows + collapse_rows(more, id),
    decreases rows.len(),
{
    if rows.len() == 0 {
        assert(rows + more =~= more);
    } else {
        let all = rows + more;
        assert(all[0] == rows[0]);
        assert(rows[0].id != id);
        assert(all.drop_first() =~= rows.drop_first() + more);
        assert forall|k: int| 0 <= k < rows.drop_first().len() implies #[trigger] rows.drop_first()[k].id != id by {
            assert(rows.drop_first()[k] == rows[k + 1]);
        }
        lemma_collapse_after(rows.drop_first(), more, id);
        assert(seq![rows[0]] + (rows.drop_first() + collapse_rows(more, id)) =~= rows + collapse_rows(more, id));
    }
}

/// When no id occurs twice, collapsing an id shows its row collapsed and takes
/// away the rows that hung below it; every other row stays as it was.  Rows
/// without the id (it is hidden, or no item has it) stay as they are.
pub proof fn lemma_collapse_removes_descendants(items: Seq<Item>, depth: nat, expanded: Set<Seq<char>>, id: Seq<char>)
    requires
        ids_distinct(items),
    ensures
        rows_of(items, depth, expanded.remove(id)) == collapse_rows(rows_of(items, depth, expanded), id),
    decreases items,
{
    if items.len() > 0 {
        let front_items = items.drop_last();
        let last = items.last();
        let smaller = expanded.remove(id);
        let front = rows_of(front_items, depth, expanded);
        let back = item_rows(last, depth, expanded);
        assert(rows_of(items, depth, expanded) == front + back);
        assert(rows_of(items, depth, smaller) == rows_of(front_items, depth, smaller) + item_rows(last, depth, smaller));
        if item_ids(last).contains(id) {
            assert(!ids_of(front_items).contains(id));
            lemma_rows_ignore_other_ids(front_items, depth, expanded, id);
            lemma_row_ids(front_items, depth, expanded);
            lemma_item_collapse_removes_descendants(last, depth, expanded, id);
            assert forall|k: int| 0 <= k < front.len() implies #[trigger] front[k].id != id by {
                assert(ids_of(front_items).contains(front[k].id));
            }
            lemma_collapse_after(front, back, id);
        } else {
            lemma_item_rows_ignore_other_ids(last, depth, expanded, id);
            lemma_collapse_removes_descendants(front_items, depth, expanded, id);
            lemma_item_row_ids(last, depth, expanded);
            lemma_item_rows_shape(last, depth, expanded);
            lemma_rows_shape(front_items, depth, expanded);
            assert forall|k: int| 0 <= k < back.len() implies #[trigger] back[k].id != id by {
                assert(item_ids(last).contains(back[k].id));
            }
            assert forall|k: int| 0 <= k < front.len() implies (#[trigger] front[k]).depth >= depth by {
                assert(front[k] == rows_of(front_items, depth, expanded)[k]);
            }
            lemma_collapse_append(front, back, id, depth);
        }
    }
}

/// Collapsing an id within one item whose ids are distinct.
proof fn lemma_item_collapse_removes_descendants(item: Item, depth: nat, expanded: Set<Seq<char>>, id: Seq<char>)
    requires
        item_ids_distinct(item),
    ensures
        item_rows(item, depth, expanded.remove(id)) == collapse_rows(item_rows(item, depth, expanded), id),
    decreases item,
{
    let smaller = expanded.remove(id);
    let row = row_of(item, depth, expanded);
    let rows = item_rows(item, depth, expanded);
    assert(rows[0] == row);
    if item.id@ == id {
        assert(!row_of(item, depth, smaller).expanded);
        assert(row_of(item, depth, smaller) == collapsed_row(row));
        if row.expanded {
            lemma_rows_shape(item.children@, depth + 1, expanded);
            let below = rows_of(item.children@, depth + 1, expanded);
            assert(rows.drop_first() =~= below);
            assert(without_deeper(below, depth) =~= Seq::<RowView>::empty()) by {
                lemma_all_deeper(below, depth);
            }
        } else {
            assert(rows.drop_first() =~= Seq::<RowView>::empty());
        }
        assert(collapse_rows(rows, id) == seq![collapsed_row(row)] + without_deeper(rows.drop_first(), depth));
        assert(seq![collapsed_row(row)] + Seq::<RowView>::empty() =~= seq![collapsed_row(row)]);
    } else {
        assert(row_of(item, depth, smaller) == row);
        assert(collapse_rows(rows, id) == seq![row] + collapse_rows(rows.drop_first(), id));
        if row.expanded {
            lemma_collapse_removes_descendants(item.children@, depth + 1, expanded, id);
            assert(rows.drop_first() =~= rows_of(item.children@, depth + 1, expanded));
        } else {
            assert(rows.drop_first() =~= Seq::<RowView>::empty());
            assert(seq![row] + Seq::<RowView>::empty() =~= seq![row]);
            assert(rows =~= seq![row]);
        }
    }
}

/// Rows that all lie deeper than `depth` are skipped entirely.
proof fn lemma_all_deeper(rows: Seq<RowView>, depth: nat)
    requires
        forall|k: int| 0 <= k < rows.len() ==> (#[trigger] rows[k]).depth > depth,
    ensures
        without_deeper(rows, depth) == Seq::<RowView>::empty(),
    decreases rows.len(),
{
    if rows.len() > 0 {
        assert(rows[0].depth > depth);
        assert forall|k: int| 0 <= k < rows.drop_first().len() implies (#[trigger] rows.drop_first()[k]).depth > depth by {
            assert(rows.drop_first()[k] == rows[k + 1]);
        }
        lemma_all_deeper(rows.drop_first(), depth);
    } else {
        assert(rows =~= Seq::<RowView>::empty());
    }
}

// ---------------------------------------------------------------------------------------------- //
// Each row shows an item of the tree.

/// The items of `item` and below it, each with the depth it lies at when
/// `item` lies at `depth`.
pub open spec fn placed_item(item: Item, depth: nat) -> Set<(Item, nat)>
    decreases item,
{
    set![(item, depth)].union(placed_items(item.children@, depth + 1))
}

/// The items of `items` and below them, each with the depth it lies at when
/// `items` lie at `depth`.
pub open spec fn placed_items(items: Seq<Item>, depth: nat) -> Set<(Item, nat)>
    decreases items,
{
    if items.len() == 0 {
        Set::empty()
    } else {
        placed_items(items.drop_last(), depth).union(placed_item(items.last(), depth))
    }
}

/// Whether `row` shows `item`: its id, label and kind; whether it has
/// children; and expanded exactly when it has children and its id is one of
/// `expanded`.
pub open spec fn shows(row: RowView, item: Item, expanded: Set<Seq<char>>) -> bool {
    &&& row.id == item.id@
    &&& row.label == item.label@
    &&& row.icon == item.icon
    &&& row.has_children == (item.children@.len() > 0)
    &&& row.expanded == (item.children@.len() > 0 && expanded.contains(item.id@))
}

/// Whether `row` shows one of the `placed` items at the row's depth.
pub open spec fn shows_placed(row: RowView, placed: Set<(Item, nat)>, expanded: Set<Seq<char>>) -> bool {
    exists|item: Item| #[trigger] placed.contains((item, row.depth)) && shows(row, item, expanded)
}

/// Every visible row shows an item of the tree at the row's depth: the row
/// carries that item's id, label and kind, and is expanded only when the item
/// has children and its id is expanded.
pub proof fn lemma_rows_show_items(items: Seq<Item>, depth: nat, expanded: Set<Seq<char>>)
    ensures
        forall|k: int|
            0 <= k < rows_of(items, depth, expanded).len() ==> shows_placed(
                #[trigger] rows_of(items, depth, expanded)[k],
                placed_items(items, depth),
                expanded,
            ),
    decreases items,
{
    if items.len() > 0 {
        lemma_rows_show_items(items.drop_last(), depth, expanded);
        lemma_item_rows_show_items(items.last(), depth, expanded);
        let front = rows_of(items.drop_last(), depth, expanded);
        let back = item_rows(items.last(), depth, expanded);
        let rows = rows_of(items, depth, expanded);
        let placed = placed_items(items, depth);
        assert forall|k: int| 0 <= k < rows.len() implies shows_placed(#[trigger] rows[k], placed, expanded) by {
            if k < front.len() {
                assert(rows[k] == front[k]);
                assert(shows_placed(front[k], placed_items(items.drop_last(), depth), expanded));
                let item = choose|item: Item|
                    #[trigger] placed_items(items.drop_last(), depth).contains((item, front[k].depth))
                        && shows(front[k], item, expanded);
                assert(placed.contains((item, rows[k].depth)));
            } else {
                let j = k - front.len();
                assert(rows[k] == back[j]);
                assert(shows_placed(back[j], placed_item(items.last(), depth), expanded));
                let item = choose|item: Item|
                    #[trigger] placed_item(items.last(), depth).contains((item, back[j].depth))
                        && shows(back[j], item, expanded);
                assert(placed.contains((item, rows[k].depth)));
            }
        }
    }
}

/// Every row of one item shows it or an item below it, at the row's depth.
pub proof fn lemma_item_rows_show_items(item: Item, depth: nat, expanded: Set<Seq<char>>)
    ensures
        forall|k: int|
            0 <= k < item_rows(item, depth, expanded).len() ==> shows_placed(
                #[trigger] item_rows(item, depth, expanded)[k],
                placed_item(item, depth),
                expanded,
            ),
    decreases item,
{
    let rows = item_rows(item, depth, expanded);
    let row = row_of(item, depth, expanded);
    let placed = placed_item(item, depth);
    assert(placed.contains((item, depth)));
    assert(rows[0] == row);
    assert(shows(row, item, expanded));
    assert(placed.contains((item, rows[0].depth)));
    assert(shows_placed(rows[0], placed, expanded));
    if row.expanded {
        lemma_rows_show_items(item.children@, depth + 1, expanded);
        let below = rows_of(item.children@, depth + 1, expanded);
        assert forall|k: int| 0 <= k < rows.len() implies shows_placed(#[trigger] rows[k], placed, expanded) by {
            if k > 0 {
                assert(rows[k] == below[k - 1]);
                assert(shows_placed(below[k - 1], placed_items(item.children@, depth + 1), expanded));
                let it = choose|it: Item|
                    #[trigger] placed_items(item.children@, depth + 1).contains((it, below[k - 1].depth))
                        && shows(below[k - 1], it, expanded);
                assert(placed.contains((it, rows[k].depth)));
            }
        }
    }
}

/// The rows of two lists of items one after the other are the rows of the
/// first list followed by those of the second.
pub proof fn lemma_rows_concat(front: Seq<Item>, back: Seq<Item>, depth: nat, expanded: Set<Seq<char>>)
    ensures
        rows_of(front + back, depth, expanded) == rows_of(front, depth, expanded) + rows_of(back, depth, expanded),
    decreases back.len(),
{
    if back.len() == 0 {
        assert(front + back =~= front);
    } else {
        lemma_rows_concat(front, back.drop_last(), depth, expanded);
        assert((front + back).drop_last() =~= front + back.drop_last());
        assert((front + back).last() == back.last());
    }
}

/// The rows of a single item: first the row that shows it at `depth`; below
/// it, when it has children and its id is expanded, the rows of its children
/// one level deeper, and nothing otherwise.
pub proof fn lemma_rows_single(item: Item, depth: nat, expanded: Set<Seq<char>>)
    ensures
        ({
            let rows = rows_of(seq![item], depth, expanded);
            &&& rows.len() >= 1
            &&& shows(rows[0], item, expanded)
            &&& rows[0].depth == depth
            &&& if item.children@.len() > 0 && expanded.contains(item.id@) {
                rows.drop_first() == rows_of(item.children@, depth + 1, expanded)
            } else {
                rows.len() == 1
            }
        }),
{
    let one = seq![item];
    assert(one.drop_last() =~= Seq::<Item>::empty());
    assert(one.last() == item);
    let rows = rows_of(one, depth, expanded);
    assert(rows_of(one.drop_last(), depth, expanded) =~= Seq::<RowView>::empty());
    assert(rows =~= item_rows(item, depth, expanded));
    assert(rows[0] == row_of(item, depth, expanded));
    if item.children@.len() > 0 && expanded.contains(item.id@) {
        assert(rows.drop_first() =~= rows_of(item.children@, depth + 1, expanded));
    }
}

/// With no id expanded, row `k` shows the root `k` itself: its id, label and
/// kind, at the starting depth, collapsed.
pub proof fn lemma_collapsed_rows_show_roots(items: Seq<Item>, depth: nat)
    ensures
        rows_of(items, depth, Set::empty()).len() == items.len(),
        forall|k: int|
            0 <= k < items.len() ==> {
                let row = #[trigger] rows_of(items, depth, Set::empty())[k];
                &&& row.id == items[k].id@
                &&& row.label == items[k].label@
                &&& row.icon == items[k].icon
                &&& row.depth == depth
                &&& row.has_children == (items[k].children@.len() > 0)
                &&& !row.expanded
            },
{
    lemma_collapsed_rows(items, depth);
    assert forall|k: int| 0 <= k < items.len() implies {
        let row = #[trigger] rows_of(items, depth, Set::empty())[k];
        &&& row.id == items[k].id@
        &&& row.label == items[k].label@
        &&& row.icon == items[k].icon
        &&& row.depth == depth
        &&& row.has_children == (items[k].children@.len() > 0)
        &&& !row.expanded
    } by {
        assert(rows_of(items, depth, Set::empty())[k] == row_of(items[k], depth, Set::empty()));
    }
}

// ---------------------------------------------------------------------------------------------- //
// Building items.

impl Item {
    /// A file with no children that starts collapsed.
    pub fn file(id: &str, label: &str) -> (item: Item)
        ensures
            item.id@ == id@,
            item.label@ == label@,
            item.icon == ItemKind::File,
            !item.expanded,
            item.children@.len() == 0,
            item_nesting(item) == 1,
            item_view(item) == (ItemView {
                id: id@,
                label: label@,
                icon: ItemKind::File,
                expanded: false,
                children: Seq::empty(),
            }),
    {
        Self::new(id, label, ItemKind::File)
    }

    /// A folder with no children yet that starts collapsed.
    pub fn folder(id: &str, label: &str) -> (item: Item)
        ensures
            item.id@ == id@,
            item.label@ == label@,
            item.icon == ItemKind::Folder,
            !item.expanded,
            item.children@.len() == 0,
            item_nesting(item) == 1,
            item_view(item) == (ItemView {
                id: id@,
                label: label@,
                icon: ItemKind::Folder,
                expanded: false,
                children: Seq::empty(),
            }),
    {
        Self::new(id, label, ItemKind::Folder)
    }

    /// An item of the given kind with no children that starts collapsed.
    pub fn new(id: &str, label: &str, icon: ItemKind) -> (item: Item)
        ensures
            item.id@ == id@,
            item.label@ == label@,
            item.icon == icon,
            !item.expanded,
            item.children@.len() == 0,
            item_nesting(item) == 1,
            item_view(item) == (ItemView { id: id@, label: label@, icon, expanded: false, children: Seq::empty() }),
    {
        Item {
            id: id.to_owned(),
            label: label.to_owned(),
            icon,
            expanded: false,
            children: Vec::new(),
        }
    }

    /// The item with `child` added after its children.
    pub fn child(self, child: Item) -> (item: Item)
        ensures
            item.id == self.id,
            item.label == self.label,
            item.icon == self.icon,
            item.expanded == self.expanded,
            item.children@ == self.children@.push(child),
            item_nesting(item) == if item_nesting(self) < 1 + item_nesting(child) {
                1 + item_nesting(child)
            } else {
                item_nesting(self)
            },
            item_view(item) == (ItemView {
                id: item_view(self).id,
                label: item_view(self).label,
                icon: item_view(self).icon,
                expanded: item_view(self).expanded,
                children: item_view(self).children.push(item_view(child)),
            }),
    {
        let mut item = self;
        item.children.push(child);
        proof {
            assert(item.children@.drop_last() =~= self.children@);
        }
        item
    }

    /// The item with `children` added, in order, after its children.
    pub fn children(self, children: Vec<Item>) -> (item: Item)
        ensures
            item.id == self.id,
            item.label == self.label,
            item.icon == self.icon,
            item.expanded == self.expanded,
            item.children@ == self.children@ + children@,
            item_view(item) == (ItemView {
                id: item_view(self).id,
                label: item_view(self).label,
                icon: item_view(self).icon,
                expanded: item_view(self).expanded,
                children: item_view(self).children + items_view(children@),
            }),
    {
        let mut item = self;
        let mut added = children;
        item.children.append(&mut added);
        proof {
            lemma_items_view_append(self.children@, children@);
        }
        item
    }

    /// The item, set to start expanded or not.
    pub fn expanded(self, expanded: bool) -> (item: Item)
        ensures
            item.id == self.id,
            item.label == self.label,
            item.icon == self.icon,
            item.expanded == expanded,
            item.children == self.children,
            item_view(item) == (ItemView {
                id: item_view(self).id,
                label: item_view(self).label,
                icon: item_view(self).icon,
                expanded,
                children: item_view(self).children,
            }),
    {
        let mut item = self;
        item.expanded = expanded;
        item
    }

    /// The item with another kind.
    pub fn icon(self, icon: ItemKind) -> (item: Item)
        ensures
            item.id == self.id,
            item.label == self.label,
            item.icon == icon,
            item.expanded == self.expanded,
            item.children == self.children,
    {
        let mut item = self;
        item.icon = icon;
        item
    }

    /// The id.
    pub fn id(&self) -> (id: &str)
        ensures
            id@ == self.id@,
    {
        self.id.as_str()
    }

    /// The label.
    pub fn label(&self) -> (label: &str)
        ensures
            label@ == self.label@,
    {
        self.label.as_str()
    }

    /// The children, in order.
    pub fn children_ref(&self) -> (children: &[Item])
        ensures
            children@ == self.children@,
    {
        self.children.as_slice()
    }

    /// Whether the item starts expanded.
    pub fn is_expanded_by_default(&self) -> (expanded: bool)
        ensures
            expanded == self.expanded,
    {
        self.expanded
    }
}

/// Whether two items have the same id, label, kind and starting state, and
/// children that are the same one for one.
pub open spec fn same_item(a: Item, b: Item) -> bool
    decreases a,
{
    &&& a.id@ == b.id@
    &&& a.label@ == b.label@
    &&& a.icon == b.icon
    &&& a.expanded == b.expanded
    &&& a.children@.len() == b.children@.len()
    &&& forall|i: int| 0 <= i < a.children@.len() ==> same_item(#[trigger] a.children@[i], b.children@[i])
}

impl Clone for Item {
    /// A copy of the item and of everything below it.
    fn clone(&self) -> (copy: Item)
        ensures
            same_item(copy, *self),
        decreases self,
    {
        let mut children: Vec<Item> = Vec::new();
        let n = self.children.len();
        for i in 0..n
            invariant
                n == self.children@.len(),
                children@.len() == i,
                forall|k: int| 0 <= k < i ==> same_item(#[trigger] children@[k], self.children@[k]),
        {
            assert(decreases_to!(self => self.children@[i as int])) by {
                assert(decreases_to!(self => self.children));
                assert(decreases_to!(self.children => self.children@));
            }
            let child = self.children[i].clone();
            children.push(child);
        }
        Item {
            id: self.id.clone(),
            label: self.label.clone(),
            icon: self.icon,
            expanded: self.expanded,
            children,
        }
    }
}

// ---------------------------------------------------------------------------------------------- //
// Walking the tree.

/// Adds to `expanded_ids` the id of every item, at any depth, that starts expanded.
pub fn collect_default_expanded_ids(items: &[Item], expanded_ids: &mut IdSet)
    ensures
        final(expanded_ids)@ == old(expanded_ids)@.union(default_expanded_of(items@)),
    decreases items@,
{
    let n = items.len();
    proof {
        assert(items@.take(0).len() == 0);
        assert(old(expanded_ids)@.union(default_expanded_of(items@.take(0))) =~= old(
            expanded_ids,
        )@);
    }
    for i in 0..n
        invariant
            n == items@.len(),
            expanded_ids@ == old(expanded_ids)@.union(default_expanded_of(items@.take(i as int))),
    {
        let item = &items[i];
        proof {
            lemma_take_step(items@, i as int);
        }
        let ghost before = expanded_ids@;
        if item.expanded {
            expanded_ids.insert(item.id.as_str());
        }
        assert(decreases_to!(items@ => item.children@)) by {
            assert(decreases_to!(items@ => items@[i as int]));
        }
        collect_default_expanded_ids(item.children.as_slice(), expanded_ids);
        assert(default_expanded_of(items@.take(i + 1)) == default_expanded_of(
            items@.take(i as int),
        ).union(default_expanded_of_item(items@[i as int])));
        assert(expanded_ids@ =~= old(expanded_ids)@.union(
            default_expanded_of(items@.take(i + 1)),
        ));
    }
    assert(items@.take(n as int) =~= items@);
}

/// Appends to `rows` the visible rows of `items`, starting at `depth`.
pub fn build_rows(items: &[Item], depth: usize, expanded_ids: &IdSet, rows: &mut Vec<Row>)
    requires
        depth + nesting(items@) <= usize::MAX,
    ensures
        row_views(final(rows)@) == row_views(old(rows)@) + rows_of(
            items@,
            depth as nat,
            expanded_ids@,
        ),
        final(rows)@.len() >= old(rows)@.len() + items@.len(),
        forall|k: int|
            old(rows)@.len() <= k < final(rows)@.len() ==> {
                let row = (#[trigger] final(rows)@[k])@;
                &&& row.depth >= depth
                &&& row.expanded ==> row.has_children
            },
        rows_nest(row_views(final(rows)@).skip(old(rows)@.len() as int), depth as nat),
    decreases items@,
{
    let n = items.len();
    proof {
        assert(row_views(rows@) + rows_of(items@.take(0), depth as nat, expanded_ids@) =~= row_views(
            rows@,
        ));
    }
    for i in 0..n
        invariant
            n == items@.len(),
            depth + nesting(items@) <= usize::MAX,
            row_views(rows@) == row_views(old(rows)@) + rows_of(
                items@.take(i as int),
                depth as nat,
                expanded_ids@,
            ),
    {
        let item = &items[i];
        proof {
            lemma_take_step(items@, i as int);
            lemma_nesting_bounds(items@, i as int);
        }
        let ghost before = row_views(rows@);
        let has_children = item.children.len() > 0;
        let expanded = has_children && expanded_ids.contains(item.id.as_str());
        let row = Row {
            id: item.id.clone(),
            label: item.label.clone(),
            icon: item.icon,
            depth,
            has_children,
            expanded,
        };
        assert(row@ == row_of(*item, depth as nat, expanded_ids@));
        rows.push(row);
        assert(row_views(rows@) =~= before + seq![row_of(*item, depth as nat, expanded_ids@)]);
        if expanded {
            assert(decreases_to!(items@ => item.children@)) by {
                assert(decreases_to!(items@ => items@[i as int]));
            }
            build_rows(item.children.as_slice(), depth + 1, expanded_ids, rows);
        }
        assert(rows_of(items@.take(i + 1), depth as nat, expanded_ids@) == rows_of(
            items@.take(i as int),
            depth as nat,
            expanded_ids@,
        ) + item_rows(items@[i as int], depth as nat, expanded_ids@));
        assert(row_views(rows@) =~= row_views(old(rows)@) + rows_of(
            items@.take(i + 1),
            depth as nat,
            expanded_ids@,
        ));
    }
    assert(items@.take(n as int) =~= items@);
    proof {
        let added = rows_of(items@, depth as nat, expanded_ids@);
        let start = old(rows)@.len() as int;
        lemma_rows_nest(items@, depth as nat, expanded_ids@);
        lemma_rows_shape(items@, depth as nat, expanded_ids@);
        assert(row_views(rows@).skip(start) =~= added);
        assert forall|k: int| start <= k < rows@.len() implies {
            let row = (#[trigger] rows@[k])@;
            &&& row.depth >= depth
            &&& row.expanded ==> row.has_children
        } by {
            assert(row_views(rows@)[k] == rows@[k]@);
            assert(row_views(rows@)[k] == added[k - start]);
        }
    }
}

/// How many levels `items` span, as `nesting` counts them; none when that
/// number does not fit a `usize`.
pub fn nesting_depth(items: &[Item]) -> (depth: Option<usize>)
    ensures
        depth is Some == (nesting(items@) <= usize::MAX),
        depth matches Some(d) ==> d == nesting(items@),
    decreases items@,
{
    let n = items.len();
    let mut best: usize = 0;
    assert(items@.take(0).len() == 0);
    for i in 0..n
        invariant
            n == items@.len(),
            best == nesting(items@.take(i as int)),
    {
        let item = &items[i];
        proof {
            lemma_take_step(items@, i as int);
            lemma_nesting_bounds(items@, i as int);
        }
        assert(decreases_to!(items@ => item.children@)) by {
            assert(decreases_to!(items@ => items@[i as int]));
        }
        let below = match nesting_depth(item.children.as_slice()) {
            Some(d) => d,
            None => {
                return None;
            },
        };
        if below == usize::MAX {
            return None;
        }
        let own = below + 1;
        if own > best {
            best = own;
        }
        assert(best == nesting(items@.take(i + 1)));
    }
    assert(items@.take(n as int) =~= items@);
    Some(best)
}

/// The first item, depth first, whose id is `id`.
pub fn find_item<'a>(items: &'a [Item], id: &str) -> (found: Option<&'a Item>)
    ensures
        found is Some == find_in(items@, id@) is Some,
        found is Some ==> *found->0 == find_in(items@, id@)->0,
{
    let key = id.to_owned();
    find_item_by(items, &key)
}

fn find_item_by<'a>(items: &'a [Item], id: &String) -> (found: Option<&'a Item>)
    ensures
        found is Some == find_in(items@, id@) is Some,
        found is Some ==> *found->0 == find_in(items@, id@)->0,
    decreases items@,
{
    let n = items.len();
    for i in 0..n
        invariant
            n == items@.len(),
            find_in(items@.take(i as int), id@) is None,
    {
        let item = &items[i];
        proof {
            lemma_take_step(items@, i as int);
        }
        if item.id == *id {
            proof {
                assert(find_in_item(items@[i as int], id@) == Some(items@[i as int]));
                assert(find_in(items@.take(i + 1), id@) == Some(items@[i as int]));
                lemma_find_prefix(items@, i as int + 1, id@);
            }
            return Some(item);
        }
        assert(decreases_to!(items@ => item.children@)) by {
            assert(decreases_to!(items@ => items@[i as int]));
        }
        let below = find_item_by(item.children.as_slice(), id);
        proof {
            assert(find_in_item(items@[i as int], id@) == find_in(items@[i as int].children@, id@));
        }
        if below.is_some() {
            proof {
                assert(find_in_item(items@[i as int], id@) == find_in(items@[i as int].children@, id@));
                assert(find_in(items@.take(i + 1), id@) == find_in_item(items@[i as int], id@));
                lemma_find_prefix(items@, i as int + 1, id@);
            }
            return below;
        }
    }
    assert(items@.take(n as int) =~= items@);
    None
}

proof fn lemma_find_prefix(items: Seq<Item>, k: int, id: Seq<char>)
    requires
        0 < k <= items.len(),
        find_in(items.take(k - 1), id) is None,
        find_in(items.take(k), id) is Some,
    ensures
        find_in(items, id) == find_in(items.take(k), id),
    decreases items.len(),
{
    if k == items.len() {
        assert(items.take(k) =~= items);
    } else {
        assert(items.drop_last().take(k) =~= items.take(k));
        assert(items.drop_last().take(k - 1) =~= items.take(k - 1));
        lemma_find_prefix(items.drop_last(), k, id);
    }
}

/// Whether the item that `id` finds has children; `false` when none is found.
pub fn item_has_children(items: &[Item], id: &str) -> (has: bool)
    ensures
        has == has_children_in(items@, id@),
{
    match find_item(items, id) {
        Some(item) => item.children.len() > 0,
        None => false,
    }
}

} // verus!
