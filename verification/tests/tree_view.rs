use gpui_template::tree::Item;
use gpui_template::tree_view::TreeView;

#[test]
fn flattens_only_expanded_branches() {
    let tree = TreeView::new(vec![
        Item::folder("root", "root")
            .expanded(true)
            .child(Item::file("root/a.rs", "a.rs"))
            .child(
                Item::folder("root/src", "src").child(Item::file("root/src/main.rs", "main.rs")),
            ),
    ]);

    assert_eq!(tree.visible_len(), 3);
}

#[test]
fn default_expanded_state_is_collected_recursively() {
    let tree = TreeView::new(vec![
        Item::folder("root", "root").expanded(true).child(
            Item::folder("root/src", "src")
                .expanded(true)
                .child(Item::file("root/src/main.rs", "main.rs")),
        ),
    ]);

    assert_eq!(tree.visible_len(), 3);
}

use gpui_template::id_set::IdSet;
use gpui_template::tree::{
    build_rows, collect_default_expanded_ids, find_item, item_has_children, nesting_depth, ItemKind, Row,
};
use gpui_template::tree_view::{disclosure_icon, type_icon, IconSlot};

fn sample() -> Vec<Item> {
    vec![
        Item::folder("root", "root")
            .expanded(true)
            .child(Item::file("root/a.rs", "a.rs"))
            .child(
                Item::folder("root/src", "src").child(Item::file("root/src/main.rs", "main.rs")),
            ),
        Item::file("top.txt", "top.txt"),
    ]
}

fn row_ids(tree: &TreeView) -> Vec<String> {
    let mut ids = Vec::new();
    let mut ix = 0;
    while let Some(row) = tree.row(ix) {
        ids.push(row.id.clone());
        ix += 1;
    }
    ids
}

#[test]
fn rows_come_depth_first_with_depths() {
    let tree = TreeView::new(sample());
    assert_eq!(row_ids(&tree), vec!["root", "root/a.rs", "root/src", "top.txt"]);
    let depths: Vec<usize> = (0..4).map(|ix| tree.row(ix).unwrap().depth).collect();
    assert_eq!(depths, vec![0, 1, 1, 0]);
    assert!(tree.row(4).is_none());
    let root = tree.row(0).unwrap();
    assert!(root.has_children && root.expanded);
    let src = tree.row(2).unwrap();
    assert!(src.has_children && !src.expanded);
    let leaf = tree.row(1).unwrap();
    assert!(!leaf.has_children && !leaf.expanded);
}

#[test]
fn expanded_flag_on_a_leaf_shows_no_children() {
    let tree = TreeView::new(vec![Item::file("only", "only").expanded(true)]);
    assert_eq!(tree.visible_len(), 1);
    assert!(!tree.row(0).unwrap().expanded);
}

#[test]
fn empty_tree_has_no_rows() {
    let tree = TreeView::new(Vec::new());
    assert_eq!(tree.visible_len(), 0);
    assert!(tree.row(0).is_none());
    assert!(tree.selected_item().is_none());
}

#[test]
fn set_expanded_shows_and_hides_children() {
    let mut tree = TreeView::new(sample());
    tree.set_expanded("root/src", true);
    assert_eq!(tree.visible_len(), 5);
    assert_eq!(tree.row(3).unwrap().id, "root/src/main.rs");
    assert_eq!(tree.row(3).unwrap().depth, 2);
    tree.set_expanded("root/src", false);
    assert_eq!(tree.visible_len(), 4);
    tree.set_expanded("root", false);
    assert_eq!(row_ids(&tree), vec!["root", "top.txt"]);
}

#[test]
fn collapsed_parent_hides_expanded_child() {
    let mut tree = TreeView::new(vec![Item::folder("root", "root").child(
        Item::folder("root/src", "src")
            .expanded(true)
            .child(Item::file("root/src/main.rs", "main.rs")),
    )]);
    assert_eq!(tree.visible_len(), 1);
    tree.set_expanded("root", true);
    assert_eq!(tree.visible_len(), 3);
}

#[test]
fn toggle_twice_restores_rows() {
    let mut tree = TreeView::new(sample());
    let before = row_ids(&tree);
    assert!(tree.toggle_id("root/src"));
    assert_eq!(tree.visible_len(), 5);
    assert!(tree.toggle_id("root/src"));
    assert_eq!(row_ids(&tree), before);
}

#[test]
fn toggle_leaf_or_unknown_id_changes_nothing() {
    let mut tree = TreeView::new(sample());
    tree.set_selected_id("root/a.rs");
    assert!(!tree.toggle_id("root/a.rs"));
    assert!(!tree.toggle_id("missing"));
    assert_eq!(tree.visible_len(), 4);
    assert_eq!(tree.selected_id(), Some("root/a.rs"));
}

#[test]
fn selection_finds_items_at_any_depth() {
    let mut tree = TreeView::new(sample());
    assert_eq!(tree.selected_id(), None);
    tree.set_selected_id("root/src/main.rs");
    assert_eq!(tree.selected_id(), Some("root/src/main.rs"));
    assert_eq!(tree.selected_item().unwrap().label(), "main.rs");
    tree.select_id("nowhere".to_string());
    assert_eq!(tree.selected_id(), Some("nowhere"));
    assert!(tree.selected_item().is_none());
    tree.clear_selection();
    assert_eq!(tree.selected_id(), None);
}

#[test]
fn row_is_selected_compares_ids() {
    let mut tree = TreeView::new(sample());
    tree.set_selected_id("root/a.rs");
    assert!(tree.row_is_selected(tree.row(1).unwrap()));
    assert!(!tree.row_is_selected(tree.row(0).unwrap()));
    tree.clear_selection();
    assert!(!tree.row_is_selected(tree.row(1).unwrap()));
}

#[test]
fn set_items_resets_expansion_and_selection() {
    let mut tree = TreeView::new(sample());
    tree.set_expanded("root/src", true);
    tree.set_selected_id("root");
    tree.set_items(vec![Item::folder("x", "x").child(Item::file("x/y", "y"))]);
    assert_eq!(tree.selected_id(), None);
    assert_eq!(tree.visible_len(), 1);
    tree.set_items(sample());
    assert_eq!(tree.visible_len(), 4);
}

#[test]
fn icons_follow_row_state() {
    let tree = TreeView::new(sample());
    let root = tree.row(0).unwrap();
    assert_eq!(disclosure_icon(root), IconSlot::Expanded);
    assert_eq!(type_icon(root), IconSlot::FolderOpen);
    let src = tree.row(2).unwrap();
    assert_eq!(disclosure_icon(src), IconSlot::Collapsed);
    assert_eq!(type_icon(src), IconSlot::Folder);
    let file = tree.row(1).unwrap();
    assert_eq!(type_icon(file), IconSlot::File);
}

#[test]
fn find_item_returns_first_depth_first_match() {
    let items = vec![
        Item::folder("a", "first").child(Item::file("dup", "inner")),
        Item::file("dup", "outer"),
    ];
    assert_eq!(find_item(&items, "dup").unwrap().label(), "inner");
    assert!(find_item(&items, "zzz").is_none());
    assert!(item_has_children(&items, "a"));
    assert!(!item_has_children(&items, "dup"));
    assert!(!item_has_children(&items, "zzz"));
}

#[test]
fn defaults_are_collected_below_collapsed_folders() {
    let items = vec![Item::folder("a", "a").child(Item::folder("a/b", "b").expanded(true))];
    let mut ids = IdSet::new();
    collect_default_expanded_ids(&items, &mut ids);
    assert!(ids.contains("a/b"));
    assert!(!ids.contains("a"));
}

#[test]
fn build_rows_appends_from_the_given_depth() {
    let items = sample();
    let mut ids = IdSet::new();
    ids.insert("root");
    let mut rows: Vec<Row> = Vec::new();
    build_rows(&items, 3, &ids, &mut rows);
    assert_eq!(rows.len(), 4);
    assert_eq!(rows[0].depth, 3);
    assert_eq!(rows[1].depth, 4);
}

#[test]
fn nesting_depth_counts_levels() {
    assert_eq!(nesting_depth(&sample()), Some(3));
    assert_eq!(nesting_depth(&[]), Some(0));
}

#[test]
fn item_builders_set_fields() {
    let item = Item::new("id", "label", ItemKind::File)
        .icon(ItemKind::Folder)
        .expanded(true)
        .children(vec![Item::file("c1", "c1"), Item::file("c2", "c2")])
        .child(Item::file("c3", "c3"));
    assert_eq!(item.id(), "id");
    assert_eq!(item.label(), "label");
    assert_eq!(item.icon, ItemKind::Folder);
    assert!(item.is_expanded_by_default());
    let ids: Vec<&str> = item.children_ref().iter().map(|c| c.id()).collect();
    assert_eq!(ids, vec!["c1", "c2", "c3"]);
}

#[test]
fn id_set_insert_remove_clear() {
    let mut ids = IdSet::new();
    ids.insert("a");
    ids.insert("a");
    ids.insert("b");
    assert!(ids.contains("a") && ids.contains("b"));
    ids.remove("a");
    assert!(!ids.contains("a"));
    assert!(ids.contains("b"));
    ids.clear();
    assert!(!ids.contains("b"));
}

#[test]
fn clones_copy_the_whole_subtree() {
    let original = sample().remove(0);
    let copy = original.clone();
    assert_eq!(copy.id(), "root");
    assert!(copy.is_expanded_by_default());
    assert_eq!(copy.children_ref().len(), 2);
    assert_eq!(copy.children_ref()[1].children_ref()[0].id(), "root/src/main.rs");
    let tree = TreeView::new(vec![copy]);
    let row = tree.row(1).unwrap().clone();
    assert_eq!(row.id, "root/a.rs");
    assert_eq!(row.depth, 1);
}

fn rows_of_view(tree: &TreeView) -> Vec<(String, usize, bool)> {
    let mut rows = Vec::new();
    let mut ix = 0;
    while let Some(row) = tree.row(ix) {
        rows.push((row.id.clone(), row.depth, row.expanded));
        ix += 1;
    }
    rows
}

#[test]
fn rows_nest_one_level_below_expanded_rows() {
    let mut tree = TreeView::new(sample());
    tree.set_expanded("root/src", true);
    let rows = rows_of_view(&tree);
    assert_eq!(rows[0].1, 0);
    assert!(!rows.last().unwrap().2);
    for pair in rows.windows(2) {
        let (above, below) = (&pair[0], &pair[1]);
        assert!(below.1 <= above.1 + 1);
        assert_eq!(below.1 == above.1 + 1, above.2);
    }
}

#[test]
fn collapse_then_expand_restores_rows() {
    let mut tree = TreeView::new(sample());
    tree.set_expanded("root/src", true);
    let before = rows_of_view(&tree);
    tree.set_expanded("root", false);
    assert_eq!(row_ids(&tree), vec!["root", "top.txt"]);
    tree.set_expanded("root", true);
    assert_eq!(rows_of_view(&tree), before);
}
