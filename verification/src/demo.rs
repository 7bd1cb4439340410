use vstd::prelude::*;

use crate::tree::{
    item_nesting, item_view, items_view, lemma_items_view_index, nesting, Item, ItemKind, ItemView,
};

verus! {

/// The character of a decimal digit.
pub open spec fn digit_char(d: nat) -> char {
    "0123456789"@[d as int]
}

/// `n` written in decimal, without leading zeros.
pub open spec fn decimal(n: nat) -> Seq<char>
    decreases n,
{
    if n < 10 {
        seq![digit_char(n)]
    } else {
        decimal(n / 10) + seq![digit_char(n % 10)]
    }
}

/// `n` written in decimal and padded on the left with zeros to at least
/// `width` characters, as `{:0width$}` formats it.
pub open spec fn zero_padded(n: nat, width: nat) -> Seq<char> {
    let digits = decimal(n);
    if digits.len() >= width {
        digits
    } else {
        Seq::new((width - digits.len()) as nat, |i: int| '0') + digits
    }
}

fn decimal_string(n: u32) -> (text: String)
    ensures
        text@ == decimal(n as nat),
    decreases n,
{
    proof {
        reveal_strlit("0123456789");
    }
    let digits = "0123456789";
    if n < 10 {
        let d = n as usize;
        let one = digits.substring_char(d, d + 1);
        assert(one@ =~= seq![digit_char(n as nat)]);
        return one.to_owned();
    }
    let mut text = decimal_string(n / 10);
    let d = (n % 10) as usize;
    let one = digits.substring_char(d, d + 1);
    assert(one@ =~= seq![digit_char((n % 10) as nat)]);
    text.append(one);
    text
}

/// `n` in decimal, padded with zeros to at least `width` characters.
pub fn format_zero_padded(n: u32, width: usize) -> (text: String)
    ensures
        text@ == zero_padded(n as nat, width as nat),
{
    let digits = decimal_string(n);
    let len = digits.as_str().unicode_len();
    if len >= width {
        return digits;
    }
    let mut text = String::new();
    let mut i: usize = 0;
    while i < width - len
        invariant
            len < width,
            i <= width - len,
            text@ == Seq::new(i as nat, |k: int| '0'),
        decreases width - len - i,
    {
        text.append("0");
        proof {
            reveal_strlit("0");
        }
        assert(text@ =~= Seq::new((i + 1) as nat, |k: int| '0'));
        i = i + 1;
    }
    text.append(digits.as_str());
    text
}

/// The name of generated file number `ix`: `item_`, the number padded to
/// three digits, and `.rs`.
pub open spec fn generated_name(ix: nat) -> Seq<char> {
    "item_"@ + zero_padded(ix, 3) + ".rs"@
}

/// Files numbered from zero below `count`, each with the id `folder`, a
/// slash and its name, and its name as the label.
pub fn generated_files(folder: &str, count: u32) -> (files: Vec<Item>)
    ensures
        files@.len() == count,
        forall|ix: int|
            0 <= ix < count ==> {
                let file = #[trigger] files@[ix];
                &&& file.id@ == folder@ + "/"@ + generated_name(ix as nat)
                &&& file.label@ == generated_name(ix as nat)
                &&& file.icon == ItemKind::File
                &&& !file.expanded
                &&& file.children@.len() == 0
            },
{
    let mut files: Vec<Item> = Vec::new();
    for ix in 0..count
        invariant
            files@.len() == ix,
            forall|k: int|
                0 <= k < ix ==> {
                    let file = #[trigger] files@[k];
                    &&& file.id@ == folder@ + "/"@ + generated_name(k as nat)
                    &&& file.label@ == generated_name(k as nat)
                    &&& file.icon == ItemKind::File
                    &&& !file.expanded
                    &&& file.children@.len() == 0
                },
    {
        let mut name = "item_".to_owned();
        name.append(format_zero_padded(ix, 3).as_str());
        name.append(".rs");
        let mut id = folder.to_owned();
        id.append("/");
        id.append(name.as_str());
        assert(id@ =~= folder@ + "/"@ + generated_name(ix as nat));
        files.push(Item::file(id.as_str(), name.as_str()));
    }
    files
}

/// Items without children lie one level deep.
proof fn lemma_leaves_nesting(items: Seq<Item>)
    requires
        items.len() > 0,
        forall|k: int| 0 <= k < items.len() ==> (#[trigger] items[k]).children@.len() == 0,
    ensures
        nesting(items) == 1,
    decreases items.len(),
{
    let last = items.last();
    assert(last.children@.len() == 0);
    assert(last.children@ =~= Seq::<Item>::empty());
    assert(item_nesting(last) == 1);
    if items.len() > 1 {
        assert forall|k: int| 0 <= k < items.drop_last().len() implies (#[trigger] items.drop_last()[k]).children@.len()
            == 0 by {
            assert(items.drop_last()[k] == items[k]);
        }
        lemma_leaves_nesting(items.drop_last());
    } else {
        assert(items.drop_last() =~= Seq::<Item>::empty());
    }
}

/// A file without children that starts collapsed.
pub open spec fn file_view(id: Seq<char>, label: Seq<char>) -> ItemView {
    ItemView { id, label, icon: ItemKind::File, expanded: false, children: Seq::empty() }
}

/// A folder with the given children.
pub open spec fn folder_view(id: Seq<char>, label: Seq<char>, expanded: bool, children: Seq<ItemView>) -> ItemView {
    ItemView { id, label, icon: ItemKind::Folder, expanded, children }
}

/// The generated files numbered from zero below `count`, in the folder `folder`.
pub open spec fn generated_views(folder: Seq<char>, count: nat) -> Seq<ItemView> {
    Seq::new(
        count,
        |ix: int| file_view(folder + "/"@ + generated_name(ix as nat), generated_name(ix as nat)),
    )
}

/// The `src` folder of the demo's `app` crate.
pub open spec fn app_src_model() -> ItemView {
    folder_view(
        "gpui-template/crates/app/src"@,
        "src"@,
        true,
        Seq::empty().push(
            folder_view(
                "gpui-template/crates/app/src/error"@,
                "error"@,
                false,
                Seq::empty().push(
                    file_view("gpui-template/crates/app/src/error/mod.rs"@, "mod.rs"@),
                ).push(file_view("gpui-template/crates/app/src/error/app_error.rs"@, "app_error.rs"@)),
            ),
        ).push(
            folder_view(
                "gpui-template/crates/app/src/theme"@,
                "theme"@,
                false,
                Seq::empty().push(file_view("gpui-template/crates/app/src/theme/mod.rs"@, "mod.rs"@)),
            ),
        ).push(
            folder_view(
                "gpui-template/crates/app/src/windows"@,
                "windows"@,
                false,
                Seq::empty().push(
                    file_view("gpui-template/crates/app/src/windows/main_window.rs"@, "main_window.rs"@),
                ),
            ),
        ).push(file_view("gpui-template/crates/app/src/main.rs"@, "main.rs"@)),
    )
}

/// The `crates` folder of the demo tree.
pub open spec fn crates_model() -> ItemView {
    folder_view(
        "gpui-template/crates"@,
        "crates"@,
        true,
        Seq::empty().push(
            folder_view(
                "gpui-template/crates/app"@,
                "app"@,
                true,
                Seq::empty().push(app_src_model()).push(
                    file_view("gpui-template/crates/app/Cargo.toml"@, "Cargo.toml"@),
                ),
            ),
        ).push(
            folder_view(
                "gpui-template/crates/components"@,
                "components"@,
                true,
                Seq::empty().push(
                    folder_view(
                        "gpui-template/crates/components/tree-view"@,
                        "tree-view"@,
                        true,
                        Seq::empty().push(
                            file_view("gpui-template/crates/components/tree-view/src/lib.rs"@, "lib.rs"@),
                        ).push(
                            file_view("gpui-template/crates/components/tree-view/Cargo.toml"@, "Cargo.toml"@),
                        ),
                    ),
                ),
            ),
        ).push(
            folder_view(
                "gpui-template/crates/tree-view-app"@,
                "tree-view-app"@,
                true,
                Seq::empty().push(
                    file_view("gpui-template/crates/tree-view-app/src/main.rs"@, "main.rs"@),
                ).push(file_view("gpui-template/crates/tree-view-app/Cargo.toml"@, "Cargo.toml"@)),
            ),
        ),
    )
}

/// The tree that the tree view demo shows: one expanded root with the
/// project's folders and files, in this order, whose last child is an
/// expanded folder of three hundred generated files.
pub open spec fn sample_tree_model() -> Seq<ItemView> {
    Seq::empty().push(
        folder_view(
            "gpui-template"@,
            "gpui-template"@,
            true,
            Seq::empty().push(
                folder_view(
                    "gpui-template/.agents"@,
                    ".agents"@,
                    false,
                    Seq::empty().push(file_view("gpui-template/.agents/config.toml"@, "config.toml"@)),
                ),
            ).push(
                folder_view(
                    "gpui-template/.cargo"@,
                    ".cargo"@,
                    true,
                    Seq::empty().push(file_view("gpui-template/.cargo/config.toml"@, "config.toml"@)),
                ),
            ).push(crates_model()).push(
                folder_view("gpui-template/docs"@, "docs"@, false, Seq::empty()),
            ).push(folder_view("gpui-template/themes"@, "themes"@, false, Seq::empty())).push(
                file_view("gpui-template/.gitignore"@, ".gitignore"@),
            ).push(file_view("gpui-template/Cargo.lock"@, "Cargo.lock"@)).push(
                file_view("gpui-template/Cargo.toml"@, "Cargo.toml"@),
            ).push(file_view("gpui-template/README.md"@, "README.md"@)).push(
                folder_view(
                    "gpui-template/generated"@,
                    "generated"@,
                    true,
                    generated_views("gpui-template/generated"@, 300),
                ),
            ),
        ),
    )
}

/// The folder of `count` generated files below `parent`, expanded.
fn generated_folder(parent: &str, count: u32) -> (folder: Item)
    requires
        count > 0,
    ensures
        item_nesting(folder) == 2,
        item_view(folder) == folder_view(
            parent@ + "/generated"@,
            "generated"@,
            true,
            generated_views(parent@ + "/generated"@, count as nat),
        ),
{
    let mut id = parent.to_owned();
    id.append("/generated");
    let files = generated_files(id.as_str(), count);
    let folder = Item::folder(id.as_str(), "generated").expanded(true).children(files);
    proof {
        assert(folder.children@ =~= files@);
        assert forall|k: int| 0 <= k < files@.len() implies (#[trigger] files@[k]).children@.len() == 0 by {}
        lemma_leaves_nesting(files@);
        lemma_items_view_index(files@);
        let views = generated_views(id@, count as nat);
        assert forall|k: int| 0 <= k < count implies #[trigger] items_view(files@)[k] == views[k] by {
            let file = files@[k];
            assert(file.children@ =~= Seq::<Item>::empty());
            assert(items_view(file.children@) =~= Seq::<ItemView>::empty());
        }
        assert(items_view(files@) =~= views);
        assert(Seq::<ItemView>::empty() + views =~= views);
    }
    folder
}

/// The tree that the tree view demo shows: one expanded root with the
/// project's folders and files, six levels deep, whose last child is an
/// expanded folder of three hundred generated files.
pub fn sample_tree() -> (roots: Vec<Item>)
    ensures
        items_view(roots@) == sample_tree_model(),
        nesting(roots@) == 6,
{
    let error = Item::folder("gpui-template/crates/app/src/error", "error")
        .child(Item::file("gpui-template/crates/app/src/error/mod.rs", "mod.rs"))
        .child(Item::file("gpui-template/crates/app/src/error/app_error.rs", "app_error.rs"));
    let theme = Item::folder("gpui-template/crates/app/src/theme", "theme")
        .child(Item::file("gpui-template/crates/app/src/theme/mod.rs", "mod.rs"));
    let windows = Item::folder("gpui-template/crates/app/src/windows", "windows")
        .child(Item::file("gpui-template/crates/app/src/windows/main_window.rs", "main_window.rs"));
    let app_src = Item::folder("gpui-template/crates/app/src", "src")
        .expanded(true)
        .child(error)
        .child(theme)
        .child(windows)
        .child(Item::file("gpui-template/crates/app/src/main.rs", "main.rs"));
    assert(item_view(app_src) == app_src_model());
    let app = Item::folder("gpui-template/crates/app", "app")
        .expanded(true)
        .child(app_src)
        .child(Item::file("gpui-template/crates/app/Cargo.toml", "Cargo.toml"));
    let tree_view = Item::folder("gpui-template/crates/components/tree-view", "tree-view")
        .expanded(true)
        .child(Item::file("gpui-template/crates/components/tree-view/src/lib.rs", "lib.rs"))
        .child(Item::file("gpui-template/crates/components/tree-view/Cargo.toml", "Cargo.toml"));
    let components = Item::folder("gpui-template/crates/components", "components")
        .expanded(true)
        .child(tree_view);
    let tree_view_app = Item::folder("gpui-template/crates/tree-view-app", "tree-view-app")
        .expanded(true)
        .child(Item::file("gpui-template/crates/tree-view-app/src/main.rs", "main.rs"))
        .child(Item::file("gpui-template/crates/tree-view-app/Cargo.toml", "Cargo.toml"));
    let crates = Item::folder("gpui-template/crates", "crates")
        .expanded(true)
        .child(app)
        .child(components)
        .child(tree_view_app);
    assert(item_view(crates) == crates_model());
    let agents = Item::folder("gpui-template/.agents", ".agents")
        .child(Item::file("gpui-template/.agents/config.toml", "config.toml"));
    let cargo = Item::folder("gpui-template/.cargo", ".cargo")
        .expanded(true)
        .child(Item::file("gpui-template/.cargo/config.toml", "config.toml"));
    let generated = generated_folder("gpui-template", 300);
    proof {
        reveal_strlit("gpui-template");
        reveal_strlit("/generated");
        reveal_strlit("gpui-template/generated");
        assert("gpui-template"@ + "/generated"@ =~= "gpui-template/generated"@);
        assert(item_view(generated) == folder_view(
            "gpui-template/generated"@,
            "generated"@,
            true,
            generated_views("gpui-template/generated"@, 300),
        ));
    }
    let root = Item::folder("gpui-template", "gpui-template")
        .expanded(true)
        .child(agents)
        .child(cargo)
        .child(crates)
        .child(Item::folder("gpui-template/docs", "docs"))
        .child(Item::folder("gpui-template/themes", "themes"))
        .child(Item::file("gpui-template/.gitignore", ".gitignore"))
        .child(Item::file("gpui-template/Cargo.lock", "Cargo.lock"))
        .child(Item::file("gpui-template/Cargo.toml", "Cargo.toml"))
        .child(Item::file("gpui-template/README.md", "README.md"))
        .child(generated);
    assert(item_nesting(crates) == 5);
    assert(item_nesting(root) == 6);
    let mut roots: Vec<Item> = Vec::new();
    roots.push(root);
    proof {
        assert(roots@.drop_last() =~= Seq::<Item>::empty());
        assert(nesting(roots@.drop_last()) == 0);
        assert(roots@.last() == root);
        assert(items_view(roots@.drop_last()) =~= Seq::<ItemView>::empty());
        assert(items_view(roots@) =~= Seq::empty().push(item_view(root)));
    }
    roots
}

} // verus!
