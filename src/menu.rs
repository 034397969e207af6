//! Declarative description of the application menu: groups of predefined
//! platform actions and separators, in display order.
use vstd::prelude::*;

verus! {

/// A menu action whose behaviour the host GUI framework supplies.
#[derive(Clone, Copy, Debug, PartialEq, Eq, Structural)]
pub enum MenuAction {
    About,
    Quit,
    Undo,
    Redo,
    Cut,
    Copy,
    Paste,
    SelectAll,
    Minimize,
    Maximize,
    Close,
}

/// One entry of a menu group.
#[derive(Clone, Debug, PartialEq, Eq)]
pub enum MenuItem {
    /// A predefined action, with an optional display label that overrides the
    /// framework's default text.
    Action { kind: MenuAction, label: Option<String> },
    Separator,
}

/// A labelled group of items, shown as one submenu.
#[derive(Clone, Debug, PartialEq, Eq)]
pub struct MenuGroup {
    pub label: String,
    pub items: Vec<MenuItem>,
}

/// The whole menu bar: its groups in display order.
#[derive(Clone, Debug, PartialEq, Eq)]
pub struct MenuTree {
    pub groups: Vec<MenuGroup>,
}

/// Mathematical model of a `MenuItem`.
pub enum MenuItemView {
    Action { kind: MenuAction, label: Option<Seq<char>> },
    Separator,
}

/// Mathematical model of a `MenuGroup`.
pub struct MenuGroupView {
    pub label: Seq<char>,
    pub items: Seq<MenuItemView>,
}

impl View for MenuItem {
    type V = MenuItemView;

    open spec fn view(&self) -> MenuItemView {
        match self {
            MenuItem::Action { kind, label } => MenuItemView::Action {
                kind: *kind,
                label: match label {
                    Some(s) => Some(s@),
                    None => None,
                },
            },
            MenuItem::Separator => MenuItemView::Separator,
        }
    }
}

impl View for MenuGroup {
    type V = MenuGroupView;

    open spec fn view(&self) -> MenuGroupView {
        MenuGroupView { label: self.label@, items: self.items@.map_values(|i: MenuItem| i@) }
    }
}

impl View for MenuTree {
    type V = Seq<MenuGroupView>;

    open spec fn view(&self) -> Seq<MenuGroupView> {
        self.groups@.map_values(|g: MenuGroup| g@)
    }
}

/// A predefined action shown under `label`.
pub open spec fn labelled(kind: MenuAction, label: Seq<char>) -> MenuItemView {
    MenuItemView::Action { kind, label: Some(label) }
}

/// The application group: About, a separator, Quit.
pub open spec fn app_group() -> MenuGroupView {
    MenuGroupView {
        label: "Flack"@,
        items: seq![
            labelled(MenuAction::About, "About Flack"@),
            MenuItemView::Separator,
            labelled(MenuAction::Quit, "Quit Flack"@),
        ],
    }
}

/// The edit group: Undo, Redo, a separator, then the clipboard actions.
pub open spec fn edit_group() -> MenuGroupView {
    MenuGroupView {
        label: "Edit"@,
        items: seq![
            labelled(MenuAction::Undo, "Undo"@),
            labelled(MenuAction::Redo, "Redo"@),
            MenuItemView::Separator,
            labelled(MenuAction::Cut, "Cut"@),
            labelled(MenuAction::Copy, "Copy"@),
            labelled(MenuAction::Paste, "Paste"@),
            labelled(MenuAction::SelectAll, "Select All"@),
        ],
    }
}

/// The window group: Minimize, Zoom, a separator, Close.
pub open spec fn window_group() -> MenuGroupView {
    MenuGroupView {
        label: "Window"@,
        items: seq![
            labelled(MenuAction::Minimize, "Minimize"@),
            labelled(MenuAction::Maximize, "Zoom"@),
            MenuItemView::Separator,
            labelled(MenuAction::Close, "Close"@),
        ],
    }
}

/// The application's menu bar.
pub open spec fn app_menu() -> Seq<MenuGroupView> {
    seq![app_group(), edit_group(), window_group()]
}

fn action(kind: MenuAction, label: &str) -> (item: MenuItem)
    ensures
        item@ == labelled(kind, label@),
{
    MenuItem::Action { kind, label: Some(label.to_string()) }
}

/// Builds the application group.
pub fn build_app_group() -> (g: MenuGroup)
    ensures
        g@ == app_group(),
{
    let items = vec![
        action(MenuAction::About, "About Flack"),
        MenuItem::Separator,
        action(MenuAction::Quit, "Quit Flack"),
    ];
    let g = MenuGroup { label: "Flack".to_string(), items };
    assert(g@.items =~= app_group().items);
    g
}

/// Builds the edit group.
pub fn build_edit_group() -> (g: MenuGroup)
    ensures
        g@ == edit_group(),
{
    let items = vec![
        action(MenuAction::Undo, "Undo"),
        action(MenuAction::Redo, "Redo"),
        MenuItem::Separator,
        action(MenuAction::Cut, "Cut"),
        action(MenuAction::Copy, "Copy"),
        action(MenuAction::Paste, "Paste"),
        action(MenuAction::SelectAll, "Select All"),
    ];
    let g = MenuGroup { label: "Edit".to_string(), items };
    assert(g@.items =~= edit_group().items);
    g
}

/// Builds the window group.
pub fn build_window_group() -> (g: MenuGroup)
    ensures
        g@ == window_group(),
{
    let items = vec![
        action(MenuAction::Minimize, "Minimize"),
        action(MenuAction::Maximize, "Zoom"),
        MenuItem::Separator,
        action(MenuAction::Close, "Close"),
    ];
    let g = MenuGroup { label: "Window".to_string(), items };
    assert(g@.items =~= window_group().items);
    g
}

/// Builds the application's menu bar. The result depends on nothing: every
/// call yields the same groups with the same items in the same order.
pub fn build_app_menu() -> (m: MenuTree)
    ensures
        m@ == app_menu(),
{
    let groups = vec![build_app_group(), build_edit_group(), build_window_group()];
    let m = MenuTree { groups };
    assert(m@ =~= app_menu());
    m
}

/// Building the menu twice gives structurally identical trees: the same
/// groups, with the same labels, and the same item kinds in the same order.
pub proof fn lemma_menu_build_deterministic(a: MenuTree, b: MenuTree)
    requires
        a@ == app_menu(),
        b@ == app_menu(),
    ensures
        a@ == b@,
        a.groups@.len() == b.groups@.len(),
        forall|i: int|
            0 <= i < a.groups@.len() ==> #[trigger] a.groups@[i]@ == b.groups@[i]@,
{
    assert(a@.len() == a.groups@.len());
    assert(b@.len() == b.groups@.len());
    assert forall|i: int| 0 <= i < a.groups@.len() implies #[trigger] a.groups@[i]@
        == b.groups@[i]@ by {
        assert(a@[i] == a.groups@[i]@);
        assert(b@[i] == b.groups@[i]@);
    }
}

} // verus!
