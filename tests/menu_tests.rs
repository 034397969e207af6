use flack::menu::{
    build_app_group, build_app_menu, build_edit_group, build_window_group, MenuAction, MenuItem,
};

fn shape(items: &[MenuItem]) -> Vec<Option<(MenuAction, String)>> {
    items
        .iter()
        .map(|i| match i {
            MenuItem::Action { kind, label } => Some((*kind, label.clone().unwrap_or_default())),
            MenuItem::Separator => None,
        })
        .collect()
}

fn a(kind: MenuAction, label: &str) -> Option<(MenuAction, String)> {
    Some((kind, label.to_string()))
}

#[test]
fn menu_build_is_deterministic() {
    let first = build_app_menu();
    let second = build_app_menu();
    assert_eq!(first, second);
    assert_eq!(first.groups.len(), 3);
}

#[test]
fn menu_groups_in_order() {
    let m = build_app_menu();
    let labels: Vec<&str> = m.groups.iter().map(|g| g.label.as_str()).collect();
    assert_eq!(labels, vec!["Flack", "Edit", "Window"]);
    assert_eq!(m.groups[0], build_app_group());
    assert_eq!(m.groups[1], build_edit_group());
    assert_eq!(m.groups[2], build_window_group());
}

#[test]
fn app_group_items() {
    let g = build_app_group();
    assert_eq!(
        shape(&g.items),
        vec![a(MenuAction::About, "About Flack"), None, a(MenuAction::Quit, "Quit Flack")]
    );
}

#[test]
fn edit_group_items() {
    let g = build_edit_group();
    assert_eq!(
        shape(&g.items),
        vec![
            a(MenuAction::Undo, "Undo"),
            a(MenuAction::Redo, "Redo"),
            None,
            a(MenuAction::Cut, "Cut"),
            a(MenuAction::Copy, "Copy"),
            a(MenuAction::Paste, "Paste"),
            a(MenuAction::SelectAll, "Select All"),
        ]
    );
}

#[test]
fn window_group_items() {
    let g = build_window_group();
    assert_eq!(
        shape(&g.items),
        vec![
            a(MenuAction::Minimize, "Minimize"),
            a(MenuAction::Maximize, "Zoom"),
            None,
            a(MenuAction::Close, "Close"),
        ]
    );
}

#[test]
fn every_action_label_is_given() {
    let m = build_app_menu();
    for g in &m.groups {
        for i in &g.items {
            if let MenuItem::Action { label, .. } = i {
                assert!(label.is_some());
            }
        }
    }
}
