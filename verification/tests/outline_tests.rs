use tontoo_ui::outline::{BasicOutlineGroup, OutlineIcon, OutlineNode};

fn tree() -> BasicOutlineGroup {
    BasicOutlineGroup::new(vec![
        OutlineNode::folder("Documents")
            .expanded(true)
            .child(OutlineNode::file("Resume.pdf"))
            .child(
                OutlineNode::folder("Projects")
                    .expanded(true)
                    .child(OutlineNode::file("App.swift"))
                    .child(OutlineNode::file("Notes.txt")),
            ),
        OutlineNode::folder("Downloads"),
        OutlineNode::file("README.md"),
    ])
}

// A press on visible row `row` (rows stack from the top at rest); a
// press below the last row hits nothing.
fn press_row(group: &mut BasicOutlineGroup, row: usize) {
    let rows = group.visible_rows();
    let path = rows.get(row).cloned();
    group.click(path);
}

#[test]
fn toggle_fires_callback_set_expanded_does_not() {
    let mut fires: Vec<(Vec<usize>, bool)> = Vec::new();
    let mut group = tree();
    if group.toggle(vec![0]) {
        fires.push((vec![0], group.is_expanded(&[0])));
    }
    assert_eq!(fires, vec![(vec![0], false)]);
    fires.clear();
    // Programmatic open: done, but no callback.
    assert!(group.set_expanded(&[0], true));
    assert_eq!(fires, vec![]);
    assert!(group.is_expanded(&[0]));
}

#[test]
fn files_and_unknown_paths_never_toggle() {
    let mut group = tree();
    assert!(!group.toggle(vec![2]));
    assert!(!group.toggle(vec![9]));
    assert!(!group.set_expanded(&[2], true));
}

#[test]
fn click_selects_and_folder_click_toggles() {
    let mut group = tree();
    // File row: Resume.pdf is the second visible row.
    press_row(&mut group, 1);
    assert_eq!(group.selected_path(), Some(vec![0, 0]));
    // Projects header toggles closed and selects.
    press_row(&mut group, 2);
    assert_eq!(group.selected_path(), Some(vec![0, 1]));
    assert!(!group.is_expanded(&[0, 1]));
}

#[test]
fn select_programmatic_and_clear_fire() {
    let mut seen: Vec<Vec<usize>> = Vec::new();
    let mut group = tree();
    let before = group.selected_path();
    assert!(group.select(vec![0, 1, 0]));
    if group.selected_path() != before {
        seen.push(vec![0, 1, 0]);
    }
    assert_eq!(group.selected_path(), Some(vec![0, 1, 0]));
    assert!(!group.select(vec![5]));
    let had = group.selected_path().is_some();
    group.clear_selection();
    if had {
        seen.push(Vec::new());
    }
    assert_eq!(group.selected_path(), None);
    assert_eq!(seen, vec![vec![0, 1, 0], vec![]]);
}

#[test]
fn expand_and_collapse_all_snap_instantly() {
    let mut group = tree();
    group.collapse_all();
    assert!(!group.is_expanded(&[0]));
    assert_eq!(group.visible_rows().len(), 3);
    group.expand_all();
    assert!(group.is_expanded(&[0, 1]));
    // 3 roots plus Resume, Projects, App and Notes: 7 rows.
    assert_eq!(group.visible_rows().len(), 7);
}

#[test]
fn disabled_group_ignores_clicks() {
    let mut group =
        BasicOutlineGroup::new(vec![OutlineNode::folder("D").child(OutlineNode::file("f"))]).disabled(true);
    press_row(&mut group, 0);
    assert_eq!(group.selected_path(), None);
    assert!(!group.is_expanded(&[0]));
}

#[test]
fn unselectable_group_still_toggles() {
    let mut group =
        BasicOutlineGroup::new(vec![OutlineNode::folder("D").child(OutlineNode::file("f"))]).selectable(false);
    press_row(&mut group, 0);
    assert_eq!(group.selected_path(), None);
    assert!(group.is_expanded(&[0]));
}

#[test]
fn miss_click_keeps_selection() {
    let mut group = tree();
    press_row(&mut group, 1);
    assert_eq!(group.selected_path(), Some(vec![0, 0]));
    press_row(&mut group, 40);
    assert_eq!(group.selected_path(), Some(vec![0, 0]));
}

#[test]
fn visible_rows_list_open_branches_top_down() {
    let group = tree();
    assert_eq!(
        group.visible_rows(),
        vec![vec![0], vec![0, 0], vec![0, 1], vec![0, 1, 0], vec![0, 1, 1], vec![1], vec![2]]
    );
    let mut closed = tree();
    assert!(closed.toggle(vec![0, 1]));
    assert_eq!(closed.visible_rows(), vec![vec![0], vec![0, 0], vec![0, 1], vec![1], vec![2]]);
    assert!(closed.toggle(vec![0, 1]));
    assert_eq!(closed.visible_rows(), group.visible_rows());
}

#[test]
fn icons_resolve_symbols() {
    assert_eq!(OutlineIcon::Folder.symbol(), "folder.fill");
    assert_eq!(OutlineIcon::File.symbol(), "doc");
    assert_eq!(OutlineIcon::Symbol("tag".to_string()).symbol(), "tag");
    let node = OutlineNode::folder("Tags").icon("tag");
    assert_eq!(node.icon_kind().symbol(), "tag");
    assert!(node.is_folder());
    assert!(!OutlineNode::file("a").is_folder());
}

#[test]
fn expanded_builder_waits_for_children() {
    // Builder order does not matter: children added later open the node.
    let node = OutlineNode::folder("A").expanded(true);
    assert!(!node.is_expanded());
    let node = node.child(OutlineNode::file("x"));
    assert!(node.is_expanded());
    assert_eq!(node.child_count(), 1);
    assert_eq!(node.child_node(0).map(|c| c.label()), Some("x"));
    assert!(node.child_node(1).is_none());
    let many = OutlineNode::folder("B").children(vec![OutlineNode::file("y"), OutlineNode::file("z")]);
    assert!(!many.is_expanded());
    assert_eq!(many.child_count(), 2);
    // A childless folder never expands.
    assert!(!OutlineNode::folder("C").expanded(true).is_expanded());
}

#[test]
fn toggle_twice_restores_and_set_all_overrides() {
    let mut group = tree();
    let before = group.visible_rows();
    group.toggle(vec![0]);
    group.toggle(vec![0]);
    assert_eq!(group.visible_rows(), before);
    group.expand_all();
    group.collapse_all();
    group.expand_all();
    assert!(group.is_expanded(&[0]) && group.is_expanded(&[0, 1]));
    assert!(!group.is_expanded(&[1]));
    assert!(!group.is_expanded(&[2]));
    let mut label = tree();
    assert_eq!(label.node(&[0, 1]).map(|n| n.label()), Some("Projects"));
    assert!(label.node(&[]).is_none());
    label.clear_selection();
    assert_eq!(label.selected_path(), None);
}

#[test]
fn click_outcome_reports_selection_and_toggle() {
    let mut group = tree();
    let out = group.click(Some(vec![0]));
    assert!(out.selection_changed);
    assert_eq!(out.toggled, Some(false));
    let again = group.click(Some(vec![0]));
    assert!(!again.selection_changed);
    assert_eq!(again.toggled, Some(true));
    let file = group.click(Some(vec![2]));
    assert!(file.selection_changed);
    assert_eq!(file.toggled, None);
    let miss = group.click(None);
    assert!(!miss.selection_changed && miss.toggled.is_none());
}

#[test]
fn click_on_unknown_path_does_nothing() {
    let mut group = tree();
    let out = group.click(Some(vec![7, 1]));
    assert!(!out.selection_changed && out.toggled.is_none());
    assert_eq!(group.selected_path(), None);
}
