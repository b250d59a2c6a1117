use tontoo_ui::inline_picker::InlinePicker;
use tontoo_ui::menu_picker::MenuPicker;
use tontoo_ui::segmented_picker::SegmentedPicker;

fn inline_picker() -> InlinePicker {
    InlinePicker::from_slice("Size", &["Small", "Medium", "Large", "Extra Large"])
}

fn segmented_picker() -> SegmentedPicker {
    SegmentedPicker::from_slice("Options", &["One", "Two", "Three"])
}

fn menu_picker() -> MenuPicker {
    MenuPicker::from_slice("Color", &["Red", "Green", "Blue", "Yellow", "Purple"])
}

// Menu picker clicks: the pointer is on the button or on a panel row.
fn button_click(p: &mut MenuPicker) -> bool {
    p.mouse_down(true, None);
    p.mouse_up(true, None)
}

fn row_click(p: &mut MenuPicker, row: usize) -> bool {
    p.mouse_down(false, Some(row));
    p.mouse_up(false, Some(row))
}

#[test]
fn defaults_to_first_option() {
    let p = inline_picker();
    assert_eq!(p.selected_index(), 0);
    assert_eq!(p.selected_label(), Some("Small"));
}

#[test]
fn click_selects_row_on_release_inside() {
    let mut p = inline_picker();
    assert_eq!(p.len(), 4);
    assert!(!p.is_empty());
    // Release without press does nothing.
    p.mouse_up(None);
    assert_eq!(p.selected_index(), 0);
    // Press and release inside the third row selects it (and the dot
    // animates: the release reports a change).
    p.mouse_down(Some(2));
    assert!(p.mouse_up(Some(2)));
    assert_eq!(p.selected_index(), 2);
    assert_eq!(p.selected_label(), Some("Large"));
    // Press inside, release outside keeps the selection.
    p.mouse_down(Some(2));
    p.mouse_up(None);
    assert_eq!(p.selected_index(), 2);
}

#[test]
fn gap_between_rows_is_not_clickable() {
    let mut p = inline_picker();
    // The gap between rows is no row.
    p.mouse_down(None);
    p.mouse_up(None);
    assert_eq!(p.selected_index(), 0);
}

#[test]
fn inline_select_fires_callback_only_on_change() {
    let mut fires = 0;
    let mut p = inline_picker();
    if p.select(0) {
        fires += 1;
    }
    assert_eq!(fires, 0);
    if p.select(3) {
        fires += 1;
    }
    assert_eq!(p.selected_index(), 3);
    assert_eq!(p.selected_label(), Some("Extra Large"));
    assert_eq!(fires, 1);
}

#[test]
fn inline_set_selected_is_immediate_and_clamped() {
    let mut p = inline_picker();
    assert!(p.set_selected(99));
    assert_eq!(p.selected_index(), 3);
}

#[test]
fn inline_empty_options_never_selects() {
    let mut p = InlinePicker::new("Size", Vec::new());
    p.mouse_down(Some(0));
    p.mouse_up(Some(0));
    assert_eq!(p.selected_label(), None);
}

#[test]
fn defaults_to_first_segment() {
    let p = segmented_picker();
    assert_eq!(p.selected_index(), 0);
    assert_eq!(p.selected_label(), Some("One"));
}

#[test]
fn click_selects_segment_on_release_inside() {
    let mut p = segmented_picker();
    assert!(!p.is_empty());
    assert_eq!(p.len(), 3);
    p.mouse_up(None);
    assert_eq!(p.selected_index(), 0);
    p.mouse_down(Some(2));
    assert_eq!(p.pressed(), Some(2));
    p.mouse_up(Some(2));
    assert_eq!(p.selected_index(), 2);
    assert_eq!(p.selected_label(), Some("Three"));
    assert_eq!(p.pressed(), None);
    p.mouse_down(Some(2));
    p.mouse_up(None);
    assert_eq!(p.selected_index(), 2);
}

#[test]
fn hold_highlight_follows_pointer_and_has_no_hover() {
    let mut p = segmented_picker();
    p.mouse_move(Some(1));
    assert_eq!(p.pressed(), None);
    p.mouse_down(Some(1));
    assert_eq!(p.pressed(), Some(1));
    p.mouse_move(Some(2));
    assert_eq!(p.pressed(), Some(2));
    p.mouse_up(Some(2));
    assert_eq!(p.selected_index(), 2);
}

#[test]
fn segmented_select_fires_callback_only_on_change() {
    let mut fires = 0;
    let mut p = segmented_picker();
    if p.select(0) {
        fires += 1;
    }
    assert_eq!(fires, 0);
    if p.select(1) {
        fires += 1;
    }
    assert_eq!(p.selected_index(), 1);
    assert_eq!(fires, 1);
}

#[test]
fn segmented_set_selected_is_immediate_and_clamped() {
    let mut p = segmented_picker();
    p.set_selected(99);
    assert_eq!(p.selected_index(), 2);
    assert_eq!(p.selected_label(), Some("Three"));
}

#[test]
fn segmented_empty_options_never_selects() {
    let mut p = SegmentedPicker::new("Options", Vec::new());
    p.mouse_down(Some(0));
    p.mouse_up(Some(0));
    assert_eq!(p.selected_label(), None);
}

#[test]
fn defaults_to_first_option_closed() {
    let p = menu_picker();
    assert_eq!(p.selected_index(), 0);
    assert_eq!(p.selected_label(), Some("Red"));
    assert!(!p.is_open());
}

#[test]
fn click_button_opens_and_row_click_selects() {
    let mut p = menu_picker();
    assert_eq!(p.len(), 5);
    assert!(!p.is_empty());
    p.mouse_up(false, None);
    assert!(!p.is_open());
    button_click(&mut p);
    assert!(p.is_open());
    p.mouse_move(Some(2));
    assert_eq!(p.hovered(), Some(2));
    row_click(&mut p, 2);
    assert_eq!(p.selected_index(), 2);
    assert_eq!(p.selected_label(), Some("Blue"));
    assert!(!p.is_open());
    assert_eq!(p.button_text(), "Blue");
}

#[test]
fn reclick_same_value_fires_nothing() {
    let mut fires = 0;
    let mut p = menu_picker();
    button_click(&mut p);
    if row_click(&mut p, 0) {
        fires += 1;
    }
    assert_eq!(fires, 0);
    assert!(!p.is_open());
}

#[test]
fn outside_click_closes_without_selecting() {
    let mut p = menu_picker();
    button_click(&mut p);
    assert!(p.is_open());
    p.mouse_down(false, Some(3));
    p.mouse_up(false, None);
    assert!(!p.is_open());
    assert_eq!(p.selected_index(), 0);
}

#[test]
fn menu_select_fires_callback_only_on_change() {
    let mut fires = 0;
    let mut p = menu_picker();
    if p.select(0) {
        fires += 1;
    }
    assert_eq!(fires, 0);
    if p.select(4) {
        fires += 1;
    }
    assert_eq!(p.selected_index(), 4);
    assert_eq!(p.selected_label(), Some("Purple"));
    assert_eq!(fires, 1);
}

#[test]
fn menu_set_selected_is_immediate_and_clamped() {
    let mut p = menu_picker();
    p.set_selected(99);
    assert_eq!(p.selected_index(), 4);
    assert!(!p.is_open());
    assert_eq!(p.button_text(), "Purple");
}

#[test]
fn disabled_pickers_ignore_clicks() {
    let mut inline = inline_picker().disabled(true);
    inline.mouse_down(Some(1));
    assert!(!inline.mouse_up(Some(1)));
    assert_eq!(inline.selected_index(), 0);
    let mut seg = segmented_picker().disabled(true);
    seg.mouse_down(Some(1));
    assert_eq!(seg.pressed(), None);
    assert!(!seg.mouse_up(Some(1)));
    let mut menu = menu_picker().disabled(true);
    button_click(&mut menu);
    assert!(!menu.is_open());
}

#[test]
fn segment_columns_past_the_end_clamp_to_last() {
    let mut p = segmented_picker();
    p.mouse_down(Some(7));
    assert_eq!(p.pressed(), Some(2));
    assert!(p.mouse_up(Some(9)));
    assert_eq!(p.selected_index(), 2);
}

#[test]
fn builders_clamp_initial_selection() {
    assert_eq!(inline_picker().selected(10).selected_index(), 3);
    assert_eq!(segmented_picker().selected(1).selected_label(), Some("Two"));
    let p = menu_picker().selected(3);
    assert_eq!(p.selected_label(), Some("Yellow"));
    assert_eq!(p.button_text(), "Yellow");
    assert_eq!(InlinePicker::new("x", Vec::new()).selected(5).selected_index(), 0);
}

#[test]
fn release_on_other_row_selects_nothing() {
    let mut p = inline_picker();
    p.mouse_down(Some(1));
    assert!(!p.mouse_up(Some(2)));
    assert_eq!(p.selected_index(), 0);
    let mut m = menu_picker();
    button_click(&mut m);
    m.mouse_down(false, Some(1));
    assert!(!m.mouse_up(false, Some(2)));
    assert_eq!(m.selected_index(), 0);
    assert!(!m.is_open());
}
