use tontoo_ui::context_menu::{ContextKind, ContextMenu, TouchEvent, CONTEXT_LONG_PRESS_MILLIS};
use tontoo_ui::menu::{Menu, MenuChevron};
use tontoo_ui::menu_button::{ButtonZone, MenuButton};
use tontoo_ui::menu_picker::MenuPicker;
use tontoo_ui::nested_menu::{MenuItem, NestedMenu, PanelHit};

fn menu() -> Menu {
    Menu::from_slice("Options", &["Option 1", "Option 2", "Option 3"])
}

// Menu clicks: the pointer is on the button or on a panel row.
fn button_click(m: &mut Menu) -> Option<usize> {
    m.mouse_down(true, None);
    m.mouse_up(true, None)
}

fn row_click(m: &mut Menu, row: usize) -> Option<usize> {
    m.mouse_down(false, Some(row));
    m.mouse_up(false, Some(row))
}

fn share() -> NestedMenu {
    NestedMenu::new(
        "Share",
        vec![
            MenuItem::section("Choose destination"),
            MenuItem::submenu(
                "Messages",
                vec![MenuItem::action("John"), MenuItem::action("Jane"), MenuItem::action("Bob")],
            ),
            MenuItem::submenu("Social", vec![MenuItem::action("Post")]),
            MenuItem::divider(),
            MenuItem::action("More..."),
        ],
    )
}

fn files() -> NestedMenu {
    NestedMenu::new(
        "File",
        vec![
            MenuItem::section("File Operations"),
            MenuItem::action("New File"),
            MenuItem::action("Open File"),
            MenuItem::action("Save"),
            MenuItem::divider(),
            MenuItem::section("Edit Operations"),
            MenuItem::action("Undo"),
            MenuItem::action("Redo"),
        ],
    )
}

fn at(level: usize, item: usize) -> Option<PanelHit> {
    Some(PanelHit { level, item: Some(item) })
}

fn nested_button_click(m: &mut NestedMenu) -> Option<Vec<usize>> {
    m.mouse_down(true, None);
    m.mouse_up(true, None)
}

fn nested_click(m: &mut NestedMenu, hit: Option<PanelHit>) -> Option<Vec<usize>> {
    m.mouse_down(false, hit);
    m.mouse_up(false, hit)
}

fn split_button() -> MenuButton {
    MenuButton::from_slice("Menu Label", &["Edit", "Delete"])
}

#[test]
fn menu_button_text_stays_fixed() {
    let mut m = menu();
    assert_eq!(m.button_text(), "Options");
    button_click(&mut m);
    assert!(m.is_open());
    row_click(&mut m, 1);
    assert_eq!(m.button_text(), "Options");
    assert_eq!(m.last_action(), Some(1));
    assert!(!m.is_open());
}

#[test]
fn action_fires_every_click() {
    let mut fires = 0;
    let mut m = menu();
    if m.mouse_up(false, None).is_some() {
        fires += 1;
    }
    assert_eq!(fires, 0);
    button_click(&mut m);
    if row_click(&mut m, 0).is_some() {
        fires += 1;
    }
    assert_eq!(fires, 1);
    button_click(&mut m);
    if row_click(&mut m, 0).is_some() {
        fires += 1;
    }
    assert_eq!(fires, 2);
}

#[test]
fn menu_closed_button_has_no_hover() {
    let mut m = menu();
    m.mouse_move(Some(0));
    assert_eq!(m.hovered(), None);
    // The picker on the menu base: rows highlight once open.
    let mut p = MenuPicker::from_slice("Color", &["Red", "Green", "Blue", "Yellow", "Purple"]);
    p.mouse_move(Some(0));
    assert_eq!(p.hovered(), None);
    p.open();
    p.mouse_move(Some(1));
    assert_eq!(p.hovered(), Some(1));
}

#[test]
fn menu_outside_click_closes() {
    let mut m = menu();
    button_click(&mut m);
    assert!(m.is_open());
    m.mouse_down(false, None);
    m.mouse_up(false, None);
    assert!(!m.is_open());
    assert_eq!(m.last_action(), None);
}

#[test]
fn check_column_only_when_checked() {
    assert!(!menu().has_check_column());
    assert!(menu().checked(Some(0)).has_check_column());
}

#[test]
fn checked_row_marks_without_state() {
    let mut m = menu().checked(Some(2));
    assert_eq!(m.checked_row(), Some(2));
    m.set_checked(None);
    assert_eq!(m.checked_row(), None);
}

#[test]
fn menu_empty_options_never_open() {
    let mut m = Menu::new("Options", Vec::new());
    button_click(&mut m);
    assert!(!m.is_open());
    let mut p = MenuPicker::new("Color", Vec::new());
    p.mouse_down(true, None);
    p.mouse_up(true, None);
    assert!(!p.is_open());
    assert_eq!(p.selected_label(), None);
}

#[test]
fn anchor_floats_without_button() {
    let mut m = menu();
    // An anchored menu has no button: the pointer is never on it.
    m.mouse_down(false, None);
    m.mouse_up(false, None);
    assert!(!m.is_open());
    m.open();
    assert!(m.is_open());
}

#[test]
fn chevron_defaults_down() {
    assert_eq!(menu().chevron_style(), MenuChevron::Down);
    let both = menu().chevron(MenuChevron::Both);
    assert_eq!(both.chevron_style(), MenuChevron::Both);
    assert_eq!(MenuChevron::default(), MenuChevron::Down);
}

#[test]
fn nested_button_text_stays_fixed() {
    let mut m = share();
    assert_eq!(m.button_text(), "Share");
    nested_button_click(&mut m);
    assert!(m.is_open());
    assert_eq!(m.panel_count(), 1);
}

#[test]
fn hover_submenu_opens_child() {
    let mut m = share();
    nested_button_click(&mut m);
    m.mouse_move(at(0, 1));
    assert_eq!(m.panel_count(), 2);
    assert_eq!(m.open_path(), &vec![1]);
    assert_eq!(m.items_at(1).map(|v| v.len()), Some(3));
}

#[test]
fn submenu_action_fires_path() {
    let mut m = share();
    nested_button_click(&mut m);
    m.mouse_move(at(0, 1));
    let fired = nested_click(&mut m, at(1, 2));
    assert_eq!(fired, Some(vec![1, 2]));
    assert!(!m.is_open());
}

#[test]
fn sections_and_dividers_are_dead() {
    let mut m = files();
    nested_button_click(&mut m);
    m.mouse_move(at(0, 0));
    assert_eq!(m.hovered(), &vec![None]);
    nested_click(&mut m, at(0, 0));
    assert!(!m.is_open());
    assert_eq!(m.last_action(), None);
}

#[test]
fn nested_outside_click_closes() {
    let mut m = share();
    nested_button_click(&mut m);
    assert!(m.is_open());
    nested_click(&mut m, None);
    assert!(!m.is_open());
}

#[test]
fn empty_never_opens() {
    let mut m = NestedMenu::new("Empty", Vec::new());
    nested_button_click(&mut m);
    assert!(!m.is_open());
}

#[test]
fn main_click_presses_without_menu() {
    let mut presses = 0;
    let mut b = split_button();
    b.mouse_down(Some(ButtonZone::Main), None);
    if b.mouse_up(Some(ButtonZone::Main), None).pressed {
        presses += 1;
    }
    assert_eq!(presses, 1);
    assert!(!b.is_open());
}

#[test]
fn chevron_click_opens_and_row_fires() {
    let mut b = split_button();
    // Main press, chevron release: neither fires.
    b.mouse_down(Some(ButtonZone::Main), None);
    let e = b.mouse_up(Some(ButtonZone::Chevron), None);
    assert!(!e.pressed && e.action.is_none());
    assert!(!b.is_open());
    // Chevron click opens.
    b.mouse_down(Some(ButtonZone::Chevron), None);
    b.mouse_up(Some(ButtonZone::Chevron), None);
    assert!(b.is_open());
    // Row click fires the action and closes.
    b.mouse_down(None, Some(1));
    let e = b.mouse_up(None, Some(1));
    assert_eq!(e.action, Some(1));
    assert_eq!(b.last_action(), Some(1));
    assert!(!b.is_open());
}

#[test]
fn main_click_while_open_only_closes() {
    let mut presses = 0;
    let mut b = split_button();
    b.mouse_down(Some(ButtonZone::Chevron), None);
    b.mouse_up(Some(ButtonZone::Chevron), None);
    assert!(b.is_open());
    b.mouse_down(Some(ButtonZone::Main), None);
    if b.mouse_up(Some(ButtonZone::Main), None).pressed {
        presses += 1;
    }
    assert_eq!(presses, 0);
    assert!(!b.is_open());
}

#[test]
fn main_zone_hover_only_while_closed_and_enabled() {
    let mut b = split_button();
    b.mouse_move(Some(ButtonZone::Main), None);
    assert!(b.is_main_hovered());
    b.mouse_move(Some(ButtonZone::Chevron), None);
    assert!(!b.is_main_hovered());
    let mut off = split_button().disabled(true);
    off.mouse_move(Some(ButtonZone::Main), None);
    assert!(!off.is_main_hovered());
    off.mouse_down(Some(ButtonZone::Chevron), None);
    off.mouse_up(Some(ButtonZone::Chevron), None);
    assert!(!off.is_open());
    assert_eq!(split_button().len(), 2);
}

fn context_basic() -> ContextMenu {
    ContextMenu::basic(Menu::from_slice("Edit", &["Cut", "Copy", "Paste"]))
}

#[test]
fn right_click_inside_opens_at_point() {
    let mut ctx = context_basic();
    ctx.context_click(false);
    assert!(!ctx.is_open());
    ctx.context_click(true);
    assert!(ctx.is_open());
}

#[test]
fn long_press_opens_on_release() {
    let mut ctx = context_basic();
    ctx.touch(TouchEvent::Started { inside: true });
    // Held for 1.2 s, released inside.
    ctx.release_hold(1200, true, false);
    assert!(ctx.is_open());
}

#[test]
fn quick_tap_and_move_cancel() {
    let mut ctx = context_basic();
    ctx.touch(TouchEvent::Started { inside: true });
    ctx.touch(TouchEvent::Ended { inside: true, beyond_slop: false });
    assert!(!ctx.is_open());
    ctx.touch(TouchEvent::Started { inside: true });
    ctx.touch(TouchEvent::Moved { beyond_slop: true });
    ctx.touch(TouchEvent::Ended { inside: false, beyond_slop: true });
    assert!(!ctx.is_open());
}

#[test]
fn nested_kind_opens_too() {
    let mut ctx = ContextMenu::nested(NestedMenu::new(
        "Share",
        vec![MenuItem::action("Mail"), MenuItem::submenu("More", vec![MenuItem::action("SMS")])],
    ));
    ctx.context_click(true);
    assert!(ctx.is_open());
    ctx.close();
    assert!(!ctx.is_open());
}

#[test]
fn long_press_threshold_and_area() {
    let mut ctx = context_basic();
    ctx.release_hold(CONTEXT_LONG_PRESS_MILLIS - 1, true, false);
    assert!(!ctx.is_open());
    ctx.release_hold(CONTEXT_LONG_PRESS_MILLIS, false, false);
    assert!(!ctx.is_open());
    // A hold that strayed from where it went down opens nothing.
    ctx.release_hold(CONTEXT_LONG_PRESS_MILLIS, true, true);
    assert!(!ctx.is_open());
    ctx.release_hold(CONTEXT_LONG_PRESS_MILLIS, true, false);
    assert!(ctx.is_open());
    // A touch starting on an open menu holds nothing.
    ctx.touch(TouchEvent::Cancelled);
    assert!(ctx.is_open());
    match ctx.kind() {
        ContextKind::Basic(m) => assert_eq!(m.len(), 3),
        ContextKind::Nested(_) => panic!("basic menu expected"),
    }
}

#[test]
fn split_button_menu_starts_plain() {
    let mut b = split_button();
    assert!(!b.is_open());
    assert_eq!(b.last_action(), None);
    assert!(!b.is_main_hovered());
    b.mouse_down(Some(ButtonZone::Chevron), None);
    b.mouse_up(Some(ButtonZone::Chevron), None);
    b.mouse_move(None, Some(0));
    assert!(b.is_open());
}
