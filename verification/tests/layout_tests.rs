use tontoo_ui::input::Key;
use tontoo_ui::sheet::{BasicSheet, SheetSize, SheetState};
use tontoo_ui::sidebar::{Sidebar, SidebarButton, SidebarItem, TrafficAction};
use tontoo_ui::stepper::{StepperOrientation, StepperSide};

fn bar() -> Sidebar<&'static str> {
    Sidebar::new(vec![SidebarItem::new("General", "gear"), SidebarItem::new("Security", "lock.fill")])
        .page("General page")
        .page("Security page")
}

fn toolbar_click(bar: &mut Sidebar<&'static str>, button: SidebarButton) -> tontoo_ui::sidebar::SidebarEvent {
    bar.mouse_down(Some(button), None);
    bar.mouse_up(Some(button))
}

#[test]
fn select_switches_and_fires_on_change() {
    let mut seen: Option<usize> = None;
    let mut bar = bar();
    assert_eq!(bar.selected_index(), 0);
    let before = bar.selected_index();
    assert!(bar.select(1));
    if bar.selected_index() != before {
        seen = Some(bar.selected_index());
    }
    assert_eq!(bar.selected_index(), 1);
    assert_eq!(seen, Some(1));
    assert!(!bar.select(9));
    assert_eq!(bar.selected_index(), 1);
}

#[test]
fn item_click_selects() {
    let mut bar = bar();
    // Second item row under the pointer.
    assert_eq!(bar.mouse_down(None, Some(1)), Some(1));
    assert_eq!(bar.selected_index(), 1);
}

#[test]
fn toggle_button_collapses_and_reopens() {
    let mut bar = bar();
    assert!(!bar.is_collapsed());
    toolbar_click(&mut bar, SidebarButton::Toggle);
    assert!(bar.is_collapsed());
    toolbar_click(&mut bar, SidebarButton::Toggle);
    assert!(!bar.is_collapsed());
}

#[test]
fn collapse_button_collapses() {
    let mut bar = bar();
    let event = toolbar_click(&mut bar, SidebarButton::Collapse);
    assert!(bar.is_collapsed());
    assert_eq!(event.collapsed, Some(true));
}

#[test]
fn back_button_fires_when_shown() {
    let mut count = 0;
    let mut bar = bar();
    if toolbar_click(&mut bar, SidebarButton::Back).back {
        count += 1;
    }
    assert_eq!(count, 1);
    // Hidden back never fires.
    let mut hidden: Sidebar<&'static str> = Sidebar::new(vec![SidebarItem::new("G", "gear")]).back_button(false);
    if toolbar_click(&mut hidden, SidebarButton::Back).back {
        count += 1;
    }
    assert_eq!(count, 1);
}

#[test]
fn traffic_press_maps_lights() {
    let bar = bar();
    assert_eq!(bar.press(Some(0)), Some(TrafficAction::Close));
    assert_eq!(bar.press(Some(1)), Some(TrafficAction::Minimize));
    assert_eq!(bar.press(Some(2)), Some(TrafficAction::Maximize));
    assert_eq!(bar.press(None), None);
}

#[test]
fn missing_page_stays_empty() {
    let mut bar: Sidebar<&'static str> = Sidebar::new(vec![SidebarItem::new("Solo", "gear")]);
    assert!(bar.active_page().is_none());
    assert!(bar.select(0));
}

#[test]
fn sidebar_pages_titles_and_drags() {
    let mut bar = bar();
    assert_eq!(bar.active_page(), Some(&"General page"));
    bar.select(1);
    assert_eq!(bar.active_page(), Some(&"Security page"));
    assert_eq!(bar.effective_title(), "Security");
    bar.set_title("Settings");
    assert_eq!(bar.effective_title(), "Settings");
    bar.clear_title();
    assert_eq!(bar.effective_title(), "Security");
    // A drag from toggle to collapse flips nothing.
    bar.mouse_down(Some(SidebarButton::Toggle), None);
    let event = bar.mouse_up(Some(SidebarButton::Collapse));
    assert_eq!(event.collapsed, None);
    assert!(!bar.is_collapsed());
    // Collapsed: no traffic lights, no item rows.
    bar.set_collapsed(true);
    assert_eq!(bar.press(Some(0)), None);
    assert_eq!(bar.mouse_down(None, Some(0)), None);
    assert_eq!(bar.selected_index(), 1);
    let empty: Sidebar<&'static str> = Sidebar::default();
    assert_eq!(empty.effective_title(), "");
    assert!(empty.is_empty());
    let mut item = SidebarItem::new("Old", "gear");
    item.set_label("New");
    assert_eq!((item.label(), item.icon()), ("New", "gear"));
}

#[test]
fn fractions_match_quarters() {
    assert_eq!(SheetSize::Small.quarters(), None);
    assert_eq!(SheetSize::Quarter.quarters(), Some(1));
    assert_eq!(SheetSize::Half.quarters(), Some(2));
    assert_eq!(SheetSize::Large.quarters(), Some(3));
    assert_eq!(SheetSize::default(), SheetSize::Small);
}

#[test]
fn hidden_sheet_ignores_keys_and_clicks() {
    let mut sheet = BasicSheet::new("This is a sheet!");
    assert!(!sheet.key(Key::Escape));
    assert!(!sheet.is_visible());
    assert!(!sheet.mouse_down());
    assert!(!sheet.mouse_up());
    assert!(!sheet.is_visible());
}

#[test]
fn escape_dismisses_visible_sheet() {
    let mut sheet = BasicSheet::new("This is a sheet!");
    sheet.show();
    assert!(sheet.key(Key::Escape));
    assert!(!sheet.key(Key::Enter));
}

#[test]
fn sheet_fades_in_and_out() {
    let mut sheet = BasicSheet::new(7u32).size(SheetSize::Half);
    assert_eq!(sheet.card_size(), SheetSize::Half);
    sheet.show();
    assert_eq!(sheet.state(), SheetState::Opening);
    assert!(sheet.is_visible() && !sheet.is_open());
    assert!(!sheet.mouse_down());
    sheet.fade_finished();
    assert!(sheet.is_open());
    assert!(sheet.mouse_down() && sheet.mouse_up());
    sheet.dismiss();
    assert_eq!(sheet.state(), SheetState::Closing);
    sheet.fade_finished();
    assert_eq!(sheet.state(), SheetState::Hidden);
    sheet.dismiss();
    assert_eq!(sheet.state(), SheetState::Hidden);
    *sheet.child_mut() += 1;
    assert_eq!(*sheet.child(), 8);
}

#[test]
fn stepper_halves_map_to_sides() {
    assert_eq!(StepperOrientation::default(), StepperOrientation::Vertical);
    assert_eq!(StepperSide::of_half(StepperOrientation::Vertical, true), StepperSide::Increment);
    assert_eq!(StepperSide::of_half(StepperOrientation::Vertical, false), StepperSide::Decrement);
    assert_eq!(StepperSide::of_half(StepperOrientation::Horizontal, true), StepperSide::Decrement);
    assert_eq!(StepperSide::of_half(StepperOrientation::Horizontal, false), StepperSide::Increment);
}
