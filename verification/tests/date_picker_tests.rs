use tontoo_ui::decimal::decimal_text;
use tontoo_ui::calendar::{
    civil_from_days, civil_from_unix_seconds, days_from_civil, days_in_month, first_weekday, today,
};
use tontoo_ui::date_picker::{CalendarHit, DatePicker, HeaderZone, Popup, DATE_YEAR_MAX, DATE_YEAR_MIN};
use tontoo_ui::input::Key;

fn nothing() -> CalendarHit {
    CalendarHit { cell: None, nav: None, zone: None, row: None }
}

fn on_cell(cell: u32) -> CalendarHit {
    CalendarHit { cell: Some(cell), nav: None, zone: None, row: None }
}

fn on_zone(zone: HeaderZone) -> CalendarHit {
    CalendarHit { cell: None, nav: None, zone: Some(zone), row: None }
}

fn on_nav(delta: i32) -> CalendarHit {
    CalendarHit { cell: None, nav: Some(delta), zone: None, row: None }
}

fn on_row(row: usize) -> CalendarHit {
    CalendarHit { cell: None, nav: None, zone: None, row: Some(row) }
}

fn click(p: &mut DatePicker, hit: CalendarHit) -> bool {
    p.mouse_down(hit);
    p.mouse_up(hit)
}

fn placed_picker() -> DatePicker {
    DatePicker::new().selected(2026, 7, 16)
}

#[test]
fn civil_roundtrip() {
    for (y, m, d) in [(1970, 1, 1), (2000, 2, 29), (2026, 7, 16), (1999, 12, 31)] {
        let days = days_from_civil(y, m, d);
        assert_eq!(civil_from_days(days), (y, m, d));
    }
}

#[test]
fn july_2026_starts_wednesday() {
    assert_eq!(first_weekday(2026, 7), 2);
    assert_eq!(days_in_month(2026, 7), 31);
}

#[test]
fn leap_years() {
    assert_eq!(days_in_month(2024, 2), 29);
    assert_eq!(days_in_month(2026, 2), 28);
    assert_eq!(days_in_month(2000, 2), 29);
    assert_eq!(days_in_month(1900, 2), 28);
}

#[test]
fn step_month_wraps_years() {
    let mut p = DatePicker::new().selected(2026, 12, 15);
    p.step_month(1);
    assert_eq!(p.viewed(), (2027, 1));
    p.step_month(-2);
    assert_eq!(p.viewed(), (2026, 11));
}

#[test]
fn click_day_selects_on_release_inside() {
    let mut p = DatePicker::new().selected(2026, 7, 1);
    // Release without press does nothing.
    p.mouse_up(nothing());
    assert_eq!(p.selected_date(), (2026, 7, 1));
    // Press + release on the 16th selects it.
    let cell = p.cell_of_day(16);
    p.mouse_down(on_cell(cell));
    p.mouse_up(on_cell(cell));
    assert_eq!(p.selected_date(), (2026, 7, 16));
    // Press on a day, release outside keeps the selection.
    p.mouse_down(on_cell(cell));
    p.mouse_up(nothing());
    assert_eq!(p.selected_date(), (2026, 7, 16));
}

#[test]
fn blank_cells_never_select() {
    let mut p = DatePicker::new().selected(2026, 7, 1);
    // Top-left cell is blank for July 2026 (starts Wednesday).
    assert_eq!(p.day_at_cell(0), None);
    click(&mut p, on_cell(0));
    assert_eq!(p.selected_date(), (2026, 7, 1));
}

#[test]
fn month_menu_opens_and_picks() {
    let mut p = placed_picker();
    click(&mut p, on_zone(HeaderZone::Month));
    assert_eq!(p.popup(), Popup::Months);
    assert_eq!(p.popup_rows(), 12);
    p.mouse_move(on_row(2));
    assert_eq!(p.hovered_row(), Some(2));
    click(&mut p, on_row(2));
    assert_eq!(p.popup(), Popup::Closed);
    assert_eq!(p.viewed(), (2026, 3));
    assert_eq!(p.selected_date(), (2026, 7, 16));
}

#[test]
fn year_menu_shows_current_and_scrolls() {
    let mut p = placed_picker();
    click(&mut p, on_zone(HeaderZone::Year));
    assert_eq!(p.popup(), Popup::Years);
    assert_eq!(p.popup_rows(), 3000);
    assert_eq!(p.popup_current_row(), 2025);
    // Pick year 1 at the top of the list.
    click(&mut p, on_row(0));
    assert_eq!(p.popup(), Popup::Closed);
    assert_eq!(p.viewed(), (1, 7));
}

#[test]
fn popup_outside_click_and_escape_close() {
    let mut p = placed_picker();
    click(&mut p, on_zone(HeaderZone::Month));
    assert_eq!(p.popup(), Popup::Months);
    p.mouse_down(nothing());
    p.mouse_up(nothing());
    assert_eq!(p.popup(), Popup::Closed);
    assert_eq!(p.viewed(), (2026, 7));
    click(&mut p, on_zone(HeaderZone::Year));
    assert_eq!(p.popup(), Popup::Years);
    p.key(Key::Escape);
    assert_eq!(p.popup(), Popup::Closed);
}

#[test]
fn header_tap_switches_lists() {
    let mut p = placed_picker();
    click(&mut p, on_zone(HeaderZone::Month));
    assert_eq!(p.popup(), Popup::Months);
    click(&mut p, on_zone(HeaderZone::Year));
    assert_eq!(p.popup(), Popup::Years);
}

#[test]
fn nav_chevrons_step_month() {
    let mut p = DatePicker::new().selected(2026, 7, 16);
    click(&mut p, on_nav(1));
    assert_eq!(p.viewed(), (2026, 8));
    click(&mut p, on_nav(-1));
    click(&mut p, on_nav(-1));
    assert_eq!(p.viewed(), (2026, 6));
}

#[test]
fn date_select_fires_callback_only_on_change() {
    let mut fires = 0;
    let mut p = DatePicker::new().selected(2026, 7, 16);
    if p.set_selected(2026, 7, 16) {
        fires += 1;
    }
    assert_eq!(fires, 0);
    if p.set_selected(2026, 7, 17) {
        fires += 1;
    }
    assert_eq!(p.selected_date(), (2026, 7, 17));
    assert_eq!(fires, 1);
}

#[test]
fn set_selected_clamps_day() {
    let mut p = DatePicker::new();
    p.set_selected(2026, 2, 30);
    assert_eq!(p.selected_date(), (2026, 2, 28));
}

#[test]
fn epoch_is_day_zero_and_next_days_follow() {
    assert_eq!(days_from_civil(1970, 1, 1), 0);
    assert_eq!(days_from_civil(1970, 1, 2), 1);
    assert_eq!(days_from_civil(1969, 12, 31), -1);
    assert_eq!(days_from_civil(2000, 3, 1) - days_from_civil(2000, 2, 28), 2);
    assert_eq!(days_from_civil(1900, 3, 1) - days_from_civil(1900, 2, 28), 1);
    assert_eq!(civil_from_days(-719468), (0, 3, 1));
    assert_eq!(civil_from_days(19_000), (2022, 1, 8));
}

#[test]
fn unix_seconds_map_to_dates() {
    assert_eq!(civil_from_unix_seconds(0), (1970, 1, 1));
    assert_eq!(civil_from_unix_seconds(86_399), (1970, 1, 1));
    assert_eq!(civil_from_unix_seconds(86_400), (1970, 1, 2));
    assert_eq!(civil_from_unix_seconds(951_782_400), (2000, 2, 29));
    let (y, m, d) = today();
    assert!(y >= 2024 && (1..=12).contains(&m) && d >= 1 && d <= days_in_month(y, m));
}

#[test]
fn weekdays_follow_month_lengths() {
    // 2026-07-01 is a Wednesday; August starts 31 days later, a Saturday.
    assert_eq!(first_weekday(2026, 8), (2 + 31) % 7);
    assert_eq!(first_weekday(1970, 1), 3);
    assert_eq!(first_weekday(2024, 3), (first_weekday(2024, 2) + 29) % 7);
    assert_eq!(days_in_month(2026, 13), 30);
}

#[test]
fn step_month_by_twelve_moves_a_year() {
    let mut p = DatePicker::new().selected(2026, 5, 1);
    p.step_month(12);
    assert_eq!(p.viewed(), (2027, 5));
    p.step_month(-24);
    assert_eq!(p.viewed(), (2025, 5));
    p.step_month(0);
    assert_eq!(p.viewed(), (2025, 5));
    assert_eq!(p.selected_date(), (2026, 5, 1));
}

#[test]
fn builder_clamps_month_and_day() {
    let p = DatePicker::new().selected(2024, 0, 0);
    assert_eq!(p.selected_date(), (2024, 1, 1));
    let p = DatePicker::new().selected(2024, 14, 40);
    assert_eq!(p.selected_date(), (2024, 12, 31));
    assert_eq!(p.viewed(), (2024, 12));
    let p = DatePicker::new().selected(2024, 2, 30);
    assert_eq!(p.selected_date(), (2024, 2, 29));
}

#[test]
fn disabled_picker_ignores_pointer_and_keys() {
    let mut p = DatePicker::new().selected(2026, 7, 1).disabled(true);
    let cell = p.cell_of_day(16);
    assert!(!click(&mut p, on_cell(cell)));
    click(&mut p, on_zone(HeaderZone::Month));
    assert_eq!(p.popup(), Popup::Closed);
    p.key(Key::Escape);
    assert_eq!(p.selected_date(), (2026, 7, 1));
    assert!(p.is_disabled());
}

#[test]
fn day_click_reports_change_once() {
    let mut p = DatePicker::new().selected(2026, 7, 1);
    let cell = p.cell_of_day(16);
    assert_eq!(p.day_at_cell(cell), Some(16));
    assert!(click(&mut p, on_cell(cell)));
    assert!(!click(&mut p, on_cell(cell)));
    // Press on one day, release on another selects nothing.
    let other = p.cell_of_day(17);
    p.mouse_down(on_cell(cell));
    assert!(!p.mouse_up(on_cell(other)));
    assert_eq!(p.selected_date(), (2026, 7, 16));
    p.mouse_move(on_cell(other));
    assert_eq!(p.hovered_day(), Some(17));
}

#[test]
fn year_list_spans_the_year_range() {
    let mut p = DatePicker::new().selected(DATE_YEAR_MAX, 1, 1);
    click(&mut p, on_zone(HeaderZone::Year));
    assert_eq!(p.popup_current_row(), (DATE_YEAR_MAX - DATE_YEAR_MIN) as usize);
    // A row past the list is no row: the release closes without a pick.
    click(&mut p, on_row(3000));
    assert_eq!(p.popup(), Popup::Closed);
    assert_eq!(p.viewed(), (DATE_YEAR_MAX, 1));
    click(&mut p, on_zone(HeaderZone::Month));
    assert_eq!(p.popup_current_row(), 0);
}

#[test]
fn month_and_weekday_names() {
    assert_eq!(tontoo_ui::date_picker::DATE_MONTHS[0], "January");
    assert_eq!(tontoo_ui::date_picker::DATE_MONTHS[11], "December");
    assert_eq!(tontoo_ui::date_picker::DATE_WEEKDAYS[first_weekday(2026, 7) as usize], "WED");
}

#[test]
fn popup_rows_are_labelled() {
    let mut p = placed_picker();
    assert_eq!(p.popup_row_label(0), "");
    click(&mut p, on_zone(HeaderZone::Month));
    assert_eq!(p.popup_row_label(2), "March");
    assert_eq!(p.popup_row_label(40), "December");
    click(&mut p, on_zone(HeaderZone::Year));
    assert_eq!(p.popup_row_label(0), "1");
    assert_eq!(p.popup_row_label(2025), "2026");
    assert_eq!(p.popup_row_label(2999), "3000");
}

#[test]
fn decimal_text_matches_formatting() {
    for n in [0, 7, 10, 99, 100, 2026, -5, -1230, i32::MAX, i32::MIN] {
        assert_eq!(decimal_text(n), n.to_string());
    }
}

#[test]
fn picker_opens_on_the_clock_date() {
    let p = DatePicker::at_unix_seconds(951_782_400);
    assert_eq!(p.selected_date(), (2000, 2, 29));
    assert_eq!(p.viewed(), (2000, 2));
    assert_eq!(p.popup(), Popup::Closed);
    let now = DatePicker::new();
    assert_eq!(now.selected_date(), today());
    let far = DatePicker::new().selected(2026, 7, 1);
    assert_eq!(far.cell_of_day(40), 2 + 40 - 1);
}
