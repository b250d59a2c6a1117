//! Date picker state: the viewed month, the selected date, the header
//! popups (month list, year list) and the press/release arming that turns
//! pointer input into selections. The layout reports what lies under the
//! pointer as a `CalendarHit`; everything decided from it lives here.

use vstd::prelude::*;

use crate::calendar::{
    civil_date, civil_day_number, civil_day_number_fits, civil_from_unix_seconds, clock_day_number,
    clock_seconds, days_in_month, first_weekday, is_valid_date, month_length, weekday_of_day_number,
};
use crate::decimal::{decimal_text, signed_decimal};
use crate::input::Key;
use crate::options::owned;

verus! {

/// First selectable year.
pub const DATE_YEAR_MIN: i32 = 1;

/// Last selectable year.
pub const DATE_YEAR_MAX: i32 = 3000;

/// Full English month names, January first: the month list's rows.
pub const DATE_MONTHS: [&'static str; 12] = [
    "January",
    "February",
    "March",
    "April",
    "May",
    "June",
    "July",
    "August",
    "September",
    "October",
    "November",
    "December",
];

/// Monday-first weekday headers of the day grid.
pub const DATE_WEEKDAYS: [&'static str; 7] = ["MON", "TUE", "WED", "THU", "FRI", "SAT", "SUN"];

/// English name of month `m` (1-12).
pub open spec fn month_name(m: int) -> Seq<char> {
    if m == 1 {
        "January"@
    } else if m == 2 {
        "February"@
    } else if m == 3 {
        "March"@
    } else if m == 4 {
        "April"@
    } else if m == 5 {
        "May"@
    } else if m == 6 {
        "June"@
    } else if m == 7 {
        "July"@
    } else if m == 8 {
        "August"@
    } else if m == 9 {
        "September"@
    } else if m == 10 {
        "October"@
    } else if m == 11 {
        "November"@
    } else {
        "December"@
    }
}

/// Open header popup list, if any.
#[derive(Clone, Copy, Debug, PartialEq, Eq, Structural)]
pub enum Popup {
    Closed,
    Months,
    Years,
}

/// Clickable header zone.
#[derive(Clone, Copy, Debug, PartialEq, Eq, Structural)]
pub enum HeaderZone {
    Month,
    Year,
}

/// Press arming while the calendar itself is shown.
#[derive(Clone, Copy, Debug, PartialEq, Eq, Structural)]
pub enum Armed {
    Day(u32),
    Nav(i32),
    Header(HeaderZone),
}

/// What lies under the pointer, as the layout measured it.
#[derive(Clone, Copy, Debug)]
pub struct CalendarHit {
    /// Grid cell index (`row * 7 + col`, Monday-first columns) inside the
    /// six-week day grid.
    pub cell: Option<u32>,
    /// Month stepper chevron: `-1` (previous) or `1` (next).
    pub nav: Option<i32>,
    /// Month or year zone of the header bar.
    pub zone: Option<HeaderZone>,
    /// Row of the open popup list (scroll offset already applied).
    pub row: Option<usize>,
}

/// The state a date picker holds.
#[derive(Clone, Copy, Debug)]
pub struct DatePickerState {
    pub view_year: i32,
    pub view_month: u32,
    pub selected: (i32, u32, u32),
    pub popup: Popup,
    pub armed: Option<Armed>,
    pub armed_row: Option<usize>,
    pub hovered_row: Option<usize>,
    pub hovered_day: Option<u32>,
    pub hovered_zone: Option<HeaderZone>,
    pub hovered_nav: Option<i32>,
    pub disabled: bool,
    pub focused: bool,
}

/// Month clamped into 1-12.
pub open spec fn clamp_month(month: int) -> int {
    if month < 1 {
        1
    } else if month > 12 {
        12
    } else {
        month
    }
}

/// Day clamped into the month.
pub open spec fn clamp_day(year: int, month: int, day: int) -> int {
    if day < 1 {
        1
    } else if day > month_length(year, month) {
        month_length(year, month)
    } else {
        day
    }
}

/// Whether the day grid of `year-month` can be laid out without `i32`
/// overflow in the weekday computation.
pub open spec fn grid_fits(year: int, month: int) -> bool {
    civil_day_number_fits(year, month, 1) && civil_day_number(year, month, 1) + 3 <= i32::MAX
}

/// Monday-first column of the first of the month.
pub open spec fn grid_first(year: int, month: int) -> int {
    weekday_of_day_number(civil_day_number(year, month, 1))
}

/// Day shown in grid cell `cell`, if the cell is not blank.
pub open spec fn grid_day(year: int, month: int, cell: int) -> Option<int> {
    let first = grid_first(year, month);
    if cell < first || cell >= first + month_length(year, month) {
        None
    } else {
        Some(cell - first + 1)
    }
}

/// Month index counted from year 0 (`year * 12 + month - 1`).
pub open spec fn month_index(year: int, month: int) -> int {
    year * 12 + month - 1
}

/// Viewed year and month after stepping `delta` months.
pub open spec fn stepped(year: int, month: int, delta: int) -> (int, int) {
    let total = month_index(year, month) + delta;
    (total / 12, total % 12 + 1)
}

/// Whether stepping the viewed month by `delta` stays in `i32`.
pub open spec fn step_fits(year: int, month: int, delta: int) -> bool {
    &&& i32::MIN <= year * 12 <= i32::MAX
    &&& i32::MIN <= year * 12 + (month - 1) <= i32::MAX
    &&& i32::MIN <= month_index(year, month) + delta <= i32::MAX
}

/// Rows of a popup list.
pub open spec fn popup_row_count(popup: Popup) -> int {
    match popup {
        Popup::Closed => 0,
        Popup::Months => 12,
        Popup::Years => DATE_YEAR_MAX - DATE_YEAR_MIN + 1,
    }
}

/// The popup row under the pointer, if the row exists.
pub open spec fn popup_row(popup: Popup, row: Option<usize>) -> Option<usize> {
    match row {
        Some(r) => if r < popup_row_count(popup) {
            Some(r)
        } else {
            None
        },
        None => None,
    }
}

/// No popup, nothing armed, nothing hovered.
pub open spec fn with_popup_closed(s: DatePickerState) -> DatePickerState {
    DatePickerState {
        popup: Popup::Closed,
        hovered_row: None,
        hovered_day: None,
        hovered_zone: None,
        hovered_nav: None,
        armed_row: None,
        ..s
    }
}

/// A popup list opened afresh.
pub open spec fn with_popup_opened(s: DatePickerState, popup: Popup) -> DatePickerState {
    DatePickerState { popup, hovered_row: None, armed_row: None, ..s }
}

/// The selection set to a date, the view following it.
pub open spec fn with_selection(s: DatePickerState, year: i32, month: u32, day: u32) -> DatePickerState {
    DatePickerState { selected: (year, month, day), view_year: year, view_month: month, ..s }
}

/// Day under the pointer, if the pointer is on a non-blank grid cell.
pub open spec fn hit_day(s: DatePickerState, hit: CalendarHit) -> Option<int> {
    match hit.cell {
        Some(c) => grid_day(s.view_year as int, s.view_month as int, c as int),
        None => None,
    }
}

/// What a press on the calendar arms: a day, else a month chevron, else a
/// header zone.
pub open spec fn armed_by(s: DatePickerState, hit: CalendarHit) -> Option<Armed> {
    match hit_day(s, hit) {
        Some(d) => Some(Armed::Day(d as u32)),
        None => match hit.nav {
            Some(delta) => Some(Armed::Nav(delta)),
            None => match hit.zone {
                Some(zone) => Some(Armed::Header(zone)),
                None => None,
            },
        },
    }
}

/// State after a press: a popup row while a popup is open, otherwise
/// what the calendar arms.
pub open spec fn after_press(s: DatePickerState, hit: CalendarHit) -> DatePickerState {
    if s.disabled {
        s
    } else if s.popup != Popup::Closed {
        DatePickerState { armed: None, armed_row: popup_row(s.popup, hit.row), ..s }
    } else {
        DatePickerState { armed: armed_by(s, hit), ..s }
    }
}

/// Whether a press on the calendar needs the day grid laid out.
pub open spec fn press_needs_grid(s: DatePickerState, hit: CalendarHit) -> bool {
    !s.disabled && s.popup == Popup::Closed && hit.cell is Some
}

/// Whether a release needs the day grid laid out or steps the month.
pub open spec fn release_fits(s: DatePickerState, hit: CalendarHit) -> bool {
    !s.disabled && s.popup == Popup::Closed ==> match s.armed {
        Some(Armed::Day(_)) => hit.cell is Some ==> grid_fits(s.view_year as int, s.view_month as int),
        Some(Armed::Nav(delta)) => hit.nav == Some(delta) ==> step_fits(
            s.view_year as int,
            s.view_month as int,
            delta as int,
        ),
        _ => true,
    }
}

/// The popup a header zone opens.
pub open spec fn popup_of_zone(zone: HeaderZone) -> Popup {
    match zone {
        HeaderZone::Month => Popup::Months,
        HeaderZone::Year => Popup::Years,
    }
}

/// Whether a release selects a day: press and release on the same day.
pub open spec fn release_picks_day(s: DatePickerState, hit: CalendarHit) -> bool {
    &&& !s.disabled
    &&& s.popup == Popup::Closed
    &&& s.armed matches Some(Armed::Day(d))
    &&& hit_day(s, hit) == Some(d as int)
}

/// State after a release. With a popup open: press and release on the same
/// row picks that month or year and closes the popup; a header tap switches
/// lists; anything else closes. With the calendar shown: the armed day,
/// chevron or header zone acts when the release lands on it again.
pub open spec fn after_release(s: DatePickerState, hit: CalendarHit) -> DatePickerState {
    if s.disabled {
        s
    } else if s.popup != Popup::Closed {
        let s1 = DatePickerState { armed_row: None, ..s };
        match s.armed_row {
            Some(row) if popup_row(s.popup, hit.row) == Some(row) => {
                let picked = if s.popup == Popup::Months {
                    DatePickerState { view_month: (row + 1) as u32, ..s1 }
                } else {
                    DatePickerState { view_year: (DATE_YEAR_MIN + row) as i32, ..s1 }
                };
                with_popup_closed(picked)
            },
            _ => match hit.zone {
                Some(zone) => with_popup_opened(s1, popup_of_zone(zone)),
                None => with_popup_closed(s1),
            },
        }
    } else {
        let s1 = DatePickerState { armed: None, ..s };
        match s.armed {
            Some(Armed::Day(d)) => if hit_day(s, hit) == Some(d as int) && (s.view_year, s.view_month, d)
                != s.selected {
                with_selection(s1, s.view_year, s.view_month, d)
            } else {
                s1
            },
            Some(Armed::Nav(delta)) => if hit.nav == Some(delta) {
                DatePickerState {
                    view_year: stepped(s.view_year as int, s.view_month as int, delta as int).0 as i32,
                    view_month: stepped(s.view_year as int, s.view_month as int, delta as int).1 as u32,
                    ..s1
                }
            } else {
                s1
            },
            Some(Armed::Header(zone)) => if hit.zone == Some(zone) {
                with_popup_opened(s1, popup_of_zone(zone))
            } else {
                s1
            },
            None => s1,
        }
    }
}

/// A picker state viewing and selecting `date`, nothing open, armed or
/// hovered, enabled and focused.
pub open spec fn opened_on(date: (int, int, int)) -> DatePickerState {
    DatePickerState {
        view_year: date.0 as i32,
        view_month: date.1 as u32,
        selected: (date.0 as i32, date.1 as u32, date.2 as u32),
        popup: Popup::Closed,
        armed: None,
        armed_row: None,
        hovered_row: None,
        hovered_day: None,
        hovered_zone: None,
        hovered_nav: None,
        disabled: false,
        focused: true,
    }
}

impl DatePickerState {
    /// The viewed month is a month and the selection a real date.
    pub open spec fn wf(self) -> bool {
        &&& 1 <= self.view_month <= 12
        &&& is_valid_date(self.selected.0 as int, self.selected.1 as int, self.selected.2 as int)
    }

    /// Nothing open, armed or hovered.
    pub open spec fn at_rest(self) -> bool {
        &&& self.popup == Popup::Closed
        &&& self.armed.is_none()
        &&& self.armed_row.is_none()
        &&& self.hovered_row.is_none()
        &&& self.hovered_day.is_none()
        &&& self.hovered_zone.is_none()
        &&& self.hovered_nav.is_none()
    }
}

/// Date picker: a month calendar with a header bar. The header shows the
/// month and the year as two menus plus `<`/`>` month steppers. Clicking
/// the month opens all twelve months; clicking the year opens the year list
/// (`DATE_YEAR_MIN` to `DATE_YEAR_MAX`). Clicking a day selects it.
pub struct DatePicker {
    s: DatePickerState,
}

impl View for DatePicker {
    type V = DatePickerState;

    closed spec fn view(&self) -> DatePickerState {
        self.s
    }
}

impl DatePicker {
    #[verifier::type_invariant]
    spec fn inv(self) -> bool {
        self.s.wf()
    }

    /// A picker viewing and selecting the date of the clock reading
    /// `unix_seconds` (seconds since 1970-01-01), nothing open.
    pub fn at_unix_seconds(unix_seconds: u64) -> (p: Self)
        ensures
            p@ == opened_on(civil_date(clock_day_number(unix_seconds))),
            p@.wf(),
            p@.at_rest(),
    {
        let (y, m, d) = civil_from_unix_seconds(unix_seconds);
        DatePicker {
            s: DatePickerState {
                view_year: y,
                view_month: m,
                selected: (y, m, d),
                popup: Popup::Closed,
                armed: None,
                armed_row: None,
                hovered_row: None,
                hovered_day: None,
                hovered_zone: None,
                hovered_nav: None,
                disabled: false,
                focused: true,
            },
        }
    }

    /// A picker viewing and selecting today's date: the date of the
    /// system clock's reading, nothing open.
    pub fn new() -> (p: Self)
        ensures
            exists|secs: u64| p@ == opened_on(civil_date(#[trigger] clock_day_number(secs))),
            p@.wf(),
            p@.at_rest(),
    {
        let secs = clock_seconds();
        let p = Self::at_unix_seconds(secs);
        assert(p@ == opened_on(civil_date(clock_day_number(secs))));
        p
    }

    /// Initial selection without reporting a change. The viewed month
    /// follows the selection. The month clamps to 1-12, the day to the
    /// month length.
    pub fn selected(self, year: i32, month: u32, day: u32) -> (p: Self)
        ensures
            p@.wf(),
            p@ == with_selection(
                self@,
                year,
                clamp_month(month as int) as u32,
                clamp_day(year as int, clamp_month(month as int), day as int) as u32,
            ),
    {
        let m: u32 = if month < 1 {
            1
        } else if month > 12 {
            12
        } else {
            month
        };
        let n: u32 = days_in_month(year, m);
        let d: u32 = if day < 1 {
            1
        } else if day > n {
            n
        } else {
            day
        };
        let mut s = self.s;
        s.selected = (year, m, d);
        s.view_year = year;
        s.view_month = m;
        DatePicker { s }
    }

    pub fn disabled(self, disabled: bool) -> (p: Self)
        ensures
            p@ == (DatePickerState { disabled, ..self@ }),
    {
        proof {
            use_type_invariant(&self);
        }
        let mut s = self.s;
        s.disabled = disabled;
        DatePicker { s }
    }

    pub fn set_focused(&mut self, focused: bool)
        ensures
            final(self)@ == (DatePickerState { focused, ..old(self)@ }),
    {
        proof {
            use_type_invariant(&*self);
        }
        let mut s = self.s;
        s.focused = focused;
        self.s = s;
    }

    pub fn selected_date(&self) -> (date: (i32, u32, u32))
        ensures
            date == self@.selected,
            is_valid_date(date.0 as int, date.1 as int, date.2 as int),
    {
        proof {
            use_type_invariant(self);
        }
        self.s.selected
    }

    pub fn viewed(&self) -> (view: (i32, u32))
        ensures
            view == (self@.view_year, self@.view_month),
            1 <= view.1 <= 12,
    {
        proof {
            use_type_invariant(self);
        }
        (self.s.view_year, self.s.view_month)
    }

    /// Open popup list.
    pub fn popup(&self) -> (p: Popup)
        ensures
            p == self@.popup,
    {
        self.s.popup
    }

    /// Whether the picker ignores input.
    pub fn is_disabled(&self) -> (d: bool)
        ensures
            d == self@.disabled,
    {
        self.s.disabled
    }

    /// Day cell under the pointer at the last move, if any.
    pub fn hovered_day(&self) -> (d: Option<u32>)
        ensures
            d == self@.hovered_day,
    {
        self.s.hovered_day
    }

    /// Popup row under the pointer at the last move, if any.
    pub fn hovered_row(&self) -> (r: Option<usize>)
        ensures
            r == self@.hovered_row,
    {
        self.s.hovered_row
    }

    /// Set the selection (clamped to the month). Reports `true` when the
    /// date changed: that is when `on_select` fires.
    pub fn set_selected(&mut self, year: i32, month: u32, day: u32) -> (changed: bool)
        ensures
            final(self)@.wf(),
            ({
                let m = clamp_month(month as int) as u32;
                let d = clamp_day(year as int, m as int, day as int) as u32;
                &&& changed == ((year, m, d) != old(self)@.selected)
                &&& final(self)@ == if changed {
                    with_selection(old(self)@, year, m, d)
                } else {
                    old(self)@
                }
            }),
    {
        proof {
            use_type_invariant(&*self);
        }
        let m: u32 = if month < 1 {
            1
        } else if month > 12 {
            12
        } else {
            month
        };
        let n: u32 = days_in_month(year, m);
        let d: u32 = if day < 1 {
            1
        } else if day > n {
            n
        } else {
            day
        };
        let (sy, sm, sd) = self.s.selected;
        if year != sy || m != sm || d != sd {
            let mut s = self.s;
            s.selected = (year, m, d);
            s.view_year = year;
            s.view_month = m;
            self.s = s;
            true
        } else {
            false
        }
    }

    /// Step the viewed month by `delta` (wraps years).
    pub fn step_month(&mut self, delta: i32)
        requires
            step_fits(old(self)@.view_year as int, old(self)@.view_month as int, delta as int),
        ensures
            final(self)@ == (DatePickerState {
                view_year: stepped(old(self)@.view_year as int, old(self)@.view_month as int, delta as int).0 as i32,
                view_month: stepped(old(self)@.view_year as int, old(self)@.view_month as int, delta as int).1 as u32,
                ..old(self)@
            }),
    {
        proof {
            use_type_invariant(&*self);
        }
        let total: i32 = self.s.view_year * 12 + (self.s.view_month as i32 - 1) + delta;
        let y: i32 = match total.checked_div_euclid(12) {
            Some(q) => q,
            None => 0,
        };
        let r: i32 = match total.checked_rem_euclid(12) {
            Some(r) => r,
            None => 0,
        };
        let mut s = self.s;
        s.view_year = y;
        s.view_month = (r + 1) as u32;
        self.s = s;
    }

    /// Day shown in grid cell `cell` of the viewed month (`None` for the
    /// blank cells before the first and after the last day).
    pub fn day_at_cell(&self, cell: u32) -> (day: Option<u32>)
        requires
            grid_fits(self@.view_year as int, self@.view_month as int),
        ensures
            match day {
                Some(d) => grid_day(self@.view_year as int, self@.view_month as int, cell as int)
                    == Some(d as int),
                None => grid_day(self@.view_year as int, self@.view_month as int, cell as int)
                    is None,
            },
    {
        proof {
            use_type_invariant(self);
        }
        let first: u32 = first_weekday(self.s.view_year, self.s.view_month);
        let days: u32 = days_in_month(self.s.view_year, self.s.view_month);
        if cell < first || cell >= first + days {
            None
        } else {
            Some(cell - first + 1)
        }
    }

    /// Grid cell index (`row * 7 + col`) of `day` in the viewed month.
    pub fn cell_of_day(&self, day: u32) -> (cell: u32)
        requires
            grid_fits(self@.view_year as int, self@.view_month as int),
            1 <= day,
            grid_first(self@.view_year as int, self@.view_month as int) + day <= u32::MAX,
        ensures
            cell == grid_first(self@.view_year as int, self@.view_month as int) + day - 1,
    {
        proof {
            use_type_invariant(self);
        }
        let first: u32 = first_weekday(self.s.view_year, self.s.view_month);
        first + day - 1
    }

    /// Rows of the open popup list (none when closed).
    pub fn popup_rows(&self) -> (n: usize)
        ensures
            n == popup_row_count(self@.popup),
    {
        match self.s.popup {
            Popup::Closed => 0,
            Popup::Months => 12,
            Popup::Years => (DATE_YEAR_MAX - DATE_YEAR_MIN + 1) as usize,
        }
    }

    /// Text of row `row` of the open popup list: the month's name (rows
    /// past December name December), or the year; empty with no popup.
    pub fn popup_row_label(&self, row: usize) -> (label: String)
        requires
            self@.popup == Popup::Years ==> (row as i32) < i32::MAX,
        ensures
            label@ == match self@.popup {
                Popup::Closed => Seq::<char>::empty(),
                Popup::Months => month_name(if row < 11 { row + 1 } else { 12 }),
                Popup::Years => signed_decimal(DATE_YEAR_MIN + (row as i32)),
            },
    {
        match self.s.popup {
            Popup::Closed => String::new(),
            Popup::Months => {
                let i: usize = if row < 11 { row } else { 11 };
                let name: &str = DATE_MONTHS[i];
                owned(name)
            },
            Popup::Years => {
                let r: i32 = row as i32;
                decimal_text(DATE_YEAR_MIN + r)
            },
        }
    }

    /// Row of the viewed month or year in the open popup list.
    pub fn popup_current_row(&self) -> (row: usize)
        requires
            self@.view_year > i32::MIN,
        ensures
            row == match self@.popup {
                Popup::Closed => 0int,
                Popup::Months => self@.view_month - 1,
                Popup::Years => if self@.view_year - DATE_YEAR_MIN < 0 {
                    0int
                } else {
                    self@.view_year - DATE_YEAR_MIN
                },
            },
    {
        proof {
            use_type_invariant(self);
        }
        match self.s.popup {
            Popup::Closed => 0,
            Popup::Months => (self.s.view_month - 1) as usize,
            Popup::Years => {
                let r: i32 = self.s.view_year - DATE_YEAR_MIN;
                if r < 0 {
                    0
                } else {
                    r as usize
                }
            },
        }
    }

    fn pop_row(&self, row: Option<usize>) -> (r: Option<usize>)
        ensures
            r == popup_row(self@.popup, row),
    {
        match row {
            Some(r) => {
                if r < self.popup_rows() {
                    Some(r)
                } else {
                    None
                }
            },
            None => None,
        }
    }

    fn close_popup(&mut self)
        ensures
            final(self)@ == with_popup_closed(old(self)@),
    {
        proof {
            use_type_invariant(&*self);
        }
        let mut s = self.s;
        s.popup = Popup::Closed;
        s.hovered_row = None;
        s.hovered_day = None;
        s.hovered_zone = None;
        s.hovered_nav = None;
        s.armed_row = None;
        self.s = s;
    }

    fn open_popup(&mut self, popup: Popup)
        ensures
            final(self)@ == with_popup_opened(old(self)@, popup),
    {
        proof {
            use_type_invariant(&*self);
        }
        let mut s = self.s;
        s.popup = popup;
        s.hovered_row = None;
        s.armed_row = None;
        self.s = s;
    }
    /// Press: arms the popup row under the pointer while a popup is open,
    /// otherwise the day, chevron or header zone under it.
    pub fn mouse_down(&mut self, hit: CalendarHit)
        requires
            press_needs_grid(old(self)@, hit) ==> grid_fits(
                old(self)@.view_year as int,
                old(self)@.view_month as int,
            ),
        ensures
            final(self)@ == after_press(old(self)@, hit),
    {
        proof {
            use_type_invariant(&*self);
        }
        if self.s.disabled {
            return;
        }
        if self.s.popup != Popup::Closed {
            let row = self.pop_row(hit.row);
            let mut s = self.s;
            s.armed = None;
            s.armed_row = row;
            self.s = s;
            return;
        }
        let day = match hit.cell {
            Some(c) => self.day_at_cell(c),
            None => None,
        };
        let armed = match day {
            Some(d) => Some(Armed::Day(d)),
            None => match hit.nav {
                Some(delta) => Some(Armed::Nav(delta)),
                None => match hit.zone {
                    Some(zone) => Some(Armed::Header(zone)),
                    None => None,
                },
            },
        };
        let mut s = self.s;
        s.armed = armed;
        self.s = s;
    }

    /// Hover: popup rows when a popup is open, otherwise the day cell,
    /// header zone and chevron under the pointer.
    pub fn mouse_move(&mut self, hit: CalendarHit)
        requires
            press_needs_grid(old(self)@, hit) ==> grid_fits(
                old(self)@.view_year as int,
                old(self)@.view_month as int,
            ),
        ensures
            final(self)@ == if old(self)@.disabled {
                old(self)@
            } else if old(self)@.popup != Popup::Closed {
                DatePickerState {
                    hovered_row: popup_row(old(self)@.popup, hit.row),
                    hovered_day: None,
                    hovered_zone: None,
                    hovered_nav: None,
                    ..old(self)@
                }
            } else {
                DatePickerState {
                    hovered_row: None,
                    hovered_day: match hit_day(old(self)@, hit) {
                        Some(d) => Some(d as u32),
                        None => None,
                    },
                    hovered_zone: hit.zone,
                    hovered_nav: hit.nav,
                    ..old(self)@
                }
            },
    {
        proof {
            use_type_invariant(&*self);
        }
        if self.s.disabled {
            return;
        }
        if self.s.popup != Popup::Closed {
            let row = self.pop_row(hit.row);
            let mut s = self.s;
            s.hovered_row = row;
            s.hovered_day = None;
            s.hovered_zone = None;
            s.hovered_nav = None;
            self.s = s;
        } else {
            let day = match hit.cell {
                Some(c) => self.day_at_cell(c),
                None => None,
            };
            let mut s = self.s;
            s.hovered_row = None;
            s.hovered_day = day;
            s.hovered_zone = hit.zone;
            s.hovered_nav = hit.nav;
            self.s = s;
        }
    }

    /// Release. Reports `true` when a day got selected that differs from
    /// the previous selection: that is when `on_select` fires.
    pub fn mouse_up(&mut self, hit: CalendarHit) -> (changed: bool)
        requires
            release_fits(old(self)@, hit),
        ensures
            final(self)@ == after_release(old(self)@, hit),
            final(self)@.wf(),
            changed == (release_picks_day(old(self)@, hit) && (
                old(self)@.view_year,
                old(self)@.view_month,
                match old(self)@.armed {
                    Some(Armed::Day(d)) => d,
                    _ => 0u32,
                },
            ) != old(self)@.selected),
    {
        proof {
            use_type_invariant(&*self);
        }
        if self.s.disabled {
            return false;
        }
        if self.s.popup != Popup::Closed {
            let armed = self.s.armed_row;
            let mut s = self.s;
            s.armed_row = None;
            self.s = s;
            if let Some(row) = armed {
                let under = self.pop_row(hit.row);
                if under == Some(row) {
                    let mut s = self.s;
                    if s.popup == Popup::Months {
                        s.view_month = (row + 1) as u32;
                    } else {
                        s.view_year = DATE_YEAR_MIN + row as i32;
                    }
                    self.s = s;
                    self.close_popup();
                    return false;
                }
            }
            match hit.zone {
                Some(HeaderZone::Month) => self.open_popup(Popup::Months),
                Some(HeaderZone::Year) => self.open_popup(Popup::Years),
                None => self.close_popup(),
            }
            return false;
        }
        let armed = self.s.armed;
        let mut s = self.s;
        s.armed = None;
        self.s = s;
        match armed {
            Some(Armed::Day(day)) => {
                let under = match hit.cell {
                    Some(c) => self.day_at_cell(c),
                    None => None,
                };
                if under == Some(day) {
                    let (y, m) = (self.s.view_year, self.s.view_month);
                    self.set_selected(y, m, day)
                } else {
                    false
                }
            },
            Some(Armed::Nav(delta)) => {
                if hit.nav == Some(delta) {
                    self.step_month(delta);
                }
                false
            },
            Some(Armed::Header(zone)) => {
                if hit.zone == Some(zone) {
                    match zone {
                        HeaderZone::Month => self.open_popup(Popup::Months),
                        HeaderZone::Year => self.open_popup(Popup::Years),
                    }
                }
                false
            },
            None => false,
        }
    }

    /// Escape closes the popup.
    pub fn key(&mut self, key: Key)
        ensures
            final(self)@ == if !old(self)@.disabled && key == Key::Escape {
                with_popup_closed(old(self)@)
            } else {
                old(self)@
            },
    {
        if self.s.disabled {
            return;
        }
        if key == Key::Escape {
            self.close_popup();
        }
    }
}

/// Stepping the viewed month by `a` and then by `b` is stepping by `a + b`;
/// a step lands on a month again.
pub proof fn lemma_steps_compose(year: int, month: int, a: int, b: int)
    requires
        1 <= month <= 12,
    ensures
        1 <= stepped(year, month, a).1 <= 12,
        stepped(stepped(year, month, a).0, stepped(year, month, a).1, b) == stepped(year, month, a + b),
{
    let t = month_index(year, month) + a;
    let (y1, m1) = stepped(year, month, a);
    assert(t == y1 * 12 + (m1 - 1)) by(nonlinear_arith)
        requires y1 == t / 12, m1 == t % 12 + 1;
}

/// Stepping by zero keeps the view; twelve steps move a year on.
pub proof fn lemma_step_zero_and_year(year: int, month: int)
    requires
        1 <= month <= 12,
    ensures
        stepped(year, month, 0) == (year, month),
        stepped(year, month, 12) == (year + 1, month),
        stepped(year, month, -12) == (year - 1, month),
{
    let t = month_index(year, month);
    assert(t / 12 == year && t % 12 == month - 1) by(nonlinear_arith)
        requires t == year * 12 + month - 1, 1 <= month <= 12;
    assert((t + 12) / 12 == year + 1 && (t + 12) % 12 == month - 1) by(nonlinear_arith)
        requires t == year * 12 + month - 1, 1 <= month <= 12;
    assert((t - 12) / 12 == year - 1 && (t - 12) % 12 == month - 1) by(nonlinear_arith)
        requires t == year * 12 + month - 1, 1 <= month <= 12;
}

/// Every day of the month sits in exactly the cell `cell_of_day` names,
/// and the grid holds no other day.
pub proof fn lemma_grid_cells(year: int, month: int, day: int, cell: int)
    requires
        1 <= month <= 12,
    ensures
        1 <= day <= month_length(year, month) ==> grid_day(year, month, grid_first(year, month) + day - 1)
            == Some(day),
        grid_day(year, month, cell) matches Some(d) ==> 1 <= d <= month_length(year, month) && cell
            == grid_first(year, month) + d - 1,
{
}

/// A click (press and release on the same cell) on a day of the viewed
/// month selects that day of that month.
pub proof fn lemma_day_click_selects(s: DatePickerState, cell: u32)
    requires
        !s.disabled,
        s.popup == Popup::Closed,
        grid_day(s.view_year as int, s.view_month as int, cell as int) is Some,
    ensures
        ({
            let hit = CalendarHit { cell: Some(cell), nav: None, zone: None, row: None };
            let d = grid_day(s.view_year as int, s.view_month as int, cell as int)->0;
            let after = after_release(after_press(s, hit), hit);
            &&& after.selected == (s.view_year, s.view_month, d as u32)
            &&& after.view_year == s.view_year
            &&& after.view_month == s.view_month
            &&& after.armed is None
        }),
{
    let hit = CalendarHit { cell: Some(cell), nav: None, zone: None, row: None };
    let d = grid_day(s.view_year as int, s.view_month as int, cell as int)->0;
    assert(d <= month_length(s.view_year as int, s.view_month as int));
    assert(d as u32 as int == d);
}

/// A click on a row of the open month list views that month and closes
/// the list; on the year list, that year.
pub proof fn lemma_popup_row_click_picks(s: DatePickerState, row: usize)
    requires
        !s.disabled,
        s.popup != Popup::Closed,
        row < popup_row_count(s.popup),
    ensures
        ({
            let hit = CalendarHit { cell: None, nav: None, zone: None, row: Some(row) };
            let after = after_release(after_press(s, hit), hit);
            &&& after.popup == Popup::Closed
            &&& s.popup == Popup::Months ==> after.view_month == row + 1 && after.view_year == s.view_year
            &&& s.popup == Popup::Years ==> after.view_year == DATE_YEAR_MIN + row && after.view_month
                == s.view_month
            &&& after.selected == s.selected
        }),
{
}

/// Every pointer step keeps the picker valid, whatever lies under the
/// pointer: the viewed month stays a month and the selection a real date.
pub proof fn lemma_pointer_steps_keep_valid(s: DatePickerState, hit: CalendarHit)
    requires
        s.wf(),
    ensures
        after_press(s, hit).wf(),
        after_release(s, hit).wf(),
        with_popup_closed(s).wf(),
{
    if !s.disabled && s.popup == Popup::Closed {
        match s.armed {
            Some(Armed::Nav(delta)) => {
                lemma_steps_compose(s.view_year as int, s.view_month as int, delta as int, 0);
            },
            Some(Armed::Day(d)) => {
                if hit_day(s, hit) == Some(d as int) {
                    let c = hit.cell->0 as int;
                    lemma_grid_cells(s.view_year as int, s.view_month as int, d as int, c);
                }
            },
            _ => {},
        }
    }
}

/// With a popup list open, a release changes the viewed month or year
/// only when it lands on the row the press armed; then it views exactly
/// that row's month (or year). Any other release leaves the view as it
/// was.
pub proof fn lemma_popup_picks_only_armed_row(s: DatePickerState, hit: CalendarHit)
    requires
        !s.disabled,
        s.popup != Popup::Closed,
    ensures
        !(s.armed_row is Some && popup_row(s.popup, hit.row) == s.armed_row) ==> after_release(s, hit).view_month
            == s.view_month && after_release(s, hit).view_year == s.view_year,
        s.armed_row is Some && popup_row(s.popup, hit.row) == s.armed_row ==> ({
            let r = s.armed_row->0;
            let after = after_release(s, hit);
            &&& after.popup == Popup::Closed
            &&& s.popup == Popup::Months ==> after.view_month == r + 1 && after.view_year == s.view_year
            &&& s.popup == Popup::Years ==> after.view_year == DATE_YEAR_MIN + r && after.view_month == s.view_month
        }),
        after_release(s, hit).selected == s.selected,
{
}

} // verus!
