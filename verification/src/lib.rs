//! Verified core of the TontooUI element library: calendar arithmetic,
//! the discrete state of the pickers, menus, outline groups, sidebar and
//! sheets, and the store product data model.

pub mod calendar;
pub mod date_picker;
pub mod input;
pub mod options;
pub mod inline_picker;
pub mod segmented_picker;
pub mod menu;
pub mod menu_picker;
pub mod outline;
pub mod nested_menu;
pub mod menu_button;
pub mod store_product;
pub mod stepper;
pub mod sheet;
pub mod sidebar;
pub mod context_menu;
pub mod decimal;
pub mod menus;
