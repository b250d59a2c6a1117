use tontoo_ui::menus::{ContextMenu, Menu, MenuEntry, MenuItem, MenuRole, MenuVecExt};

#[test]
fn menu_builder() {
    let m = Menu::new("Test").item("A").divider().item_with_desc("B", "desc");
    assert_eq!(m.len(), 3);
}

#[test]
fn context_builder() {
    let c: ContextMenu<&str, &str> = ContextMenu::new("Hi").item("A").divider();
    assert_eq!(c.len(), 2);
}

#[test]
fn entries_keep_their_content() {
    let m = Menu::new("File")
        .item_with_icon("Open", "folder")
        .section("Edit", |v| v.push_item("Undo").push_item_desc("Redo", "again"))
        .submenu_with("Share", |v| v.push_item_icon("Mail", "envelope"))
        .submenu("More", vec![MenuEntry::Divider])
        .section_items(None, Vec::new())
        .item_full(MenuItem::new("Delete").description("forever").destructive());
    assert_eq!(m.label(), "File");
    assert_eq!(m.len(), 6);
    let e = m.entry_list();
    match &e[0] {
        MenuEntry::Item(i) => {
            assert_eq!(i.label, "Open");
            assert_eq!(i.icon.as_deref(), Some("folder"));
            assert_eq!(i.description, None);
            assert_eq!(i.role, MenuRole::Default);
        },
        _ => panic!("item expected"),
    }
    match &e[1] {
        MenuEntry::Section { title, items } => {
            assert_eq!(title.as_deref(), Some("Edit"));
            assert_eq!(items.len(), 2);
        },
        _ => panic!("section expected"),
    }
    match &e[2] {
        MenuEntry::Submenu { title, items } => {
            assert_eq!(title, "Share");
            assert_eq!(items.len(), 1);
        },
        _ => panic!("submenu expected"),
    }
    match &e[5] {
        MenuEntry::Item(i) => {
            assert_eq!(i.role, MenuRole::Destructive);
            assert_eq!(i.description.as_deref(), Some("forever"));
        },
        _ => panic!("item expected"),
    }
}

#[test]
fn context_menu_preview_and_entries() {
    let c: ContextMenu<u8, &str> = ContextMenu::new(7).item_with_desc("A", "a").preview("Custom Preview");
    assert_eq!(*c.child(), 7);
    assert_eq!(c.preview_element(), &Some("Custom Preview"));
    let c = c.entries(vec![MenuEntry::Divider]).entry(MenuEntry::Divider);
    assert_eq!(c.len(), 2);
}
