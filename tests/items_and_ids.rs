use std::collections::HashSet;

use muda_win::{
    AboutMetadataBuilder, BadIcon, CheckMenuItem, Error, Icon, IconMenuItem, IsMenuItem, MenuId,
    MenuItem, MenuItemType, MenuStore, PredefinedMenuItem, PredefinedMenuItemType, Submenu,
};

#[test]
fn clones_share_state() {
    let mut store = MenuStore::new();
    let a = MenuItem::new(&mut store, "Save", true, Some("Ctrl+S"));
    let b = a.clone();
    store.set_enabled(&a, false);
    assert!(!store.is_enabled(&b));
    store.set_text(&b, "Save As");
    assert_eq!(store.text(&a), "Save As");
    let k = a.kind();
    store.set_enabled(&k, true);
    assert!(store.is_enabled(&b));
}

#[test]
fn generated_ids_are_distinct() {
    let mut store = MenuStore::new();
    let mut seen = HashSet::new();
    for i in 0..200 {
        let item = MenuItem::new(&mut store, "x", true, None);
        assert_eq!(item.id().as_str(), i.to_string());
        assert!(seen.insert(item.id().as_str().to_string()));
    }
    assert_eq!(seen.len(), 200);
    assert_eq!(MenuId::from_serial(1234567).as_str(), "1234567");
}

#[test]
fn check_and_icon_items() {
    let mut store = MenuStore::new();
    let c = CheckMenuItem::new(&mut store, "Wrap", true, true, None);
    assert!(store.is_checked(&c));
    store.set_checked(&c, false);
    assert!(!store.is_checked(&c.clone()));
    let icon = Icon::from_rgba(vec![0u8; 16], 2, 2).unwrap();
    assert_eq!((icon.width(), icon.height(), icon.rgba().len()), (2, 2, 16));
    let i = IconMenuItem::with_id(&mut store, MenuId::new("ico"), "Pic", false, Some(icon), None);
    assert_eq!(i.id().as_str(), "ico");
    assert!(!store.is_enabled(&i));
    store.set_icon(&i, None);
    assert_eq!(i.kind().item_kind(), MenuItemType::Icon);
}

#[test]
fn bad_icons() {
    assert_eq!(
        Icon::from_rgba(vec![0u8; 7], 1, 1).unwrap_err(),
        BadIcon::ByteCountNotDivisibleBy4 { byte_count: 7 }
    );
    assert_eq!(
        Icon::from_rgba(vec![0u8; 12], 2, 2).unwrap_err(),
        BadIcon::DimensionsVsPixelCount { width: 2, height: 2, width_x_height: 4, pixel_count: 3 }
    );
}

#[test]
fn kind_casts() {
    let mut store = MenuStore::new();
    let m = MenuItem::new(&mut store, "m", true, None).kind();
    let s = Submenu::new(&mut store, "s", true).kind();
    let p = PredefinedMenuItem::new(&mut store, PredefinedMenuItemType::Copy, None).kind();
    let c = CheckMenuItem::new(&mut store, "c", true, false, None).kind();
    let i = IconMenuItem::new(&mut store, "i", true, None, None).kind();
    assert!(m.as_menuitem().is_some() && m.as_submenu().is_none());
    assert!(s.as_submenu().is_some() && s.as_check_menuitem().is_none());
    assert!(p.as_predefined_menuitem().is_some() && p.as_icon_menuitem().is_none());
    assert!(c.as_check_menuitem().is_some() && c.as_menuitem().is_none());
    assert!(i.as_icon_menuitem().is_some() && i.as_predefined_menuitem().is_none());
    assert_eq!(m.as_menuitem_unchecked().id().as_str(), "0");
    assert_eq!(s.as_submenu_unchecked().id().as_str(), "1");
    assert_eq!(p.as_predefined_menuitem_unchecked().id().as_str(), "2");
    assert_eq!(c.as_check_menuitem_unchecked().id().as_str(), "3");
    assert_eq!(i.as_icon_menuitem_unchecked().id().as_str(), "4");
    assert_eq!(store.text(&p.as_predefined_menuitem_unchecked().clone()), "&Copy");
    assert_eq!(i.native_id(), 4);
    assert_eq!(c.clone().into_id().as_str(), "3");
}

#[test]
fn predefined_labels() {
    let mut store = MenuStore::new();
    let sep = PredefinedMenuItem::separator(&mut store);
    assert_eq!(store.text(&sep), "");
    let meta = AboutMetadataBuilder::new().name(Some("app")).build();
    let about = PredefinedMenuItem::about(&mut store, None, Some(meta));
    assert_eq!(store.text(&about), "&About");
    let quit = PredefinedMenuItem::new(&mut store, PredefinedMenuItemType::Quit, Some("Leave"));
    assert_eq!(store.text(&quit), "Leave");
}

#[test]
fn error_messages() {
    assert_eq!(
        Error::NotAChildOfThisMenu.message(),
        "This menu item is not a child of this `Menu` or `Submenu`"
    );
    assert_eq!(Error::NotInitialized.message(), "This menu has not been initialized for this hwnd");
    assert_eq!(
        Error::AlreadyInitialized.message(),
        "This menu has already been initialized for this hwnd"
    );
    assert_eq!(Error::AcceleratorParseError("bad key".into()).message(), "bad key");
}
