use muda_win::{
    Error, IsMenuItem, Menu, MenuId, MenuItem, MenuItemKind, MenuStore, MenuTheme,
    PredefinedMenuItem, Submenu,
};

fn ids(items: &[MenuItemKind]) -> Vec<String> {
    items.iter().map(|i| i.id().as_str().to_string()).collect()
}

fn item(store: &mut MenuStore, id: &str) -> MenuItemKind {
    MenuItem::with_id(store, MenuId::new(id), id, true, None).kind()
}

#[test]
fn operations_match_a_reference_list() {
    let mut store = MenuStore::new();
    let menu = Menu::with_id(&mut store, MenuId::new("root"));
    let a = item(&mut store, "a");
    let b = item(&mut store, "b");
    let c = item(&mut store, "c");
    let d = item(&mut store, "d");
    let mut model: Vec<String> = Vec::new();

    menu.append(&mut store, &a).unwrap();
    model.push("a".into());
    menu.prepend(&mut store, &b).unwrap();
    model.insert(0, "b".into());
    menu.insert(&mut store, &c, 1).unwrap();
    model.insert(1, "c".into());
    menu.append(&mut store, &d).unwrap();
    model.push("d".into());
    assert_eq!(ids(&menu.items(&store)), model);

    menu.remove(&mut store, &c).unwrap();
    model.retain(|x| x != "c");
    assert_eq!(ids(&menu.items(&store)), model);

    let removed = menu.remove_at(&mut store, 0).unwrap();
    assert_eq!(removed.id().as_str(), "b");
    model.remove(0);
    assert_eq!(ids(&menu.items(&store)), model);
    assert_eq!(model, vec!["a".to_string(), "d".to_string()]);
}

#[test]
fn insert_past_end_appends() {
    let mut store = MenuStore::new();
    let a = item(&mut store, "a");
    let b = item(&mut store, "b");
    let x = item(&mut store, "x");
    for pos in [2usize, 3, 100, usize::MAX] {
        let inserted = Menu::with_id_and_items(&mut store, MenuId::new("m1"), &[a.clone(), b.clone()]).unwrap();
        let appended = Menu::with_id_and_items(&mut store, MenuId::new("m2"), &[a.clone(), b.clone()]).unwrap();
        inserted.insert(&mut store, &x, pos).unwrap();
        appended.append(&mut store, &x).unwrap();
        assert_eq!(ids(&inserted.items(&store)), ids(&appended.items(&store)));
        assert_eq!(ids(&inserted.items(&store)), vec!["a", "b", "x"]);
    }
}

#[test]
fn remove_absent_item_fails() {
    let mut store = MenuStore::new();
    let a = item(&mut store, "a");
    let b = item(&mut store, "b");
    let menu = Menu::with_id_and_items(&mut store, MenuId::new("m"), &[a.clone()]).unwrap();
    assert_eq!(menu.remove(&mut store, &b), Err(Error::NotAChildOfThisMenu));
    assert_eq!(ids(&menu.items(&store)), vec!["a"]);
    assert_eq!(menu.remove(&mut store, &a), Ok(()));
    assert!(menu.items(&store).is_empty());
    assert_eq!(menu.remove(&mut store, &a), Err(Error::NotAChildOfThisMenu));
}

#[test]
fn remove_at_in_and_out_of_range() {
    let mut store = MenuStore::new();
    let a = item(&mut store, "a");
    let b = item(&mut store, "b");
    let c = item(&mut store, "c");
    let menu = Menu::with_id_and_items(&mut store, MenuId::new("m"), &[a, b, c]).unwrap();
    assert!(menu.remove_at(&mut store, 3).is_none());
    assert!(menu.remove_at(&mut store, usize::MAX).is_none());
    assert_eq!(menu.items(&store).len(), 3);
    let got = menu.remove_at(&mut store, 1).unwrap();
    assert_eq!(got.id().as_str(), "b");
    assert_eq!(ids(&menu.items(&store)), vec!["a", "c"]);
}

#[test]
fn insert_items_and_prepend_items() {
    let mut store = MenuStore::new();
    let a = item(&mut store, "a");
    let b = item(&mut store, "b");
    let x = item(&mut store, "x");
    let y = item(&mut store, "y");
    let menu = Menu::with_id_and_items(&mut store, MenuId::new("m"), &[a, b]).unwrap();
    menu.insert_items(&mut store, &[x.clone(), y.clone()], 1).unwrap();
    assert_eq!(ids(&menu.items(&store)), vec!["a", "x", "y", "b"]);
    menu.prepend_items(&mut store, &[y, x]).unwrap();
    assert_eq!(ids(&menu.items(&store)), vec!["y", "x", "a", "x", "y", "b"]);
}

#[test]
fn submenu_operations() {
    let mut store = MenuStore::new();
    let a = item(&mut store, "a");
    let b = item(&mut store, "b");
    let sep = PredefinedMenuItem::separator(&mut store).kind();
    let sub = Submenu::with_items(&mut store, "File", true, &[a.clone()]).unwrap();
    sub.append(&mut store, &b).unwrap();
    sub.prepend(&mut store, &sep).unwrap();
    assert_eq!(ids(&sub.items(&store)), vec![sep.id().as_str(), "a", "b"]);
    sub.insert(&mut store, &a, 99).unwrap();
    assert_eq!(sub.items(&store).len(), 4);
    assert_eq!(sub.remove(&mut store, &a), Ok(()));
    assert_eq!(ids(&sub.items(&store)), vec![sep.id().as_str(), "b", "a"]);
    let got = sub.remove_at(&mut store, 0).unwrap();
    assert!(got.as_predefined_menuitem().is_some());
    assert!(sub.remove_at(&mut store, 2).is_none());
    let other = item(&mut store, "z");
    assert_eq!(sub.remove(&mut store, &other), Err(Error::NotAChildOfThisMenu));
    assert_eq!(store.text(&sub), "File");
}

#[test]
fn attach_detach_state_machine() {
    let mut store = MenuStore::new();
    let menu = Menu::new(&mut store);
    let w: isize = 42;
    assert_eq!(menu.hide_for_hwnd(&mut store, w), Err(Error::NotInitialized));
    assert_eq!(menu.show_for_hwnd(&mut store, w), Err(Error::NotInitialized));
    assert_eq!(menu.set_theme_for_hwnd(&mut store, w, MenuTheme::Dark), Err(Error::NotInitialized));
    assert_eq!(menu.remove_for_hwnd(&mut store, w), Err(Error::NotInitialized));
    assert!(!menu.is_visible_on_hwnd(&store, w));

    assert_eq!(menu.init_for_hwnd(&mut store, w), Ok(()));
    assert!(menu.is_visible_on_hwnd(&store, w));
    assert_eq!(menu.theme_for_hwnd(&store, w), Some(MenuTheme::Auto));
    assert_eq!(menu.init_for_hwnd(&mut store, w), Err(Error::AlreadyInitialized));
    assert_eq!(menu.init_for_hwnd_with_theme(&mut store, w, MenuTheme::Light), Err(Error::AlreadyInitialized));

    assert_eq!(menu.hide_for_hwnd(&mut store, w), Ok(()));
    assert!(!menu.is_visible_on_hwnd(&store, w));
    assert_eq!(menu.set_theme_for_hwnd(&mut store, w, MenuTheme::Dark), Ok(()));
    assert_eq!(menu.theme_for_hwnd(&store, w), Some(MenuTheme::Dark));
    assert_eq!(menu.show_for_hwnd(&mut store, w), Ok(()));
    assert!(menu.is_visible_on_hwnd(&store, w));

    assert_eq!(menu.remove_for_hwnd(&mut store, w), Ok(()));
    assert_eq!(menu.hide_for_hwnd(&mut store, w), Err(Error::NotInitialized));
    assert_eq!(menu.remove_for_hwnd(&mut store, w), Err(Error::NotInitialized));
    assert_eq!(menu.theme_for_hwnd(&store, w), None);

    assert_eq!(menu.init_for_hwnd_with_theme(&mut store, w, MenuTheme::Light), Ok(()));
    assert_eq!(menu.theme_for_hwnd(&store, w), Some(MenuTheme::Light));
}

#[test]
fn menu_ids_generated_and_given() {
    let mut store = MenuStore::new();
    let m1 = Menu::new(&mut store);
    let m2 = Menu::with_items(&mut store, &[]).unwrap();
    assert_eq!(m1.id().as_str(), "0");
    assert_eq!(m2.id().as_str(), "1");
    let m3 = Menu::with_id(&mut store, MenuId::new("main"));
    assert_eq!(m3.id().as_str(), "main");
}

#[test]
fn menu_clones_share_items() {
    let mut store = MenuStore::new();
    let a = item(&mut store, "a");
    let b = item(&mut store, "b");
    let m1 = Menu::with_id(&mut store, MenuId::new("bar"));
    let m2 = m1.clone();
    m1.append(&mut store, &a).unwrap();
    assert_eq!(ids(&m2.items(&store)), vec!["a"]);
    m2.prepend(&mut store, &b).unwrap();
    assert_eq!(ids(&m1.items(&store)), vec!["b", "a"]);
    assert_eq!(m1.id(), m2.id());
    m1.init_for_hwnd(&mut store, 3).unwrap();
    assert!(m2.is_visible_on_hwnd(&store, 3));
    let other = Menu::with_id(&mut store, MenuId::new("other"));
    assert!(other.items(&store).is_empty());
}
