use std::cell::RefCell;
use std::rc::Rc;

use muda_win::{
    DeliveryMode, IsMenuItem, Menu, MenuEvent, MenuEventSink, MenuId, MenuItem, MenuStore,
};

fn ev(id: &str) -> MenuEvent {
    MenuEvent { id: MenuId::new(id) }
}

#[test]
fn queue_keeps_order() {
    let mut sink: MenuEventSink<fn(MenuEvent)> = MenuEventSink::new();
    assert!(sink.try_recv().is_none());
    MenuEvent::send(&mut sink, ev("e1"));
    MenuEvent::send(&mut sink, ev("e2"));
    MenuEvent::send(&mut sink, ev("e3"));
    assert_eq!(sink.try_recv().unwrap().id().as_str(), "e1");
    assert_eq!(sink.try_recv().unwrap().id().as_str(), "e2");
    assert_eq!(sink.try_recv().unwrap().id().as_str(), "e3");
    assert!(sink.try_recv().is_none());
}

#[test]
fn handler_takes_events_from_queue() {
    let seen: Rc<RefCell<Vec<String>>> = Rc::new(RefCell::new(Vec::new()));
    let log = seen.clone();
    let handler = move |e: MenuEvent| log.borrow_mut().push(e.id.as_str().to_string());
    let mut sink = MenuEventSink::new();
    assert!(MenuEvent::set_event_handler(&mut sink, Some(handler)));
    MenuEvent::send(&mut sink, ev("a"));
    MenuEvent::send(&mut sink, ev("b"));
    assert_eq!(*seen.borrow(), vec!["a".to_string(), "b".to_string()]);
    assert!(sink.try_recv().is_none());
}

#[test]
fn delivery_mode_is_latched() {
    let mut sink: MenuEventSink<fn(MenuEvent)> = MenuEventSink::new();
    MenuEvent::send(&mut sink, ev("first"));
    fn ignore(_: MenuEvent) {}
    assert!(!MenuEvent::set_event_handler(&mut sink, Some(ignore as fn(MenuEvent))));
    MenuEvent::send(&mut sink, ev("second"));
    assert_eq!(sink.try_recv().unwrap().id().as_str(), "first");
    assert_eq!(sink.try_recv().unwrap().id().as_str(), "second");

    let mut other: MenuEventSink<fn(MenuEvent)> = MenuEventSink::new();
    assert!(!MenuEvent::set_event_handler(&mut other, None));
    assert!(!MenuEvent::set_event_handler(&mut other, Some(ignore as fn(MenuEvent))));
}

#[test]
fn no_handler_leaves_the_queue_for_good() {
    let mut sink: MenuEventSink<fn(MenuEvent)> = MenuEventSink::new();
    assert!(!MenuEvent::set_event_handler(&mut sink, None));
    MenuEvent::send(&mut sink, ev("q"));
    assert!(sink.try_recv().is_none());
    fn ignore(_: MenuEvent) {}
    assert!(!MenuEvent::set_event_handler(&mut sink, Some(ignore as fn(MenuEvent))));
    MenuEvent::send(&mut sink, ev("r"));
    assert!(sink.try_recv().is_none());
    let _ = DeliveryMode::Disabled;
}

#[test]
fn activation_reaches_the_sink() {
    let mut store = MenuStore::new();
    let a = MenuItem::new(&mut store, "File", true, None);
    let b = MenuItem::new(&mut store, "Edit", true, None);
    let menu = Menu::with_items(&mut store, &[a.kind(), b.kind()]).unwrap();
    let w: isize = 7;
    let mut sink: MenuEventSink<fn(MenuEvent)> = MenuEventSink::new();
    assert!(!menu.dispatch_command(&store, &mut sink, w, a.native_id()));
    assert!(sink.try_recv().is_none());
    menu.init_for_hwnd(&mut store, w).unwrap();
    assert!(menu.dispatch_command(&store, &mut sink, w, a.native_id()));
    let got = sink.try_recv().unwrap();
    assert_eq!(got.id(), a.id());
    assert_ne!(got.id(), b.id());
    assert!(sink.try_recv().is_none());
    assert!(!menu.dispatch_command(&store, &mut sink, w, 999));
    assert!(menu.command_event(&store, 8, b.native_id()).is_none());
}
