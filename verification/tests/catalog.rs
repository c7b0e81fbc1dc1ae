use vibebar::catalog::Catalog;
use vibebar::engine::OutputEvent;
use vibebar::item::IconDescriptor;
use vibebar::item::RawPixmap;
use vibebar::item::ResolvedIcon;

fn pixmap_descriptor() -> IconDescriptor {
    IconDescriptor {
        pixmap: Some(vec![RawPixmap { width: 1, height: 1, pixels: vec![9, 1, 2, 3] }]),
        icon_name: None,
        icon_theme_path: None,
    }
}

fn add_event(address: &str) -> OutputEvent {
    OutputEvent::Add { address: String::from(address), icon: pixmap_descriptor() }
}

#[test]
fn add_creates_entry_with_hover_down() {
    let mut catalog = Catalog::new();
    catalog.apply(add_event(":1.1"));
    assert_eq!(catalog.len(), 1);
    let entry = catalog.get(0);
    assert_eq!(entry.address, ":1.1");
    assert!(!entry.hovered);
    match &entry.icon {
        Some(ResolvedIcon::Raster { width, height, rgba }) => {
            assert_eq!((*width, *height), (1, 1));
            assert_eq!(*rgba, vec![1, 2, 3, 9]);
        }
        other => panic!("expected a raster icon, got {:?}", other),
    }
}

#[test]
fn adding_twice_equals_adding_once_except_hover_survives() {
    let mut once = Catalog::new();
    once.apply(add_event(":1.1"));

    let mut twice = Catalog::new();
    twice.apply(add_event(":1.1"));
    twice.apply(add_event(":1.1"));

    assert_eq!(twice.len(), 1);
    assert_eq!(twice.get(0), once.get(0));

    // A hover flag set between the two passes survives the second one.
    let mut hovered = Catalog::new();
    hovered.apply(add_event(":1.1"));
    hovered.set_hovered(&String::from(":1.1"), true);
    hovered.apply(add_event(":1.1"));
    assert_eq!(hovered.len(), 1);
    assert!(hovered.get(0).hovered);
    assert_eq!(hovered.get(0).icon, once.get(0).icon);
}

#[test]
fn update_replaces_icon_and_keeps_hover() {
    let mut catalog = Catalog::new();
    catalog.apply(add_event(":1.1"));
    catalog.set_hovered(&String::from(":1.1"), true);

    let update = OutputEvent::Update {
        address: String::from(":1.1"),
        icon: IconDescriptor {
            pixmap: Some(vec![RawPixmap { width: 1, height: 1, pixels: vec![8, 7, 6, 5] }]),
            icon_name: None,
            icon_theme_path: None,
        },
    };
    catalog.apply(update);
    assert_eq!(catalog.len(), 1);
    let entry = catalog.get(0);
    assert!(entry.hovered);
    match &entry.icon {
        Some(ResolvedIcon::Raster { rgba, .. }) => assert_eq!(*rgba, vec![7, 6, 5, 8]),
        other => panic!("expected the replacement icon, got {:?}", other),
    }
}

#[test]
fn remove_deletes_only_the_matching_entry() {
    let mut catalog = Catalog::new();
    catalog.apply(add_event(":1.1"));
    catalog.apply(add_event(":1.2"));
    assert_eq!(catalog.len(), 2);

    catalog.apply(OutputEvent::Remove { address: String::from(":1.1") });
    assert_eq!(catalog.len(), 1);
    assert_eq!(catalog.get(0).address, ":1.2");
    assert!(!catalog.contains(&String::from(":1.1")));
    assert!(catalog.contains(&String::from(":1.2")));

    // Removing an absent address changes nothing.
    catalog.apply(OutputEvent::Remove { address: String::from(":1.9") });
    assert_eq!(catalog.len(), 1);
}

#[test]
fn tick_is_a_no_op() {
    let mut catalog = Catalog::new();
    catalog.apply(add_event(":1.1"));
    catalog.apply(OutputEvent::Tick);
    assert_eq!(catalog.len(), 1);
    assert_eq!(catalog.get(0).address, ":1.1");
}

#[test]
fn hover_on_absent_address_is_a_no_op() {
    let mut catalog = Catalog::new();
    catalog.set_hovered(&String::from(":1.1"), true);
    assert_eq!(catalog.len(), 0);
}

#[test]
fn named_icon_without_theme_hit_still_creates_entry() {
    // One item with an icon name, no pixmap and no theme path: whether an
    // icon resolves depends on the installed themes, but the entry itself
    // always appears, with the hover flag down.
    let mut catalog = Catalog::new();
    catalog.apply(OutputEvent::Add {
        address: String::from(":1.3"),
        icon: IconDescriptor {
            pixmap: None,
            icon_name: Some(String::from("vibebar-test-no-such-icon")),
            icon_theme_path: None,
        },
    });
    assert_eq!(catalog.len(), 1);
    let entry = catalog.get(0);
    assert_eq!(entry.address, ":1.3");
    assert!(!entry.hovered);
}
