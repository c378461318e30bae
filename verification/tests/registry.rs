use dobby::registry::{DeviceRegistry, SightingKind};
use dobby::Device;

fn names(registry: &DeviceRegistry) -> Vec<String> {
    registry.device_names()
}

#[test]
fn a_new_registry_is_empty() {
    let registry = DeviceRegistry::new();
    assert!(registry.is_empty());
    assert_eq!(registry.len(), 0);
    assert!(registry.get(0).is_none());
    assert!(!registry.contains("dev1"));
    assert_eq!(registry.uptime_of("dev1"), None);
    assert!(names(&registry).is_empty());
}

#[test]
fn device_holds_a_name_and_an_uptime() {
    let device = Device { name: "dev1".to_string(), uptime: 1000 };
    assert_eq!(device.name, "dev1");
    assert_eq!(device.uptime, 1000);
}

#[test]
fn same_heartbeat_twice_is_first_sighting_then_update() {
    let mut registry = DeviceRegistry::new();
    assert_eq!(registry.observe("dev1", 1000), SightingKind::FirstSighting);
    assert_eq!(registry.observe("dev1", 1000), SightingKind::Update);
    assert_eq!(registry.len(), 1);
    assert_eq!(registry.uptime_of("dev1"), Some(1000));
}

#[test]
fn stored_uptime_is_the_latest_reported() {
    let mut registry = DeviceRegistry::new();
    registry.observe("dev1", 1000);
    registry.observe("dev1", 5000);
    assert_eq!(registry.uptime_of("dev1"), Some(5000));
    // uptimes are taken as reported, also when they go down
    assert_eq!(registry.observe("dev1", 10), SightingKind::Update);
    assert_eq!(registry.uptime_of("dev1"), Some(10));
    assert_eq!(registry.len(), 1);
}

#[test]
fn first_sightings_keep_their_order_whatever_updates_interleave() {
    let mut registry = DeviceRegistry::new();
    let heartbeats = [
        ("c", 1), ("a", 2), ("c", 3), ("b", 4), ("a", 5), ("c", 6), ("d", 7), ("b", 8), ("a", 9),
    ];
    let mut kinds = Vec::new();
    for (name, uptime) in heartbeats {
        kinds.push(registry.observe(name, uptime));
    }
    let first = SightingKind::FirstSighting;
    let update = SightingKind::Update;
    assert_eq!(
        kinds,
        vec![first, first, update, first, update, update, first, update, update]
    );
    assert_eq!(names(&registry), vec!["c", "a", "b", "d"]);
    assert_eq!(registry.uptime_of("c"), Some(6));
    assert_eq!(registry.uptime_of("a"), Some(9));
    assert_eq!(registry.uptime_of("b"), Some(8));
    assert_eq!(registry.uptime_of("d"), Some(7));
    assert_eq!(registry.len(), 4);
}

#[test]
fn entries_are_reached_by_index_in_order() {
    let mut registry = DeviceRegistry::new();
    registry.observe("dev1", 1000);
    registry.observe("dev2", 2000);
    registry.observe("dev1", 5000);
    let first = registry.get(0).unwrap();
    assert_eq!((first.name.as_str(), first.uptime), ("dev1", 5000));
    let second = registry.get(1).unwrap();
    assert_eq!((second.name.as_str(), second.uptime), ("dev2", 2000));
    assert!(registry.get(2).is_none());
}

#[test]
fn identifiers_are_matched_exactly() {
    let mut registry = DeviceRegistry::new();
    assert_eq!(registry.observe("Dev1", 1), SightingKind::FirstSighting);
    assert_eq!(registry.observe("dev1", 2), SightingKind::FirstSighting);
    assert_eq!(registry.observe("dev1 ", 3), SightingKind::FirstSighting);
    assert_eq!(registry.observe("", 4), SightingKind::FirstSighting);
    assert_eq!(registry.observe("", 5), SightingKind::Update);
    assert_eq!(names(&registry), vec!["Dev1", "dev1", "dev1 ", ""]);
    assert!(registry.contains("Dev1"));
    assert!(!registry.contains("DEV1"));
    assert_eq!(registry.uptime_of("Dev1"), Some(1));
    assert_eq!(registry.uptime_of("dev1"), Some(2));
    assert_eq!(registry.uptime_of(""), Some(5));
}
