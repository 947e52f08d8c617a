use holikeyz::discovery::{find_light_by_ip, DiscoveryEvent, LightRegistry};

#[test]
fn registry_follows_announcements() {
    let mut r = LightRegistry::new();
    r.handle_event(DiscoveryEvent::Resolved {
        fullname: "a._elg._tcp.local.".to_string(),
        addresses: vec!["192.168.1.9".to_string(), "192.168.1.10".to_string()],
        port: 9123,
    });
    r.handle_event(DiscoveryEvent::Resolved {
        fullname: "b._elg._tcp.local.".to_string(),
        addresses: vec![],
        port: 9123,
    });
    r.handle_event(DiscoveryEvent::Resolved {
        fullname: "c._elg._tcp.local.".to_string(),
        addresses: vec!["192.168.1.11".to_string()],
        port: 9000,
    });
    r.handle_event(DiscoveryEvent::Other);
    r.handle_event(DiscoveryEvent::Resolved {
        fullname: "a._elg._tcp.local.".to_string(),
        addresses: vec!["192.168.1.12".to_string()],
        port: 9124,
    });
    r.handle_event(DiscoveryEvent::Removed { fullname: "c._elg._tcp.local.".to_string() });
    let lights = r.into_lights();
    assert_eq!(lights.len(), 1);
    assert_eq!(lights[0].name, "a._elg._tcp.local.");
    assert_eq!(lights[0].ip, "192.168.1.12");
    assert_eq!(lights[0].port, 9124);
    assert!(lights[0].state.is_none() && lights[0].accessory_info.is_none());
}

#[test]
fn light_by_address() {
    let l = find_light_by_ip("10.0.0.1", 9123);
    assert_eq!(l.name, "ring-light-10.0.0.1");
    assert_eq!(l.ip, "10.0.0.1");
    assert_eq!(l.port, 9123);
    assert!(l.state.is_none());
}
