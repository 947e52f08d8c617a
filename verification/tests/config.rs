use holikeyz::config::{active_config_path, resolve_active, ActiveLight, DEFAULT_PORT};

#[test]
fn explicit_ip_wins() {
    let saved = Some(ActiveLight { ip: "1.1.1.1".to_string(), port: 9000 });
    let a = resolve_active(Some("10.0.0.2"), None, saved, Some("2.2.2.2".to_string()), None).unwrap();
    assert_eq!(a, ActiveLight { ip: "10.0.0.2".to_string(), port: DEFAULT_PORT });
    let b = resolve_active(Some("10.0.0.2"), Some(1234), None, None, None).unwrap();
    assert_eq!(b.port, 1234);
}

#[test]
fn saved_light_next() {
    let saved = ActiveLight { ip: "1.1.1.1".to_string(), port: 9000 };
    let a = resolve_active(None, None, Some(saved.clone()), Some("2.2.2.2".to_string()), None).unwrap();
    assert_eq!(a, saved);
    let b = resolve_active(None, Some(5), Some(saved), None, None).unwrap();
    assert_eq!(b, ActiveLight { ip: "1.1.1.1".to_string(), port: 5 });
}

#[test]
fn environment_last() {
    let a = resolve_active(None, Some(7), None, Some("2.2.2.2".to_string()), Some("8080".to_string())).unwrap();
    assert_eq!(a, ActiveLight { ip: "2.2.2.2".to_string(), port: 7 });
    let e = resolve_active(None, None, None, Some("2.2.2.2".to_string()), Some("8080".to_string())).unwrap();
    assert_eq!(e, ActiveLight { ip: "2.2.2.2".to_string(), port: 8080 });
    let b = resolve_active(None, Some(7), None, Some("2.2.2.2".to_string()), Some("bad".to_string())).unwrap();
    assert_eq!(b.port, 7);
    let c = resolve_active(None, None, None, Some("2.2.2.2".to_string()), Some("70000".to_string())).unwrap();
    assert_eq!(c.port, DEFAULT_PORT);
    let d = resolve_active(None, None, None, Some("2.2.2.2".to_string()), Some("+80".to_string())).unwrap();
    assert_eq!(d.port, 80);
}

#[test]
fn nothing_configured() {
    assert_eq!(resolve_active(None, Some(1), None, None, Some("80".to_string())), None);
}

#[test]
fn config_path_under_home() {
    assert_eq!(active_config_path(Some("/home/u")), "/home/u/.config/holikeyz/active.json");
    assert_eq!(active_config_path(Some("/home/u/")), "/home/u/.config/holikeyz/active.json");
    assert_eq!(active_config_path(None), "./.config/holikeyz/active.json");
    assert_eq!(active_config_path(Some("")), ".config/holikeyz/active.json");
}
