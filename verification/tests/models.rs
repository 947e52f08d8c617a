use holikeyz::models::LightState;

fn float_kelvin_to_api(kelvin: u32) -> u16 {
    match kelvin {
        k if k >= 7000 => 143,
        k if k <= 2900 => 344,
        k => {
            let normalized = (7000.0 - k as f64) / (7000.0 - 2900.0);
            let api_value = 143.0 + (normalized * (344.0 - 143.0));
            api_value.round() as u16
        }
    }
}

fn float_api_to_kelvin(api_value: u16) -> u32 {
    match api_value {
        v if v <= 143 => 7000,
        v if v >= 344 => 2900,
        v => {
            let normalized = ((v - 143) as f64) / ((344 - 143) as f64);
            let kelvin = 7000.0 - (normalized * (7000.0 - 2900.0));
            kelvin.round() as u32
        }
    }
}

#[test]
fn new_light_state_defaults() {
    let s = LightState::new();
    assert_eq!(s.on, 0);
    assert_eq!(s.brightness, 50);
    assert_eq!(s.temperature, 213);
    assert!(!s.is_on());
}

#[test]
fn set_on_keeps_other_fields() {
    let mut s = LightState { on: 0, brightness: 12, temperature: 300 };
    s.set_on(true);
    assert!(s.is_on());
    assert_eq!((s.on, s.brightness, s.temperature), (1, 12, 300));
    s.set_on(false);
    assert_eq!(s.on, 0);
}

#[test]
fn kelvin_to_api_edges() {
    assert_eq!(LightState::kelvin_to_api(7000), 143);
    assert_eq!(LightState::kelvin_to_api(9000), 143);
    assert_eq!(LightState::kelvin_to_api(2900), 344);
    assert_eq!(LightState::kelvin_to_api(0), 344);
    assert_eq!(LightState::kelvin_to_api(5000), 241);
    assert_eq!(LightState::kelvin_to_api(5600), 212);
}

#[test]
fn api_to_kelvin_edges() {
    assert_eq!(LightState::api_to_kelvin(143), 7000);
    assert_eq!(LightState::api_to_kelvin(0), 7000);
    assert_eq!(LightState::api_to_kelvin(344), 2900);
    assert_eq!(LightState::api_to_kelvin(1000), 2900);
    assert_eq!(LightState::api_to_kelvin(213), 5572);
    assert_eq!(LightState::api_to_kelvin(241), 5001);
}

#[test]
fn conversions_match_floating_point_formula() {
    for k in 0..=12000u32 {
        assert_eq!(LightState::kelvin_to_api(k), float_kelvin_to_api(k), "kelvin {}", k);
    }
    for a in 0..=u16::MAX {
        assert_eq!(LightState::api_to_kelvin(a), float_api_to_kelvin(a), "api {}", a);
    }
}

#[test]
fn api_round_trip_is_exact() {
    for a in 143..=344u16 {
        assert_eq!(LightState::kelvin_to_api(LightState::api_to_kelvin(a)), a);
    }
}

#[test]
fn kelvin_round_trip_within_ten() {
    for k in 2900..=7000u32 {
        let back = LightState::api_to_kelvin(LightState::kelvin_to_api(k)) as i64;
        assert!((back - k as i64).abs() <= 10, "kelvin {}", k);
    }
}

#[test]
fn conversions_are_monotone() {
    for k in 2900..7000u32 {
        assert!(LightState::kelvin_to_api(k) >= LightState::kelvin_to_api(k + 1));
    }
    for a in 143..344u16 {
        assert!(LightState::api_to_kelvin(a) >= LightState::api_to_kelvin(a + 1));
    }
}
