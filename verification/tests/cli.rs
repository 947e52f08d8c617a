use holikeyz::cli::{scene_state, scene_values, toggle_target, updated_settings, Scene, SettingsUpdate};
use holikeyz::light_service::scene_preset;
use holikeyz::models::{LightResponse, LightState, Settings};

#[test]
fn scene_table() {
    assert_eq!(scene_values(Scene::Daylight), (80, 5600));
    assert_eq!(scene_values(Scene::Warm), (60, 3200));
    assert_eq!(scene_values(Scene::Cool), (70, 6500));
    assert_eq!(scene_values(Scene::Reading), (90, 4500));
    assert_eq!(scene_values(Scene::Video), (75, 5000));
    assert_eq!(scene_values(Scene::Relax), (40, 2900));
    assert_eq!(scene_values(Scene::Custom { brightness: 5, kelvin: 4000 }), (5, 4000));
    for (s, name) in [(Scene::Daylight, "daylight"), (Scene::Warm, "warm"), (Scene::Cool, "cool"), (Scene::Reading, "reading"), (Scene::Video, "video"), (Scene::Relax, "relax")] {
        assert_eq!(Some(scene_values(s)), scene_preset(name));
    }
}

#[test]
fn scene_and_toggle_states() {
    let empty = LightResponse { number_of_lights: 0, lights: vec![] };
    assert_eq!(scene_state(&empty, 80, 5600), LightState { on: 1, brightness: 80, temperature: 212 });
    assert_eq!(toggle_target(&empty), None);
    let on = LightResponse { number_of_lights: 1, lights: vec![LightState { on: 1, brightness: 1, temperature: 150 }] };
    assert_eq!(toggle_target(&on), Some(false));
    let off = LightResponse { number_of_lights: 1, lights: vec![LightState { on: 0, brightness: 1, temperature: 150 }] };
    assert_eq!(toggle_target(&off), Some(true));
}

#[test]
fn settings_merge() {
    let s = Settings {
        power_on_behavior: 1,
        power_on_brightness: 2,
        power_on_temperature: 3,
        switch_on_duration_ms: 4,
        switch_off_duration_ms: 5,
        color_change_duration_ms: 6,
    };
    let none = SettingsUpdate {
        power_on_behavior: None,
        power_on_brightness: None,
        power_on_temperature: None,
        switch_on_duration: None,
        switch_off_duration: None,
        color_change_duration: None,
    };
    assert_eq!(updated_settings(s, none), s);
    let some = SettingsUpdate { power_on_brightness: Some(90), color_change_duration: Some(100), ..none };
    let u = updated_settings(s, some);
    assert_eq!(u, Settings { power_on_brightness: 90, color_change_duration_ms: 100, ..s });
    assert_eq!(updated_settings(u, some), u);
}
