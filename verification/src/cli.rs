//! The decisions of the command-line controller: the scene table, what a
//! toggle does, and how settings given on the command line are merged.
use crate::models::{kelvin_to_api_spec, LightResponse, LightState, Settings};
use vstd::prelude::*;

verus! {

/// A scene of the command-line controller.
#[derive(Debug, Clone, Copy, PartialEq, Eq, Structural)]
pub enum Scene {
    Daylight,
    Warm,
    Cool,
    Reading,
    Video,
    Relax,
    Custom { brightness: u8, kelvin: u32 },
}

/// The brightness (%) and temperature (Kelvin) of a scene: the presets, or
/// the custom values.
pub open spec fn scene_values_spec(scene: Scene) -> (u8, u32) {
    match scene {
        Scene::Daylight => (80, 5600),
        Scene::Warm => (60, 3200),
        Scene::Cool => (70, 6500),
        Scene::Reading => (90, 4500),
        Scene::Video => (75, 5000),
        Scene::Relax => (40, 2900),
        Scene::Custom { brightness, kelvin } => (brightness, kelvin),
    }
}

/// The brightness and temperature of a scene.
pub fn scene_values(scene: Scene) -> (r: (u8, u32))
    ensures
        r == scene_values_spec(scene),
{
    match scene {
        Scene::Daylight => (80, 5600),
        Scene::Warm => (60, 3200),
        Scene::Cool => (70, 6500),
        Scene::Reading => (90, 4500),
        Scene::Video => (75, 5000),
        Scene::Relax => (40, 2900),
        Scene::Custom { brightness, kelvin } => (brightness, kelvin),
    }
}

/// The state that applies a scene: the first reported light (or a fresh
/// state), on, at the scene's brightness and temperature.
pub fn scene_state(current: &LightResponse, brightness: u8, kelvin: u32) -> (s: LightState)
    ensures
        s == (LightState {
            on: 1,
            brightness,
            temperature: kelvin_to_api_spec(kelvin as int) as u16,
        }),
{
    let mut state = if current.lights.len() > 0 {
        current.lights[0]
    } else {
        LightState::new()
    };
    state.set_on(true);
    state.brightness = brightness;
    state.temperature = LightState::kelvin_to_api(kelvin);
    state
}

/// What a toggle does: switch on when the first light is off, off when it
/// is on; nothing when the device reports no light.
pub fn toggle_target(current: &LightResponse) -> (r: Option<bool>)
    ensures
        current.lights@.len() == 0 ==> r is None,
        current.lights@.len() > 0 ==> r == Some(current.lights@[0].on != 1),
{
    if current.lights.len() > 0 {
        Some(!current.lights[0].is_on())
    } else {
        None
    }
}

/// Settings given on the command line; those left out keep their value.
#[derive(Debug, Clone, Copy, PartialEq, Eq, Structural)]
pub struct SettingsUpdate {
    pub power_on_behavior: Option<u8>,
    pub power_on_brightness: Option<u8>,
    pub power_on_temperature: Option<u16>,
    pub switch_on_duration: Option<u32>,
    pub switch_off_duration: Option<u32>,
    pub color_change_duration: Option<u32>,
}

pub open spec fn or_keep<T>(v: Option<T>, old: T) -> T {
    match v {
        Some(x) => x,
        None => old,
    }
}

/// The settings after an update.
pub open spec fn updated_settings_spec(s: Settings, u: SettingsUpdate) -> Settings {
    Settings {
        power_on_behavior: or_keep(u.power_on_behavior, s.power_on_behavior),
        power_on_brightness: or_keep(u.power_on_brightness, s.power_on_brightness),
        power_on_temperature: or_keep(u.power_on_temperature, s.power_on_temperature),
        switch_on_duration_ms: or_keep(u.switch_on_duration, s.switch_on_duration_ms),
        switch_off_duration_ms: or_keep(u.switch_off_duration, s.switch_off_duration_ms),
        color_change_duration_ms: or_keep(u.color_change_duration, s.color_change_duration_ms),
    }
}

/// Applies an update to the device's settings.
pub fn updated_settings(settings: Settings, update: SettingsUpdate) -> (r: Settings)
    ensures
        r == updated_settings_spec(settings, update),
{
    let mut s = settings;
    if let Some(v) = update.power_on_behavior {
        s.power_on_behavior = v;
    }
    if let Some(v) = update.power_on_brightness {
        s.power_on_brightness = v;
    }
    if let Some(v) = update.power_on_temperature {
        s.power_on_temperature = v;
    }
    if let Some(v) = update.switch_on_duration {
        s.switch_on_duration_ms = v;
    }
    if let Some(v) = update.switch_off_duration {
        s.switch_off_duration_ms = v;
    }
    if let Some(v) = update.color_change_duration {
        s.color_change_duration_ms = v;
    }
    s
}

/// An empty update leaves the settings as they are, and applying an update
/// twice is the same as once.
pub proof fn law_settings_update(s: Settings, u: SettingsUpdate)
    ensures
        updated_settings_spec(
            s,
            SettingsUpdate {
                power_on_behavior: None,
                power_on_brightness: None,
                power_on_temperature: None,
                switch_on_duration: None,
                switch_off_duration: None,
                color_change_duration: None,
            },
        ) == s,
        updated_settings_spec(updated_settings_spec(s, u), u) == updated_settings_spec(s, u),
{
}

} // verus!

verus! {

/// The named scenes of the command line are the presets of the desktop
/// service.
pub proof fn law_cli_scenes_are_service_presets()
    ensures
        crate::light_service::scene_spec("daylight"@) == Some(scene_values_spec(Scene::Daylight)),
        crate::light_service::scene_spec("warm"@) == Some(scene_values_spec(Scene::Warm)),
        crate::light_service::scene_spec("cool"@) == Some(scene_values_spec(Scene::Cool)),
        crate::light_service::scene_spec("reading"@) == Some(scene_values_spec(Scene::Reading)),
        crate::light_service::scene_spec("video"@) == Some(scene_values_spec(Scene::Video)),
        crate::light_service::scene_spec("relax"@) == Some(scene_values_spec(Scene::Relax)),
{
    reveal_strlit("daylight");
    reveal_strlit("warm");
    reveal_strlit("cool");
    reveal_strlit("reading");
    reveal_strlit("video");
    reveal_strlit("relax");
    assert("warm"@.len() == 4 && "cool"@.len() == 4 && "video"@.len() == 5 && "relax"@.len() == 5);
    assert("daylight"@.len() == 8 && "reading"@.len() == 7);
    assert("cool"@[0] != "warm"@[0]);
    assert("relax"@[0] != "video"@[0]);
}

} // verus!
