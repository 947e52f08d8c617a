use holikeyz::config::ActiveLight;
use holikeyz::light_service::{scene_preset, settings_report, LightAction, LightService, ServiceError};
use holikeyz::models::{LightResponse, LightState, Settings};

fn service() -> LightService {
    LightService::new(Some(ActiveLight { ip: "10.0.0.5".to_string(), port: 9123 }))
}

#[test]
fn no_active_light_refuses_commands() {
    let mut s = LightService::new(None);
    assert_eq!(s.get_active_light(), (String::new(), 0));
    assert_eq!(s.turn_on(), Err(ServiceError::NoActiveLight));
    assert_eq!(s.set_brightness(50), Err(ServiceError::NoActiveLight));
    assert_eq!(s.set_brightness(150), Err(ServiceError::InvalidBrightness));
    assert_eq!(s.identify(), Err(ServiceError::NoActiveLight));
    assert_eq!(
        ServiceError::NoActiveLight.message(),
        "no active light \u{2014} call Discover then SetActiveLight"
    );
}

#[test]
fn active_light_selection() {
    let mut s = LightService::new(None);
    assert_eq!(s.set_active_light("  ".to_string(), 1), Err(ServiceError::EmptyIp));
    assert_eq!(ServiceError::EmptyIp.message(), "IP must not be empty");
    assert_eq!(s.set_active_light("10.0.0.9".to_string(), 9000), Ok(true));
    assert_eq!(s.get_active_light(), ("10.0.0.9".to_string(), 9000));
}

#[test]
fn status_reads_back_commands() {
    let mut s = service();
    assert_eq!(s.get_status(), (false, 50, 5572));
    assert_eq!(s.turn_on(), Ok(LightAction::TurnOnAll));
    assert_eq!(s.get_status(), (true, 50, 5572));
    assert_eq!(
        s.set_brightness(80),
        Ok(LightAction::SetLights(LightState { on: 1, brightness: 80, temperature: 213 }))
    );
    assert_eq!(s.set_temperature(2899), Err(ServiceError::InvalidTemperature));
    assert_eq!(ServiceError::InvalidTemperature.message(), "Temperature must be 2900-7000K");
    assert_eq!(
        s.set_temperature(5000),
        Ok(LightAction::SetLights(LightState { on: 1, brightness: 80, temperature: 241 }))
    );
    assert_eq!(s.get_status(), (true, 80, 5001));
    assert_eq!(s.toggle(), Ok(LightAction::TurnOffAll));
    assert_eq!(s.get_status().0, false);
    assert_eq!(s.toggle_light(0), Ok(LightAction::TurnOnLight(0)));
    assert_eq!(s.get_status().0, true);
}

#[test]
fn scenes_of_the_service() {
    let mut s = service();
    assert_eq!(s.apply_scene("party"), Err(ServiceError::UnknownScene("party".to_string())));
    assert_eq!(ServiceError::UnknownScene("party".to_string()).message(), "Unknown scene: party");
    assert_eq!(
        s.apply_scene("daylight"),
        Ok(LightAction::SetLights(LightState { on: 1, brightness: 80, temperature: 212 }))
    );
    assert_eq!(s.get_status(), (true, 80, 5593));
    assert_eq!(scene_preset("relax"), Some((40, 2900)));
    assert_eq!(scene_preset("Relax"), None);
}

#[test]
fn refresh_and_per_light_status() {
    let mut s = service();
    s.refresh(&LightResponse {
        number_of_lights: 2,
        lights: vec![
            LightState { on: 1, brightness: 10, temperature: 143 },
            LightState { on: 0, brightness: 20, temperature: 344 },
        ],
    });
    assert_eq!(s.get_num_lights(), 2);
    assert_eq!(s.get_light_status(1), Ok((false, 20, 2900)));
    assert_eq!(s.get_light_status(2), Err(ServiceError::LightIndexOutOfRange(2)));
    assert_eq!(ServiceError::LightIndexOutOfRange(2).message(), "Light index 2 out of range");
    let (on, b, k) = s.get_all_lights_status();
    assert_eq!(on, vec![true, false]);
    assert_eq!(b, vec![10, 20]);
    assert_eq!(k, vec![7000, 2900]);
    assert_eq!(s.turn_off_light(Some(0)), Ok(LightAction::TurnOffLight(0)));
    assert_eq!(s.get_light_status(0), Ok((false, 10, 7000)));
    assert_eq!(s.set_brightness_light(60, Some(5)), Ok(LightAction::Nothing));
}

#[test]
fn settings_in_kelvin() {
    let mut s = service();
    assert_eq!(s.cached_settings(), Ok(None));
    let r = s.set_settings(1, 30, 5000, 100, 200, 300).unwrap();
    let expected = Settings {
        power_on_behavior: 1,
        power_on_brightness: 30,
        power_on_temperature: 241,
        switch_on_duration_ms: 100,
        switch_off_duration_ms: 200,
        color_change_duration_ms: 300,
    };
    assert_eq!(r, LightAction::SetSettings(expected));
    assert_eq!(s.cached_settings(), Ok(Some(expected)));
    assert_eq!(settings_report(&expected), (1, 30, 5001, 100, 200, 300));
}
