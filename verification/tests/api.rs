use holikeyz::api::{
    brightness_state, check_temperature, kelvin_request, lights_body, power_state,
    temperature_state, RingLightClient,
};
use holikeyz::error::HolikeyzError;
use holikeyz::models::{LightResponse, LightState};

#[test]
fn client_addresses() {
    let c = RingLightClient::new("192.168.1.5", 9123);
    assert_eq!(c.base_url, "http://192.168.1.5:9123/elgato");
    assert_eq!(c.lights_url(), "http://192.168.1.5:9123/elgato/lights");
    assert_eq!(c.accessory_info_url(), "http://192.168.1.5:9123/elgato/accessory-info");
    assert_eq!(c.settings_url(), "http://192.168.1.5:9123/elgato/settings");
    assert_eq!(c.identify_url(), "http://192.168.1.5:9123/elgato/identify");
    assert_eq!(RingLightClient::new("h", 0).base_url, "http://h:0/elgato");
}

#[test]
fn status_codes() {
    let c = RingLightClient::new("10.0.0.1", 9123);
    assert_eq!(c.check_status(200), Ok(()));
    assert_eq!(c.check_status(404), Err(HolikeyzError::DeviceNotFound("http://10.0.0.1:9123/elgato".to_string())));
    assert!(c.check_status(204).is_err());
}

#[test]
fn request_states() {
    let body = lights_body(LightState { on: 1, brightness: 3, temperature: 200 });
    assert_eq!(body.number_of_lights, 1);
    assert_eq!(body.lights, vec![LightState { on: 1, brightness: 3, temperature: 200 }]);
    let empty = LightResponse { number_of_lights: 0, lights: vec![] };
    assert_eq!(power_state(&empty, true), LightState { on: 1, brightness: 50, temperature: 213 });
    let one = LightResponse { number_of_lights: 1, lights: vec![LightState { on: 1, brightness: 30, temperature: 300 }] };
    assert_eq!(power_state(&one, false), LightState { on: 0, brightness: 30, temperature: 300 });
    assert_eq!(temperature_state(&one, 150), LightState { on: 1, brightness: 30, temperature: 150 });
    assert_eq!(temperature_state(&empty, 150), LightState { on: 0, brightness: 50, temperature: 150 });
}

#[test]
fn request_checks() {
    assert_eq!(brightness_state(101), Err(HolikeyzError::InvalidBrightness(101)));
    assert_eq!(brightness_state(40), Ok(LightState { on: 1, brightness: 40, temperature: 213 }));
    assert_eq!(check_temperature(142), Err(HolikeyzError::InvalidTemperature(142)));
    assert_eq!(check_temperature(345), Err(HolikeyzError::InvalidTemperature(345)));
    assert_eq!(check_temperature(143), Ok(()));
    assert_eq!(check_temperature(344), Ok(()));
    assert_eq!(kelvin_request(5000), 241);
    assert_eq!(kelvin_request(100), 344);
}

#[test]
fn error_messages() {
    assert_eq!(HolikeyzError::InvalidTemperature(400).message(), "Invalid temperature value: 400 (must be between 143-344)");
    assert_eq!(HolikeyzError::InvalidBrightness(101).message(), "Invalid brightness value: 101 (must be between 0-100)");
    assert_eq!(HolikeyzError::DeviceNotFound("http://x/elgato".to_string()).message(), "Device not found at http://x/elgato");
    assert_eq!(HolikeyzError::RequestError("timeout".to_string()).message(), "HTTP request failed: timeout");
}
