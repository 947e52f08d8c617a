use holikeyz::provisioning::credential_manager::SavedNetwork;
use holikeyz::provisioning::elgato::{ElgatoLight, ElgatoLightState};
use holikeyz::provisioning::enhanced_manager::{
    apply_scene, command_frames, credentials_from_saved, discovered_devices, parse_security_type,
    saved_network_from_credentials, security_type_name, CommandType, DeviceType, LightCommand,
};
use holikeyz::provisioning::enhanced_manager::{
    first_provision_step, provision_step, ProvisionAction, ProvisionEvent, ProvisionFailure, ProvisionStage,
};
use holikeyz::models::LightInfo;
use holikeyz::provisioning::enhanced_manager::{ProvisionAction as A, ProvisionEvent as E};
use holikeyz::provisioning::{SecurityType, WiFiCredentials, WiFiNetwork};

fn state(lights: Vec<(u8, u8, u16)>) -> ElgatoLightState {
    ElgatoLightState {
        number_of_lights: lights.len() as u32,
        lights: lights.into_iter().map(|(on, brightness, temperature)| ElgatoLight { on, brightness, temperature }).collect(),
    }
}

fn cmd(t: CommandType) -> LightCommand {
    LightCommand { command_type: t, brightness: None, temperature: None, scene: None }
}

#[test]
fn device_types_from_ssid() {
    assert_eq!(DeviceType::from_ssid("Elgato Ring Light 1A2B"), DeviceType::ElgatoRingLight);
    assert_eq!(DeviceType::from_ssid("Elgato Key Light Air 9"), DeviceType::ElgatoKeyLightAir);
    assert_eq!(DeviceType::from_ssid("Elgato Key Light 9"), DeviceType::ElgatoKeyLight);
    assert_eq!(DeviceType::from_ssid("Home"), DeviceType::Unknown);
}

#[test]
fn scenes_by_name() {
    let mut s = state(vec![(0, 10, 300), (1, 20, 200)]);
    apply_scene(&mut s, "Daylight");
    assert_eq!(s.lights, vec![ElgatoLight { on: 1, brightness: 100, temperature: 143 }; 2]);
    apply_scene(&mut s, "EVENING");
    assert_eq!(s.lights[0], ElgatoLight { on: 1, brightness: 50, temperature: 320 });
    apply_scene(&mut s, "unknown");
    assert_eq!(s.lights[1], ElgatoLight { on: 1, brightness: 75, temperature: 230 });
    assert_eq!(s.number_of_lights, 2);
}

#[test]
fn simple_commands() {
    let s = state(vec![(0, 10, 300), (1, 20, 200)]);
    let f = command_frames(&s, &cmd(CommandType::Toggle));
    assert_eq!(f.len(), 1);
    assert_eq!(f[0].pause_ms, 0);
    assert_eq!(f[0].state.lights[0].on, 1);
    assert_eq!(f[0].state.lights[1].on, 0);
    let mut b = cmd(CommandType::SetBrightness);
    b.brightness = Some(300);
    assert_eq!(command_frames(&s, &b)[0].state.lights[0].brightness, 44);
    b.brightness = Some(150);
    assert_eq!(command_frames(&s, &b)[0].state.lights[0].brightness, 100);
    b.brightness = None;
    assert_eq!(command_frames(&s, &b)[0].state.lights, s.lights);
    let mut t = cmd(CommandType::SetTemperature);
    t.temperature = Some(65536 + 250);
    assert_eq!(command_frames(&s, &t)[0].state.lights[1].temperature, 250);
    let mut sc = cmd(CommandType::SetScene);
    sc.scene = Some("Relax".to_string());
    assert_eq!(command_frames(&s, &sc)[0].state.lights[0], ElgatoLight { on: 1, brightness: 60, temperature: 280 });
    assert_eq!(command_frames(&s, &cmd(CommandType::TurnOff))[0].state.lights[1].on, 0);
}

#[test]
fn effects() {
    let s = state(vec![(1, 3, 300)]);
    let fade_in = command_frames(&s, &cmd(CommandType::FadeIn));
    assert_eq!(fade_in.len(), 101);
    assert_eq!(fade_in[0].state.lights[0], ElgatoLight { on: 1, brightness: 0, temperature: 300 });
    assert_eq!(fade_in[100].state.lights[0].brightness, 100);
    assert!(fade_in.iter().all(|f| f.pause_ms == 20));
    let fade_out = command_frames(&s, &cmd(CommandType::FadeOut));
    let levels: Vec<u8> = fade_out.iter().map(|f| f.state.lights[0].brightness).collect();
    assert_eq!(levels, vec![3, 2, 1, 0]);
    let pulse = command_frames(&s, &cmd(CommandType::Pulse));
    let levels: Vec<u8> = pulse.iter().map(|f| f.state.lights[0].brightness).collect();
    assert_eq!(levels, vec![20, 100, 20, 100, 20, 100, 3]);
    assert_eq!(pulse[6].pause_ms, 0);
    let rainbow = command_frames(&s, &cmd(CommandType::Rainbow));
    let temps: Vec<u16> = rainbow.iter().map(|f| f.state.lights[0].temperature).collect();
    assert_eq!(temps, vec![143, 200, 250, 300, 344]);
}

fn network(ssid: &str, signal: i32, t: SecurityType) -> WiFiNetwork {
    WiFiNetwork { ssid: ssid.to_string(), bssid: Some("b".to_string()), signal_strength: signal, security_type: t, frequency: 0, channel: 0 }
}

#[test]
fn devices_from_scan() {
    let d = discovered_devices(vec![
        network("Elgato Key Light 1", -70, SecurityType::WPA2),
        network("Home", -30, SecurityType::WPA2),
        network("Elgato Ring Light 2", -50, SecurityType::Open),
        network("Elgato Ring Light 3", -70, SecurityType::Open),
    ], vec![]);
    let ssids: Vec<&str> = d.iter().map(|x| x.ssid.as_str()).collect();
    assert_eq!(ssids, vec!["Elgato Ring Light 2", "Elgato Key Light 1", "Elgato Ring Light 3"]);
    assert!(d[0].setup_mode);
    assert!(!d[1].setup_mode);
    assert_eq!(d[1].device_type, DeviceType::ElgatoKeyLight);
    assert!(d[0].mac_address.is_none());
}

#[test]
fn configured_lights_join_the_scan() {
    let light = |name: &str| LightInfo { ip: "10.0.0.5".to_string(), port: 9123, name: name.to_string(), state: None, accessory_info: None };
    let d = discovered_devices(
        vec![network("Elgato Key Light 1", -70, SecurityType::WPA2), network("Home", -30, SecurityType::WPA2)],
        vec![light("Elgato Ring Light A"), light("Office")],
    );
    let ssids: Vec<&str> = d.iter().map(|x| x.ssid.as_str()).collect();
    assert_eq!(ssids, vec!["Elgato Key Light 1", "Elgato Ring Light A", "Office"]);
    assert_eq!(d[1].device_type, DeviceType::ElgatoRingLight);
    assert_eq!(d[2].device_type, DeviceType::Unknown);
    assert!(!d[1].setup_mode);
    assert_eq!(d[1].signal_strength, i32::MIN);
    assert!(d[1].bssid.is_none());
}

#[test]
fn saved_security_round_trip() {
    for t in [SecurityType::Open, SecurityType::WEP, SecurityType::WPA, SecurityType::WPA2, SecurityType::WPA3, SecurityType::Enterprise] {
        assert_eq!(parse_security_type(&security_type_name(t)), t);
    }
    assert_eq!(parse_security_type("wpa2"), SecurityType::WPA2);
    let n = saved_network_from_credentials(
        WiFiCredentials { ssid: "Home".to_string(), password: Some("pw".to_string()), security_type: SecurityType::WPA3, hidden: false },
        77,
    );
    assert_eq!(n.security_type, "WPA3");
    assert_eq!(n.last_used, Some(77));
    assert!(n.auto_connect);
    let c = credentials_from_saved(SavedNetwork { ssid: "Work".to_string(), password: None, security_type: "Enterprise".to_string(), last_used: None, auto_connect: false });
    assert_eq!(c.security_type, SecurityType::Enterprise);
    assert_eq!(c.ssid, "Work");
}

fn run(connected: bool, use_saved: bool, events: &[ProvisionEvent]) -> Vec<ProvisionAction> {
    let (mut stage, action) = first_provision_step(connected, use_saved);
    let mut actions = vec![action];
    for e in events {
        let (s, a) = provision_step(stage, use_saved, *e);
        stage = s;
        actions.push(a);
    }
    actions
}

#[test]
fn provisioning_falls_back_to_encryption_and_restores() {
    let actions = run(
        false,
        true,
        &[E::Done, E::NotFound, E::Done, E::Answer(true), E::Done, E::Error, E::Done, E::Found, E::Done],
    );
    assert_eq!(
        actions,
        vec![
            A::Connect,
            A::LookUpSaved,
            A::Prompt,
            A::AskToSave,
            A::Save,
            A::TryDirect,
            A::TryEncrypted,
            A::CheckOriginalNetwork,
            A::ScheduleRestore,
            A::Succeed
        ]
    );
}

#[test]
fn provisioning_with_saved_credentials_and_no_original_network() {
    assert_eq!(run(true, true, &[E::Found, E::Done, E::NotFound]), vec![A::LookUpSaved, A::TryDirect, A::CheckOriginalNetwork, A::Succeed]);
    assert_eq!(run(true, false, &[E::Done, E::Done, E::NotFound]), vec![A::Prompt, A::TryDirect, A::CheckOriginalNetwork, A::Succeed]);
}

#[test]
fn provisioning_failures() {
    assert_eq!(
        run(true, false, &[E::Done, E::Error, E::Error, E::Done, E::Error]),
        vec![
            A::Prompt,
            A::TryDirect,
            A::TryEncrypted,
            A::CheckEndpoints,
            A::OpenWebInterface,
            A::Fail(ProvisionFailure::BothMethodsFailed)
        ]
    );
    assert_eq!(
        run(true, false, &[E::Done, E::Error, E::Error, E::Error, E::Done, E::Found, E::Done]),
        vec![
            A::Prompt,
            A::TryDirect,
            A::TryEncrypted,
            A::CheckEndpoints,
            A::OpenWebInterface,
            A::CheckOriginalNetwork,
            A::ScheduleRestore,
            A::Succeed
        ]
    );
    assert_eq!(run(false, true, &[E::Error]), vec![A::Connect, A::Fail(ProvisionFailure::StepFailed)]);
    assert_eq!(run(true, true, &[E::Found, E::NoProvisioner]), vec![A::LookUpSaved, A::TryDirect, A::Fail(ProvisionFailure::NoProvisioner)]);
    let (s, a) = provision_step(ProvisionStage::Succeeded, true, ProvisionEvent::Error);
    assert_eq!((s, a), (ProvisionStage::Succeeded, ProvisionAction::Succeed));
}
