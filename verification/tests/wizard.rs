use holikeyz::provisioning::elgato::{ElgatoLight, ElgatoLightState};
use holikeyz::provisioning::enhanced_manager::{CommandType, DeviceType, DiscoveredDevice, LightEdit};
use holikeyz::provisioning::{SecurityType, WiFiNetwork};
use holikeyz::wizard::{
    batch_devices, edit_first_light, light_command, menu_brightness, network_menu, picked_network,
    signal_level, signal_text, target_network_choices, test_commands, test_states, ControlCommand,
    SignalLevel,
};

fn device(ssid: &str, setup: bool) -> DiscoveredDevice {
    DiscoveredDevice { ssid: ssid.to_string(), bssid: None, signal_strength: -40, device_type: DeviceType::Unknown, setup_mode: setup, mac_address: None }
}

#[test]
fn signal_display() {
    assert_eq!(signal_level(-50), SignalLevel::Excellent);
    assert_eq!(signal_level(-60), SignalLevel::Good);
    assert_eq!(signal_level(-70), SignalLevel::Fair);
    assert_eq!(signal_level(-71), SignalLevel::Weak);
    assert_eq!(signal_text(-45), "-45 ████");
    assert_eq!(signal_text(-65), "-65 ██░░");
    assert_eq!(signal_text(-90), "-90 █░░░");
    assert_eq!(signal_text(5), "5 ████");
}

#[test]
fn target_choices() {
    let devices = vec![
        device("Home", false),
        device("Home", false),
        device("Elgato Ring Light", true),
        device("Cafe", false),
        device("Home", false),
    ];
    assert_eq!(target_network_choices(&devices), vec!["Home", "Cafe", "Home", "Enter manually..."]);
    assert_eq!(target_network_choices(&vec![]), vec!["Enter manually..."]);
}

#[test]
fn batch_choice() {
    let all = vec![device("a", true), device("b", false), device("c", true)];
    let setup: Vec<String> = batch_devices(all.clone(), true).into_iter().map(|d| d.ssid).collect();
    assert_eq!(setup, vec!["a", "c"]);
    assert_eq!(batch_devices(all, false).len(), 3);
}

#[test]
fn control_commands() {
    assert!(light_command(ControlCommand::Interactive).is_none());
    let b = light_command(ControlCommand::Brightness { value: 42 }).unwrap();
    assert_eq!(b.command_type, CommandType::SetBrightness);
    assert_eq!(b.brightness, Some(42));
    let t = light_command(ControlCommand::Temperature { value: 300 }).unwrap();
    assert_eq!(t.temperature, Some(300));
    let s = light_command(ControlCommand::Scene { name: "video".to_string() }).unwrap();
    assert_eq!(s.scene, Some("video".to_string()));
    assert_eq!(light_command(ControlCommand::Rainbow).unwrap().command_type, CommandType::Rainbow);
    let steps: Vec<CommandType> = test_commands().iter().map(|c| c.command_type).collect();
    assert_eq!(
        steps,
        vec![CommandType::TurnOff, CommandType::TurnOn, CommandType::SetBrightness, CommandType::SetTemperature, CommandType::SetTemperature]
    );
}

#[test]
fn light_test_and_menu_edits() {
    let original = ElgatoLightState {
        number_of_lights: 2,
        lights: vec![ElgatoLight { on: 1, brightness: 70, temperature: 250 }, ElgatoLight { on: 0, brightness: 5, temperature: 143 }],
    };
    let (off, half) = test_states(&original);
    assert_eq!(off.lights, vec![ElgatoLight { on: 0, brightness: 70, temperature: 250 }]);
    assert_eq!(half.lights, vec![ElgatoLight { on: 1, brightness: 50, temperature: 250 }]);
    let mut s = original.clone();
    edit_first_light(&mut s, LightEdit::SetBrightness(menu_brightness(200)));
    assert_eq!(s.lights[0].brightness, 100);
    assert_eq!(s.lights[1], original.lights[1]);
    assert_eq!(menu_brightness(30), 30);
}

fn net(ssid: &str, signal: i32) -> WiFiNetwork {
    WiFiNetwork { ssid: ssid.to_string(), bssid: None, signal_strength: signal, security_type: SecurityType::WPA2, frequency: 0, channel: 0 }
}

#[test]
fn provisioning_menu() {
    let nets: Vec<WiFiNetwork> = (0..12).map(|i| net(&format!("n{}", i), -40 - i)).collect();
    let menu = network_menu(&nets);
    assert_eq!(menu.len(), 11);
    assert_eq!(menu[0], "n0 (-40dBm)");
    assert_eq!(menu[10], "Enter manually...");
    assert_eq!(picked_network(&nets, 10), Some("n10".to_string()));
    let few = vec![net("a", -1)];
    assert_eq!(network_menu(&few), vec!["a (-1dBm)", "Enter manually..."]);
    assert_eq!(picked_network(&few, 1), None);
}
