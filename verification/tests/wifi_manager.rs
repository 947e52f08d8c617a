use holikeyz::provisioning::wifi_manager::{
    connection_name, parse_current_connection, parse_scan_output, parse_security_type,
    parse_wifi_interfaces, WiFiManager, WifiError,
};
use holikeyz::provisioning::{SecurityType, WiFiCredentials};

const SCAN: &str = "Home:b1:Infra:6:2437:54:70:WPA2 802.1X\n\
Cafe:b2:Infra:11:2462:54:85:--\n\
:b3:Infra:1:2412:54:90:WPA1\n\
Short:x\n\
Lab:b4:Infra:36:5180 MHz:54:70:WPA3\n";

#[test]
fn scan_output_is_parsed_and_sorted() {
    let nets = parse_scan_output(SCAN);
    let ssids: Vec<&str> = nets.iter().map(|n| n.ssid.as_str()).collect();
    assert_eq!(ssids, vec!["Cafe", "Home", "Lab"]);
    assert_eq!(nets[0].signal_strength, 85);
    assert_eq!(nets[0].security_type, SecurityType::Open);
    assert_eq!(nets[0].bssid, Some("b2".to_string()));
    assert_eq!(nets[0].frequency, 2462);
    assert_eq!(nets[0].channel, 11);
    assert_eq!(nets[1].security_type, SecurityType::WPA2);
    assert_eq!(nets[2].frequency, 0);
    assert_eq!(nets[2].channel, 36);
    assert_eq!(nets[2].security_type, SecurityType::WPA3);
}

#[test]
fn scan_numbers_that_do_not_parse_are_zero() {
    let nets = parse_scan_output("X:b:Infra:ch:freq:r:sig:WEP\r\n");
    assert_eq!(nets.len(), 1);
    assert_eq!((nets[0].signal_strength, nets[0].frequency, nets[0].channel), (0, 0, 0));
    assert_eq!(nets[0].security_type, SecurityType::WEP);
    assert!(parse_scan_output("").is_empty());
}

#[test]
fn scan_security_column() {
    assert_eq!(parse_security_type("WPA1 WPA2"), SecurityType::WPA2);
    assert_eq!(parse_security_type("WPA3"), SecurityType::WPA3);
    assert_eq!(parse_security_type("WPA1"), SecurityType::WPA);
    assert_eq!(parse_security_type("wep"), SecurityType::WEP);
    assert_eq!(parse_security_type("802.1X"), SecurityType::Enterprise);
    assert_eq!(parse_security_type(""), SecurityType::Open);
    assert_eq!(parse_security_type("--"), SecurityType::Open);
    assert_eq!(parse_security_type("OPEN"), SecurityType::Open);
    assert_eq!(parse_security_type("OWE"), SecurityType::WPA2);
}

#[test]
fn current_connection() {
    assert_eq!(parse_current_connection("GENERAL.CONNECTION:--\n"), None);
    assert_eq!(parse_current_connection("GENERAL.CONNECTION:\n"), None);
    assert_eq!(
        parse_current_connection("X:1\nGENERAL.CONNECTION:Home WiFi\nGENERAL.CONNECTION:Other\n"),
        Some("Home WiFi".to_string())
    );
    assert_eq!(parse_current_connection(""), None);
}

#[test]
fn interface_addresses() {
    let m = WiFiManager::new("wlan0".to_string());
    let out = "3: wlan0: <BROADCAST> mtu 1500\n    link/ether aa:bb:cc:dd:ee:ff brd ff:ff:ff:ff:ff:ff\n    inet 127.0.0.1/8 scope host lo\n    inet 192.168.1.20/24 brd 192.168.1.255 scope global wlan0\n    inet6 fe80::1/64 scope link\n";
    let info = m.interface_info(out);
    assert_eq!(info.interface, "wlan0");
    assert_eq!(info.mac_address, "aa:bb:cc:dd:ee:ff");
    assert_eq!(info.ip_address, Some("192.168.1.20".to_string()));
    let none = m.interface_info("2: wlan0: <NO-CARRIER>\n");
    assert_eq!(none.mac_address, "");
    assert_eq!(none.ip_address, None);
}

#[test]
fn wifi_interfaces() {
    let out = "wlan0:wifi\neth0:ethernet\nwlp2s0:wifi\nlo:loopback\n";
    assert_eq!(parse_wifi_interfaces(out), vec!["wlan0".to_string(), "wlp2s0".to_string()]);
}

fn creds(ssid: &str, password: Option<&str>, t: SecurityType) -> WiFiCredentials {
    WiFiCredentials { ssid: ssid.to_string(), password: password.map(|p| p.to_string()), security_type: t, hidden: false }
}

#[test]
fn connection_arguments() {
    let m = WiFiManager::new("wlan0".to_string());
    assert_eq!(connection_name("Home"), "provisioning-Home");
    let args = m.connection_add_args(&creds("Home", Some("pw"), SecurityType::WPA2)).unwrap();
    assert_eq!(
        args,
        vec![
            "connection", "add", "type", "wifi", "con-name", "provisioning-Home", "ifname", "wlan0",
            "ssid", "Home", "wifi-sec.key-mgmt", "wpa-psk", "wifi-sec.psk", "pw"
        ]
    );
    let open = m.connection_add_args(&creds("Free", None, SecurityType::Open)).unwrap();
    assert_eq!(open.len(), 10);
    let wep = m.connection_add_args(&creds("Old", Some("k"), SecurityType::WEP)).unwrap();
    assert_eq!(&wep[10..], &["wifi-sec.key-mgmt", "none", "wifi-sec.wep-key0", "k"]);
}

#[test]
fn connection_refusals() {
    let m = WiFiManager::new("wlan0".to_string());
    let e = m.connection_add_args(&creds("A", None, SecurityType::WPA3)).unwrap_err();
    assert!(matches!(e, WifiError::PasswordRequired));
    assert_eq!(e.message(), "Password required for secured network");
    let e = m.connection_add_args(&creds("A", None, SecurityType::WEP)).unwrap_err();
    assert!(matches!(e, WifiError::WepPasswordRequired));
    assert_eq!(e.message(), "Password required for WEP network");
    let e = m.connection_add_args(&creds("A", Some("x"), SecurityType::Enterprise)).unwrap_err();
    assert!(matches!(e, WifiError::EnterpriseNotSupported));
    assert_eq!(e.message(), "Enterprise networks not yet supported");
    assert_eq!(WifiError::CreateFailed("boom".to_string()).message(), "Failed to create connection: boom");
    assert_eq!(WifiError::ConnectFailed("no".to_string()).message(), "Failed to connect: no");
}
