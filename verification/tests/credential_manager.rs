use holikeyz::provisioning::credential_manager::{
    saved_network_credentials, security_for_choice, system_network_from_details,
    wireless_connection_names, SavedCredentials, SavedNetwork,
};
use holikeyz::provisioning::SecurityType;

fn net(ssid: &str, pw: Option<&str>, sec: &str) -> SavedNetwork {
    SavedNetwork {
        ssid: ssid.to_string(),
        password: pw.map(|p| p.to_string()),
        security_type: sec.to_string(),
        last_used: Some(5),
        auto_connect: true,
    }
}

#[test]
fn saved_network_read_back() {
    let mut c = SavedCredentials::new();
    assert!(c.get_network("Home").is_none());
    c.add_network(net("Home", Some("pw1"), "WPA2"));
    c.add_network(net("Cafe", None, "Open"));
    c.add_network(net("Home", Some("pw2"), "WPA3"));
    let home = c.get_network("Home").unwrap();
    assert_eq!(home.password, Some("pw2".to_string()));
    assert_eq!(home.security_type, "WPA3");
    let mut names = c.list_networks();
    names.sort();
    assert_eq!(names, vec!["Cafe".to_string(), "Home".to_string()]);
    c.remove_network("Home");
    assert!(c.get_network("Home").is_none());
    assert!(c.get_network("Cafe").is_some());
    c.remove_network("Nowhere");
    assert_eq!(c.list_networks(), vec!["Cafe".to_string()]);
}

#[test]
fn saved_under_other_name() {
    let mut c = SavedCredentials::new();
    c.insert("alias".to_string(), net("Real", None, "Open"));
    assert_eq!(c.get_network("alias").unwrap().ssid, "Real");
    assert!(c.get_network("Real").is_none());
}

#[test]
fn saved_security_names() {
    let c = saved_network_credentials(net("N", Some("p"), "WEP"));
    assert_eq!(c.security_type, SecurityType::WEP);
    assert_eq!(c.password, Some("p".to_string()));
    assert!(!c.hidden);
    assert_eq!(saved_network_credentials(net("N", None, "Enterprise")).security_type, SecurityType::WPA2);
    assert_eq!(saved_network_credentials(net("N", None, "Open")).security_type, SecurityType::Open);
    assert_eq!(saved_network_credentials(net("N", None, "wpa3")).security_type, SecurityType::WPA2);
}

#[test]
fn prompt_choices() {
    assert_eq!(security_for_choice(0), SecurityType::WPA2);
    assert_eq!(security_for_choice(1), SecurityType::WPA3);
    assert_eq!(security_for_choice(2), SecurityType::Open);
    assert_eq!(security_for_choice(3), SecurityType::WEP);
    assert_eq!(security_for_choice(9), SecurityType::WPA2);
}

#[test]
fn system_networks() {
    let names = wireless_connection_names("Home:802-11-wireless\nWired:802-3-ethernet\nCafe:802-11-wireless\n");
    assert_eq!(names, vec!["Home".to_string(), "Cafe".to_string()]);
    let n = system_network_from_details(
        "802-11-wireless.ssid:Home\n802-11-wireless-security.key-mgmt:wpa-psk\n",
    )
    .unwrap();
    assert_eq!(n.ssid, "Home");
    assert_eq!(n.security_type, "wpa-psk");
    assert_eq!(n.password, None);
    assert_eq!(n.last_used, None);
    assert!(n.auto_connect);
    assert!(system_network_from_details("802-11-wireless.ssid:\n").is_none());
    let open = system_network_from_details("802-11-wireless.ssid:Open Net\n").unwrap();
    assert_eq!(open.security_type, "");
}
