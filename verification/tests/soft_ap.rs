use holikeyz::provisioning::soft_ap::{supports_access_point, SoftAPConfig, SoftAPManager, SoftApError};

const BASE: &str = "interface=wlan0\ndriver=nl80211\nssid=Holikeyz-Setup\nhw_mode=g\nchannel=6\nmacaddr_acl=0\nauth_algs=1\nignore_broadcast_ssid=0\n";

#[test]
fn default_access_point() {
    let c = SoftAPConfig::default();
    assert_eq!(c.interface, "wlan0");
    assert_eq!(c.ssid, "Holikeyz-Setup");
    assert_eq!(c.ip_address, [192, 168, 4, 1]);
    assert_eq!(c.channel, 6);
    let m = SoftAPManager::new(c);
    assert!(!m.hostapd_running && !m.dnsmasq_running);
    assert_eq!(m.generate_hostapd_config().unwrap(), BASE);
    assert_eq!(m.interface_address(), "192.168.4.1/24");
}

#[test]
fn secured_access_point() {
    let mut c = SoftAPConfig::default();
    c.password = Some("secret123".to_string());
    let m = SoftAPManager::new(c);
    let expected = format!(
        "{}wpa=2\nwpa_passphrase=secret123\nwpa_key_mgmt=WPA-PSK\nwpa_pairwise=TKIP\nrsn_pairwise=CCMP\n",
        BASE
    );
    assert_eq!(m.generate_hostapd_config().unwrap(), expected);
}

#[test]
fn short_password_refused() {
    for (pw, ok) in [("short", false), ("ééé", false), ("éééé", true), ("12345678", true), ("", false)] {
        let mut c = SoftAPConfig::default();
        c.password = Some(pw.to_string());
        let r = SoftAPManager::new(c).generate_hostapd_config();
        assert_eq!(r.is_ok(), ok, "{:?}", pw);
        if !ok {
            assert_eq!(r.unwrap_err(), SoftApError::PasswordTooShort);
        }
    }
    assert_eq!(SoftApError::PasswordTooShort.message(), "WiFi password must be at least 8 characters");
}

#[test]
fn dnsmasq_configuration() {
    let m = SoftAPManager::new(SoftAPConfig::default());
    assert_eq!(
        m.generate_dnsmasq_config(),
        "interface=wlan0\nbind-interfaces\ndhcp-range=192.168.4.100,192.168.4.200,12h\ndhcp-option=3,192.168.4.1\ndhcp-option=6,192.168.4.1\nserver=8.8.8.8\nserver=8.8.4.4\nlog-queries\nlog-dhcp\n"
    );
}

#[test]
fn access_point_capability() {
    assert!(supports_access_point("Supported interface modes:\n\t * managed\n\t * AP\n"));
    assert!(!supports_access_point("Supported interface modes:\n\t * managed\n"));
}
