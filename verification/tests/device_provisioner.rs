use holikeyz::provisioning::device_provisioner::{
    elgato_device_info, elgato_outcome, generic_device_info, generic_outcome, provisioning_payload,
    ElgatoDeviceResponse, ElgatoProvisioner, GenericProvisioner, ProvisionError,
};
use holikeyz::provisioning::wifi_manager::InterfaceInfo;
use holikeyz::provisioning::{ProvisioningStatus, SecurityType, WiFiCredentials};

fn creds(t: SecurityType, pw: Option<&str>) -> WiFiCredentials {
    WiFiCredentials { ssid: "Home".to_string(), password: pw.map(|p| p.to_string()), security_type: t, hidden: false }
}

#[test]
fn payload_security_codes() {
    let codes = [
        (SecurityType::Open, 0u8),
        (SecurityType::WEP, 1),
        (SecurityType::WPA, 2),
        (SecurityType::WPA2, 3),
        (SecurityType::WPA3, 4),
    ];
    for (t, code) in codes {
        let p = provisioning_payload(&creds(t, Some("pw"))).unwrap();
        assert_eq!(p.security, code);
        assert_eq!(p.priority, 1);
        assert_eq!(p.ssid, "Home");
        assert_eq!(p.pass, "pw");
    }
    assert_eq!(provisioning_payload(&creds(SecurityType::Open, None)).unwrap().pass, "");
    let e = provisioning_payload(&creds(SecurityType::Enterprise, Some("x"))).unwrap_err();
    assert_eq!(e, ProvisionError::EnterpriseNotSupported);
    assert_eq!(e.message(), "Enterprise security not supported");
}

#[test]
fn light_provisioner_addresses() {
    let mut p = ElgatoProvisioner::new();
    assert_eq!(p.wifi_manager.interface, "wlan0");
    assert_eq!(p.wifi_update_url(), Err(ProvisionError::DeviceIpNotSet));
    assert_eq!(ProvisionError::DeviceIpNotSet.message(), "Device IP not set");
    assert_eq!(p.device_ap_joined(), [192, 168, 4, 1]);
    assert_eq!(p.wifi_update_url().unwrap(), "http://192.168.4.1:9123/elgato/wifi/update");
    assert_eq!(p.accessory_info_url().unwrap(), "http://192.168.4.1:9123/elgato/accessory-info");
    assert_eq!(p.start_soft_ap(), Err(ProvisionError::OwnSoftAp));
    assert_eq!(ProvisionError::OwnSoftAp.message(), "Elgato devices create their own Soft AP");
    let c = ElgatoProvisioner::device_ap_credentials("Elgato Ring Light 1");
    assert_eq!(c.security_type, SecurityType::Open);
    assert!(c.password.is_none());
}

#[test]
fn provisioning_outcomes() {
    let ok = elgato_outcome("s".to_string(), true);
    assert_eq!(ok.status, ProvisioningStatus::Success);
    assert_eq!(ok.message, Some("Device successfully provisioned".to_string()));
    let bad = elgato_outcome("s".to_string(), false);
    assert_eq!(bad.status, ProvisioningStatus::Failed);
    assert_eq!(bad.message, Some("Failed to verify device connection".to_string()));
    assert_eq!(generic_outcome("g".to_string(), true).message, Some("Successfully connected to network".to_string()));
    assert_eq!(generic_outcome("g".to_string(), false).status, ProvisioningStatus::Failed);
}

#[test]
fn device_information() {
    let d = elgato_device_info(ElgatoDeviceResponse {
        product_name: "Ring Light".to_string(),
        hardware_board_type: 53,
        firmware_build_number: 200,
        firmware_version: "1.0.3".to_string(),
        serial_number: "SN1".to_string(),
        display_name: "".to_string(),
    });
    assert_eq!(d.device_id, "SN1");
    assert_eq!(d.manufacturer, "Elgato");
    assert_eq!(d.capabilities, vec!["brightness", "temperature", "on_off"]);
    let g = generic_device_info(InterfaceInfo {
        interface: "wlan0".to_string(),
        mac_address: "aa:bb".to_string(),
        ip_address: None,
    });
    assert_eq!(g.device_id, "aa:bb");
    assert_eq!(g.device_type, "Generic Device");
    assert!(g.capabilities.is_empty());
}

#[test]
fn generic_access_point() {
    let c = GenericProvisioner::soft_ap_config("Setup", Some("password1"));
    assert_eq!(c.ssid, "Setup");
    assert_eq!(c.password, Some("password1".to_string()));
    assert_eq!(c.interface, "wlan0");
    assert_eq!(c.dhcp_range_end, [192, 168, 4, 200]);
    assert_eq!(GenericProvisioner::new().wifi_manager.interface, "wlan0");
}
