use aes::Aes256;
use cbc::cipher::{block_padding::NoPadding, BlockDecryptMut, KeyIvInit};
use holikeyz::provisioning::elgato::{
    encrypt_wifi_credentials, encrypt_wifi_credentials_with, filter_light_networks,
    generate_encryption_key, wifi_provisioning_body, ElgatoDeviceInfo, ElgatoError, ElgatoProvisioner,
    HexError,
};
use holikeyz::provisioning::{ProvisioningStatus, SecurityType, WiFiCredentials, WiFiNetwork};

fn info(hw: u32, fw: u32) -> ElgatoDeviceInfo {
    ElgatoDeviceInfo {
        product_name: "Elgato Ring Light".to_string(),
        hardware_board_type: hw,
        mac_address: "3C:6A:9D:00:00:01".to_string(),
        firmware_build_number: fw,
        firmware_version: "1.0.3".to_string(),
        serial_number: "SN".to_string(),
        display_name: "".to_string(),
        features: vec!["lights".to_string()],
        wifi_info: None,
    }
}

fn creds(t: SecurityType, pw: Option<&str>) -> WiFiCredentials {
    WiFiCredentials { ssid: "Home".to_string(), password: pw.map(|p| p.to_string()), security_type: t, hidden: false }
}

const KEY64: &str = "00112233445566778899aabbccddeeff00112233445566778899aabbccddeeff";

#[test]
fn key_from_board_and_firmware() {
    assert_eq!(generate_encryption_key(&info(53, 3098)), "4CB43500B0EADDEEEB2A038A311a0c56");
    assert_eq!(generate_encryption_key(&info(0, 0)), "4CB40000B0EADDEEEB2A038A31000056");
    assert_eq!(generate_encryption_key(&info(0x12345, 1)), "4CB434512B0EADDEEEB2A038A31010056");
}

#[test]
fn payload_is_encrypted_under_the_key() {
    let prefix = [7u8; 16];
    let out = encrypt_wifi_credentials_with(&creds(SecurityType::WPA2, Some("pw")), KEY64, &prefix).unwrap();
    let json = br#"{"SSID":"Home","Passphrase":"pw","SecurityType":"2"}"#;
    let mut expected = prefix.to_vec();
    expected.extend_from_slice(json);
    let pad = 16 - json.len() % 16;
    expected.extend(std::iter::repeat(pad as u8).take(pad));
    assert_eq!(out.len(), expected.len());
    assert_ne!(out, expected);
    let key = hex::decode(KEY64).unwrap();
    let iv = hex::decode("049F6F1149C6F84B1B14913C71E9CDBE").unwrap();
    let mut buf = out.clone();
    let plain = cbc::Decryptor::<Aes256>::new_from_slices(&key, &iv)
        .unwrap()
        .decrypt_padded_mut::<NoPadding>(&mut buf)
        .unwrap()
        .to_vec();
    assert_eq!(plain, expected);
}

#[test]
fn random_prefix_differs() {
    let c = creds(SecurityType::Open, None);
    let a = encrypt_wifi_credentials(&c, KEY64).unwrap();
    let b = encrypt_wifi_credentials(&c, KEY64).unwrap();
    assert_eq!(a.len(), b.len());
    assert_ne!(a, b);
}

#[test]
fn payload_errors() {
    let c = creds(SecurityType::Enterprise, Some("x"));
    assert_eq!(encrypt_wifi_credentials(&c, KEY64), Err(ElgatoError::EnterpriseNotSupported));
    let w = creds(SecurityType::WPA, Some("x"));
    assert_eq!(encrypt_wifi_credentials(&w, "abc"), Err(ElgatoError::Hex(HexError::OddLength)));
    assert_eq!(
        encrypt_wifi_credentials(&w, "zz"),
        Err(ElgatoError::Hex(HexError::InvalidHexCharacter { c: 'z', index: 0 }))
    );
    assert_eq!(encrypt_wifi_credentials(&w, "00ff"), Err(ElgatoError::InvalidKeyLength(2)));
}

#[test]
fn body_is_encrypted_under_the_derived_key() {
    let r = wifi_provisioning_body(&info(53, 3098), &creds(SecurityType::WPA2, Some("pw"))).unwrap();
    let json = br#"{"SSID":"Home","Passphrase":"pw","SecurityType":"2"}"#;
    let pad = 16 - json.len() % 16;
    assert_eq!(r.len(), 16 + json.len() + pad);
    let key = b"4CB43500B0EADDEEEB2A038A311a0c56";
    let iv = hex::decode("049F6F1149C6F84B1B14913C71E9CDBE").unwrap();
    let mut buf = r.clone();
    let plain = cbc::Decryptor::<Aes256>::new_from_slices(key, &iv)
        .unwrap()
        .decrypt_padded_mut::<NoPadding>(&mut buf)
        .unwrap()
        .to_vec();
    assert_eq!(&plain[16..16 + json.len()], &json[..]);
    assert!(plain[16 + json.len()..].iter().all(|b| *b as usize == pad));
    let e = wifi_provisioning_body(&info(53, 3098), &creds(SecurityType::Enterprise, None));
    assert_eq!(e, Err(ElgatoError::EnterpriseNotSupported));
    let long = wifi_provisioning_body(&info(0x12345, 1), &creds(SecurityType::Open, None));
    assert_eq!(long, Err(ElgatoError::InvalidKeyLength(33)));
}

fn network(ssid: &str) -> WiFiNetwork {
    WiFiNetwork { ssid: ssid.to_string(), bssid: None, signal_strength: -40, security_type: SecurityType::Open, frequency: 2437, channel: 6 }
}

#[test]
fn light_networks_kept_in_order() {
    let kept = filter_light_networks(vec![
        network("Elgato Key Light 1"),
        network("Home"),
        network("Elgato Ring Light 2"),
        network("Elgato Light Strip"),
    ]);
    let ssids: Vec<&str> = kept.iter().map(|n| n.ssid.as_str()).collect();
    assert_eq!(ssids, vec!["Elgato Key Light 1", "Elgato Ring Light 2"]);
}

#[test]
fn light_provisioner_urls() {
    let p = ElgatoProvisioner::new();
    assert_eq!(p.device_ip, [192, 168, 62, 1]);
    assert_eq!(p.lights_url(), "http://192.168.62.1:9123/elgato/lights");
    assert_eq!(p.wifi_info_url(), "http://192.168.62.1:9123/elgato/wifi-info");
    assert_eq!(
        ElgatoProvisioner::accessory_info_url_at([10, 123, 45, 1]),
        "http://10.123.45.1:9123/elgato/accessory-info"
    );
    assert_eq!(
        ElgatoProvisioner::probe_addresses(),
        vec![[192, 168, 62, 1], [192, 168, 4, 1], [10, 123, 45, 1], [172, 16, 0, 1]]
    );
    let d = ElgatoProvisioner::service_device_info(info(1, 2));
    assert_eq!(d.mac_address, "3C:6A:9D:00:00:01");
    assert_eq!(d.capabilities, vec!["lights".to_string()]);
    let r = ElgatoProvisioner::provisioned_response("s".to_string());
    assert_eq!(r.status, ProvisioningStatus::Success);
    assert_eq!(r.message, Some("Device provisioned successfully".to_string()));
}
