use holikeyz::provisioning::api::{
    begin_provisioning, command_credentials, command_request, fallback_device_info,
    finish_provisioning, provisioner_kind, session_status, start_response, ProvisionerKind,
};
use holikeyz::provisioning::{
    DeviceInfo, IpAddress, ProvisioningManager, ProvisioningStatus, SecurityType, SessionError,
};

fn device() -> DeviceInfo {
    DeviceInfo {
        device_id: "d1".to_string(),
        device_type: "Ring Light".to_string(),
        manufacturer: "Elgato".to_string(),
        model: "M".to_string(),
        firmware_version: "1.0".to_string(),
        mac_address: "aa".to_string(),
        capabilities: vec!["on_off".to_string()],
    }
}

#[test]
fn sessions_live_and_end() {
    let mut m = ProvisioningManager::new();
    let id = m.create_session_with(device(), IpAddress::V4([192, 168, 4, 1]), "s1".to_string(), 42);
    assert_eq!(id, "s1");
    assert_eq!(m.current_session, Some("s1".to_string()));
    let s = m.get_session("s1").unwrap();
    assert_eq!(s.status, ProvisioningStatus::Pending);
    assert_eq!(s.started_at, 42);
    assert!(s.target_network.is_none());
    assert_eq!(m.update_session_status("s1", ProvisioningStatus::Configuring), Ok(()));
    assert_eq!(m.get_session("s1").unwrap().status, ProvisioningStatus::Configuring);
    assert_eq!(
        m.update_session_status("nope", ProvisioningStatus::Failed),
        Err(SessionError::NotFound("nope".to_string()))
    );
    assert_eq!(SessionError::NotFound("nope".to_string()).message(), "Session not found: nope");
    assert_eq!(m.complete_session("s1"), Ok(()));
    assert!(m.get_session("s1").is_none());
    assert_eq!(m.current_session, None);
    assert_eq!(m.complete_session("s1"), Ok(()));
}

#[test]
fn created_session_has_uuid_id() {
    let mut m = ProvisioningManager::new();
    let a = m.create_session(device(), IpAddress::V4([192, 168, 4, 1]));
    let b = m.create_session(device(), IpAddress::V4([192, 168, 4, 1]));
    assert_eq!(a.len(), 36);
    assert_eq!(a.matches('-').count(), 4);
    for (i, c) in a.chars().enumerate() {
        if [8, 13, 18, 23].contains(&i) {
            assert_eq!(c, '-');
        } else {
            assert!(c.is_ascii_hexdigit() && !c.is_ascii_uppercase());
        }
    }
    let s = m.get_session(&a).unwrap();
    assert_eq!(s.status, ProvisioningStatus::Pending);
    assert!(s.target_network.is_none());
    assert_ne!(a, b);
    assert_eq!(m.current_session, Some(b.clone()));
    assert!(m.get_session(&a).is_some());
}

#[test]
fn api_flow() {
    assert_eq!(provisioner_kind("elgato"), ProvisionerKind::Elgato);
    assert_eq!(provisioner_kind("ring_light"), ProvisionerKind::Elgato);
    assert_eq!(provisioner_kind("Elgato"), ProvisionerKind::Generic);
    let fb = fallback_device_info("lamp".to_string());
    assert_eq!(fb.device_id, "unknown");
    assert_eq!(fb.device_type, "lamp");
    assert_eq!(fb.mac_address, "00:00:00:00:00:00");
    let r = start_response("s".to_string(), Some("Elgato Ring Light 1".to_string()));
    assert_eq!(r.status, "ready");
    assert_eq!(r.connection_url, Some("Connect to WiFi network: Elgato Ring Light 1".to_string()));
    assert_eq!(start_response("s".to_string(), None).connection_url, None);

    let mut m = ProvisioningManager::new();
    m.create_session_with(device(), IpAddress::V4([192, 168, 4, 1]), "s1".to_string(), 0);
    assert!(begin_provisioning(&mut m, "zz").is_err());
    assert!(begin_provisioning(&mut m, "s1").is_ok());
    let st = session_status(&m, "s1").unwrap();
    assert_eq!(st.status, ProvisioningStatus::Connecting);
    assert_eq!(st.device_info.unwrap().capabilities, vec!["on_off".to_string()]);
    finish_provisioning(&mut m, "s1", ProvisioningStatus::Failed);
    assert_eq!(session_status(&m, "s1").unwrap().status, ProvisioningStatus::Failed);
    finish_provisioning(&mut m, "s1", ProvisioningStatus::Success);
    assert!(session_status(&m, "s1").is_none());
    assert_eq!(m.current_session, None);
}

#[test]
fn command_line_request() {
    let open = command_credentials("Net".to_string(), None, true).unwrap();
    assert_eq!(open.security_type, SecurityType::Open);
    let wpa = command_credentials("Net".to_string(), Some("pw".to_string()), false).unwrap();
    assert_eq!(wpa.security_type, SecurityType::WPA2);
    assert_eq!(wpa.password, Some("pw".to_string()));
    assert!(command_credentials("Net".to_string(), None, false).is_none());
    let req = command_request("s9".to_string(), wpa);
    assert_eq!(req.session_id, "s9");
    assert_eq!(req.device_name, Some("My Ring Light".to_string()));
    assert_eq!(req.timezone, Some("America/New_York".to_string()));
    assert_eq!(req.locale, Some("en_US".to_string()));
}
