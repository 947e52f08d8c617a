use holikeyz::provisioning::elgato_fixed::{
    debug_endpoints, first_step, next_step, wifi_config_wrapper, DirectProvisionError,
    ElgatoDirectProvisioner, MethodOutcome, ProvisionMethod, ProvisionStep,
};
use holikeyz::provisioning::elgato_web::{web_interface_reachable, ElgatoWebProvisioner};

#[test]
fn direct_provisioner_urls() {
    assert_eq!(ElgatoDirectProvisioner::new().device_ip, "192.168.62.1");
    let p = ElgatoDirectProvisioner::with_ip("10.0.0.7");
    assert_eq!(p.url("/elgato/wifi-info"), "http://10.0.0.7:9123/elgato/wifi-info");
    assert_eq!(debug_endpoints().len(), 6);
    let w = wifi_config_wrapper("Home", "pw");
    assert_eq!(w.number_of_wifi_configs, 1);
    assert_eq!(w.wifi_configs[0].ssid, "Home");
    assert_eq!(w.wifi_configs[0].passphrase, "pw");
    assert_eq!(w.wifi_configs[0].priority, 1);
}

#[test]
fn direct_provisioning_order() {
    assert_eq!(first_step(), ProvisionStep::Try(ProvisionMethod::DeviceInfo));
    assert_eq!(next_step(ProvisionMethod::DeviceInfo, MethodOutcome::Rejected), ProvisionStep::Fail(DirectProvisionError::CannotReach));
    assert_eq!(next_step(ProvisionMethod::DeviceInfo, MethodOutcome::Accepted), ProvisionStep::Try(ProvisionMethod::SimpleJson));
    assert_eq!(next_step(ProvisionMethod::SimpleJson, MethodOutcome::Unreachable), ProvisionStep::Try(ProvisionMethod::WrappedJson));
    assert_eq!(next_step(ProvisionMethod::WrappedJson, MethodOutcome::Rejected), ProvisionStep::Try(ProvisionMethod::DirectJson));
    assert_eq!(next_step(ProvisionMethod::DirectJson, MethodOutcome::Unreachable), ProvisionStep::Fail(DirectProvisionError::Transport));
    assert_eq!(next_step(ProvisionMethod::DirectJson, MethodOutcome::Rejected), ProvisionStep::Try(ProvisionMethod::FormEncoded));
    assert_eq!(next_step(ProvisionMethod::FormEncoded, MethodOutcome::Rejected), ProvisionStep::Fail(DirectProvisionError::AllMethodsFailed));
    assert_eq!(next_step(ProvisionMethod::FormEncoded, MethodOutcome::Accepted), ProvisionStep::Done);
    // Every chain of outcomes ends within five requests.
    for outcomes in 0..243u32 {
        let mut step = first_step();
        let mut n = 0;
        let mut code = outcomes;
        while let ProvisionStep::Try(m) = step {
            let o = match code % 3 { 0 => MethodOutcome::Accepted, 1 => MethodOutcome::Rejected, _ => MethodOutcome::Unreachable };
            code /= 3;
            step = next_step(m, o);
            n += 1;
        }
        assert!(n <= 5);
    }
}

#[test]
fn web_interface() {
    let w = ElgatoWebProvisioner::new();
    assert_eq!(w.web_interface_url("192.168.62.1"), "http://192.168.62.1:9123");
    assert_eq!(w.browser_commands(), vec!["xdg-open", "open", "firefox", "chromium", "google-chrome"]);
    assert!(web_interface_reachable(200));
    assert!(web_interface_reachable(204));
    assert!(web_interface_reachable(401));
    assert!(!web_interface_reachable(404));
    assert!(!web_interface_reachable(302));
}
