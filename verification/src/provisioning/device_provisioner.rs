//! Provisioners: what is sent to a device to put it on a network, and what
//! is reported back. Two kinds: one for lights that open their own access
//! point, and a generic one for devices that join the machine's.
use crate::provisioning::soft_ap::SoftAPConfig;
use crate::provisioning::wifi_manager::{InterfaceInfo, WiFiManager};
use crate::provisioning::{DeviceInfo, ProvisioningResponse, ProvisioningStatus, SecurityType, WiFiCredentials};
use crate::provisioning::enhanced_manager::opt_text;
use crate::text::{ipv4_text, push_ipv4, push_str, texts};
use vstd::prelude::*;

verus! {

/// The port of a light's provisioning API.
pub const ELGATO_PROVISIONING_PORT: u16 = 9123;

/// How many times a provisioned device is looked for on the network.
pub const CONNECTION_VERIFY_RETRIES: u32 = 10;

/// The Wi-Fi settings sent to a light.
#[derive(Debug, Clone)]
pub struct ElgatoProvisioningPayload {
    pub ssid: String,
    pub pass: String,
    pub security: u8,
    pub priority: u8,
}

/// What a light says about itself.
#[derive(Debug, Clone)]
pub struct ElgatoDeviceResponse {
    pub product_name: String,
    pub hardware_board_type: u32,
    pub firmware_build_number: u32,
    pub firmware_version: String,
    pub serial_number: String,
    pub display_name: String,
}

/// Why a provisioning step failed.
#[derive(Debug, Clone, Copy, PartialEq, Eq, Structural)]
pub enum ProvisionError {
    /// Enterprise networks cannot be sent to a light.
    EnterpriseNotSupported,
    /// The device's address is not known yet.
    DeviceIpNotSet,
    /// A light opens its own access point; the machine does not.
    OwnSoftAp,
}

impl ProvisionError {
    /// The message shown to the caller.
    pub fn message(&self) -> (m: String)
        ensures
            m@ == match self {
                ProvisionError::EnterpriseNotSupported => "Enterprise security not supported"@,
                ProvisionError::DeviceIpNotSet => "Device IP not set"@,
                ProvisionError::OwnSoftAp => "Elgato devices create their own Soft AP"@,
            },
    {
        match self {
            ProvisionError::EnterpriseNotSupported => "Enterprise security not supported".to_owned(),
            ProvisionError::DeviceIpNotSet => "Device IP not set".to_owned(),
            ProvisionError::OwnSoftAp => "Elgato devices create their own Soft AP".to_owned(),
        }
    }
}

/// The security code a light understands: 0 open, 1 WEP, 2 WPA, 3 WPA2,
/// 4 WPA3; Enterprise has none.
pub open spec fn elgato_security(t: SecurityType) -> Option<u8> {
    match t {
        SecurityType::Open => Some(0),
        SecurityType::WEP => Some(1),
        SecurityType::WPA => Some(2),
        SecurityType::WPA2 => Some(3),
        SecurityType::WPA3 => Some(4),
        SecurityType::Enterprise => None,
    }
}

/// The Wi-Fi settings sent to a light: the SSID, the password (empty when
/// there is none), the security code and priority 1.
pub fn provisioning_payload(credentials: &WiFiCredentials) -> (r: Result<
    ElgatoProvisioningPayload,
    ProvisionError,
>)
    ensures
        match elgato_security(credentials.security_type) {
            Some(code) => r matches Ok(p) && p.ssid@ == credentials.ssid@ && p.pass@ == (
            match credentials.password {
                Some(pw) => pw@,
                None => Seq::empty(),
            }) && p.security == code && p.priority == 1,
            None => r == Err::<ElgatoProvisioningPayload, ProvisionError>(
                ProvisionError::EnterpriseNotSupported,
            ),
        },
{
    let security: u8 = match credentials.security_type {
        SecurityType::Open => 0,
        SecurityType::WEP => 1,
        SecurityType::WPA => 2,
        SecurityType::WPA2 => 3,
        SecurityType::WPA3 => 4,
        SecurityType::Enterprise => {
            return Err(ProvisionError::EnterpriseNotSupported);
        },
    };
    let pass = match &credentials.password {
        Some(p) => p.clone(),
        None => String::new(),
    };
    Ok(ElgatoProvisioningPayload { ssid: credentials.ssid.clone(), pass, security, priority: 1 })
}

/// The address of a light's access point.
pub open spec fn device_ap_ip() -> [u8; 4] {
    [192u8, 168, 4, 1]
}

/// The URL of a path on the light's provisioning API.
pub open spec fn device_url_of(ip: [u8; 4], path: Seq<char>) -> Seq<char> {
    "http://"@ + ipv4_text(ip) + ":9123"@ + path
}

/// Provisioning a light that opens its own access point.
pub struct ElgatoProvisioner {
    pub wifi_manager: WiFiManager,
    pub device_ip: Option<[u8; 4]>,
}

impl ElgatoProvisioner {
    /// Works on `wlan0`; the device's address is not known yet.
    pub fn new() -> (p: Self)
        ensures
            p.wifi_manager.interface@ == "wlan0"@,
            p.device_ip is None,
    {
        ElgatoProvisioner { wifi_manager: WiFiManager::new("wlan0".to_owned()), device_ip: None }
    }

    /// The credentials that join the device's own access point: open, no
    /// password.
    pub fn device_ap_credentials(ssid: &str) -> (c: WiFiCredentials)
        ensures
            c.ssid@ == ssid@,
            c.password is None,
            c.security_type == SecurityType::Open,
            !c.hidden,
    {
        WiFiCredentials {
            ssid: ssid.to_owned(),
            password: None,
            security_type: SecurityType::Open,
            hidden: false,
        }
    }

    /// Records that the device's access point was joined; the device is
    /// then at 192.168.4.1.
    pub fn device_ap_joined(&mut self) -> (ip: [u8; 4])
        ensures
            ip == device_ap_ip(),
            final(self).device_ip == Some(device_ap_ip()),
            final(self).wifi_manager == old(self).wifi_manager,
    {
        let ip: [u8; 4] = [192, 168, 4, 1];
        self.device_ip = Some(ip);
        ip
    }

    fn device_url(&self, path: &str) -> (r: Result<String, ProvisionError>)
        ensures
            match self.device_ip {
                Some(ip) => r matches Ok(u) && u@ == device_url_of(ip, path@),
                None => r == Err::<String, ProvisionError>(ProvisionError::DeviceIpNotSet),
            },
    {
        match self.device_ip {
            Some(ip) => {
                let mut url = String::new();
                push_str(&mut url, "http://");
                push_ipv4(&mut url, ip);
                push_str(&mut url, ":9123");
                push_str(&mut url, path);
                assert(url@ =~= device_url_of(ip, path@));
                Ok(url)
            },
            None => Err(ProvisionError::DeviceIpNotSet),
        }
    }

    /// Where the Wi-Fi settings are sent.
    pub fn wifi_update_url(&self) -> (r: Result<String, ProvisionError>)
        ensures
            match self.device_ip {
                Some(ip) => r matches Ok(u) && u@ == device_url_of(ip, "/elgato/wifi/update"@),
                None => r == Err::<String, ProvisionError>(ProvisionError::DeviceIpNotSet),
            },
    {
        self.device_url("/elgato/wifi/update")
    }

    /// Where the device information is read.
    pub fn accessory_info_url(&self) -> (r: Result<String, ProvisionError>)
        ensures
            match self.device_ip {
                Some(ip) => r matches Ok(u) && u@ == device_url_of(ip, "/elgato/accessory-info"@),
                None => r == Err::<String, ProvisionError>(ProvisionError::DeviceIpNotSet),
            },
    {
        self.device_url("/elgato/accessory-info")
    }

    /// A light never needs the machine's access point.
    pub fn start_soft_ap(&self) -> (r: Result<[u8; 4], ProvisionError>)
        ensures
            r == Err::<[u8; 4], ProvisionError>(ProvisionError::OwnSoftAp),
    {
        Err(ProvisionError::OwnSoftAp)
    }
}

/// The answer to a provisioning request, once the device was looked for on
/// the target network.
pub fn elgato_outcome(session_id: String, connected: bool) -> (r: ProvisioningResponse)
    ensures
        r.session_id@ == session_id@,
        r.status == (if connected { ProvisioningStatus::Success } else { ProvisioningStatus::Failed }),
        opt_text(r.message) == Some(
            if connected {
                "Device successfully provisioned"@
            } else {
                "Failed to verify device connection"@
            },
        ),
        r.device_info is None,
{
    if connected {
        ProvisioningResponse {
            session_id,
            status: ProvisioningStatus::Success,
            message: Some("Device successfully provisioned".to_owned()),
            device_info: None,
        }
    } else {
        ProvisioningResponse {
            session_id,
            status: ProvisioningStatus::Failed,
            message: Some("Failed to verify device connection".to_owned()),
            device_info: None,
        }
    }
}

/// The device information of a light: its serial number as id, `Ring
/// Light` by `Elgato`, its product name and firmware version, no MAC
/// address, and brightness, temperature and on/off as capabilities.
pub fn elgato_device_info(r: ElgatoDeviceResponse) -> (d: DeviceInfo)
    ensures
        d.device_id@ == r.serial_number@,
        d.device_type@ == "Ring Light"@,
        d.manufacturer@ == "Elgato"@,
        d.model@ == r.product_name@,
        d.firmware_version@ == r.firmware_version@,
        d.mac_address@ == Seq::<char>::empty(),
        texts(d.capabilities@) == seq!["brightness"@, "temperature"@, "on_off"@],
{
    let mut capabilities: Vec<String> = Vec::new();
    capabilities.push("brightness".to_owned());
    capabilities.push("temperature".to_owned());
    capabilities.push("on_off".to_owned());
    assert(texts(capabilities@) =~= seq!["brightness"@, "temperature"@, "on_off"@]);
    DeviceInfo {
        device_id: r.serial_number,
        device_type: "Ring Light".to_owned(),
        manufacturer: "Elgato".to_owned(),
        model: r.product_name,
        firmware_version: r.firmware_version,
        mac_address: String::new(),
        capabilities,
    }
}

/// Provisioning a device that joins an access point the machine opens.
pub struct GenericProvisioner {
    pub wifi_manager: WiFiManager,
}

impl GenericProvisioner {
    /// Works on `wlan0`.
    pub fn new() -> (p: Self)
        ensures
            p.wifi_manager.interface@ == "wlan0"@,
    {
        GenericProvisioner { wifi_manager: WiFiManager::new("wlan0".to_owned()) }
    }

    /// The access point opened for the device: the default settings with
    /// the given SSID and password.
    pub fn soft_ap_config(ssid: &str, password: Option<&str>) -> (c: SoftAPConfig)
        ensures
            c.ssid@ == ssid@,
            opt_text(c.password) == match password {
                Some(p) => Some(p@),
                None => None::<Seq<char>>,
            },
            c.interface@ == "wlan0"@,
            c.ip_address == [192u8, 168, 4, 1],
            c.netmask == [255u8, 255, 255, 0],
            c.channel == 6,
            c.dhcp_range_start == [192u8, 168, 4, 100],
            c.dhcp_range_end == [192u8, 168, 4, 200],
    {
        let d = SoftAPConfig::default();
        let password = match password {
            Some(p) => Some(p.to_owned()),
            None => None,
        };
        SoftAPConfig { ssid: ssid.to_owned(), password, ..d }
    }
}

/// The answer to a provisioning request once the machine tried the
/// network itself.
pub fn generic_outcome(session_id: String, connected: bool) -> (r: ProvisioningResponse)
    ensures
        r.session_id@ == session_id@,
        r.status == (if connected { ProvisioningStatus::Success } else { ProvisioningStatus::Failed }),
        opt_text(r.message) == Some(
            if connected {
                "Successfully connected to network"@
            } else {
                "Failed to connect to network"@
            },
        ),
        r.device_info is None,
{
    if connected {
        ProvisioningResponse {
            session_id,
            status: ProvisioningStatus::Success,
            message: Some("Successfully connected to network".to_owned()),
            device_info: None,
        }
    } else {
        ProvisioningResponse {
            session_id,
            status: ProvisioningStatus::Failed,
            message: Some("Failed to connect to network".to_owned()),
            device_info: None,
        }
    }
}

/// The device information of a generic device: its interface's MAC
/// address as id and address, everything else unknown.
pub fn generic_device_info(info: InterfaceInfo) -> (d: DeviceInfo)
    ensures
        d.device_id@ == info.mac_address@,
        d.device_type@ == "Generic Device"@,
        d.manufacturer@ == "Unknown"@,
        d.model@ == "Unknown"@,
        d.firmware_version@ == "Unknown"@,
        d.mac_address@ == info.mac_address@,
        d.capabilities@.len() == 0,
{
    DeviceInfo {
        device_id: info.mac_address.clone(),
        device_type: "Generic Device".to_owned(),
        manufacturer: "Unknown".to_owned(),
        model: "Unknown".to_owned(),
        firmware_version: "Unknown".to_owned(),
        mac_address: info.mac_address,
        capabilities: Vec::new(),
    }
}

} // verus!

verus! {

/// The codes a light is sent for a network's security: 0 for an open
/// network, 1 for WEP, 2 for WPA, 3 for WPA2 and 4 for WPA3, so different
/// kinds are never confused and a stronger WPA kind has a higher code;
/// Enterprise has none.
pub proof fn law_device_security_codes(t: SecurityType, u: SecurityType)
    ensures
        elgato_security(t) == Some(0u8) <==> t == SecurityType::Open,
        elgato_security(t) == Some(1u8) <==> t == SecurityType::WEP,
        elgato_security(t) == Some(2u8) <==> t == SecurityType::WPA,
        elgato_security(t) == Some(3u8) <==> t == SecurityType::WPA2,
        elgato_security(t) == Some(4u8) <==> t == SecurityType::WPA3,
        elgato_security(t) is None <==> t == SecurityType::Enterprise,
        elgato_security(t) is Some && elgato_security(t) == elgato_security(u) ==> t == u,
{
}

} // verus!
