//! The provisioning HTTP API: which provisioner a request asks for, the
//! answers it gets, and what each step does to the session store. The
//! server itself is run by the caller.
use crate::light_service::str_eq;
use crate::provisioning::enhanced_manager::opt_text;
use crate::provisioning::{
    current_view, DeviceInfo, ProvisioningManager, ProvisioningRequest, ProvisioningSession,
    ProvisioningStatus, SecurityType, SessionError, WiFiCredentials, WiFiNetwork,
};
use crate::text::{push_str, texts};
use vstd::prelude::*;

verus! {

/// The body of `POST /provisioning/start`.
#[derive(Debug, Clone)]
pub struct StartProvisioningRequest {
    pub device_type: String,
    pub device_ssid: Option<String>,
}

/// The answer to `POST /provisioning/start`.
#[derive(Debug, Clone)]
pub struct StartProvisioningResponse {
    pub session_id: String,
    pub status: String,
    pub connection_url: Option<String>,
}

/// The answer to `GET /provisioning/scan`.
#[derive(Debug, Clone)]
pub struct ScanNetworksResponse {
    pub networks: Vec<WiFiNetwork>,
}

/// The answer to `GET /provisioning/status/{id}`.
#[derive(Debug, Clone)]
pub struct SessionStatusResponse {
    pub session_id: String,
    pub status: ProvisioningStatus,
    pub device_info: Option<DeviceInfo>,
}

/// Which provisioner serves a request.
#[derive(Debug, Clone, Copy, PartialEq, Eq, Structural)]
pub enum ProvisionerKind {
    Elgato,
    Generic,
}

/// The provisioner for a device type: lights (`elgato`, `ring_light`) get
/// the light provisioner, anything else the generic one.
pub fn provisioner_kind(device_type: &str) -> (k: ProvisionerKind)
    ensures
        k == (if device_type@ == "elgato"@ || device_type@ == "ring_light"@ {
            ProvisionerKind::Elgato
        } else {
            ProvisionerKind::Generic
        }),
{
    if str_eq(device_type, "elgato") || str_eq(device_type, "ring_light") {
        ProvisionerKind::Elgato
    } else {
        ProvisionerKind::Generic
    }
}

/// The device information used when the device cannot be asked: unknown
/// everything, all-zero MAC address, of the requested type.
pub fn fallback_device_info(device_type: String) -> (d: DeviceInfo)
    ensures
        d.device_id@ == "unknown"@,
        d.device_type@ == device_type@,
        d.manufacturer@ == "Unknown"@,
        d.model@ == "Unknown"@,
        d.firmware_version@ == "Unknown"@,
        d.mac_address@ == "00:00:00:00:00:00"@,
        d.capabilities@.len() == 0,
{
    DeviceInfo {
        device_id: "unknown".to_owned(),
        device_type,
        manufacturer: "Unknown".to_owned(),
        model: "Unknown".to_owned(),
        firmware_version: "Unknown".to_owned(),
        mac_address: "00:00:00:00:00:00".to_owned(),
        capabilities: Vec::new(),
    }
}

/// The answer to a start request: the session, `ready`, and where the
/// device's network was named, a hint to join it.
pub fn start_response(session_id: String, device_ssid: Option<String>) -> (r:
    StartProvisioningResponse)
    ensures
        r.session_id@ == session_id@,
        r.status@ == "ready"@,
        opt_text(r.connection_url) == match device_ssid {
            Some(s) => Some("Connect to WiFi network: "@ + s@),
            None => None::<Seq<char>>,
        },
{
    let connection_url = match device_ssid {
        Some(ssid) => {
            let mut u = String::new();
            push_str(&mut u, "Connect to WiFi network: ");
            push_str(&mut u, ssid.as_str());
            Some(u)
        },
        None => None,
    };
    StartProvisioningResponse { session_id, status: "ready".to_owned(), connection_url }
}

/// Two device descriptions with the same contents.
pub open spec fn same_device(a: DeviceInfo, b: DeviceInfo) -> bool {
    &&& a.device_id@ == b.device_id@
    &&& a.device_type@ == b.device_type@
    &&& a.manufacturer@ == b.manufacturer@
    &&& a.model@ == b.model@
    &&& a.firmware_version@ == b.firmware_version@
    &&& a.mac_address@ == b.mac_address@
    &&& texts(a.capabilities@) == texts(b.capabilities@)
}

fn copy_device_info(d: &DeviceInfo) -> (r: DeviceInfo)
    ensures
        same_device(r, *d),
{
    let mut capabilities: Vec<String> = Vec::new();
    let mut i: usize = 0;
    while i < d.capabilities.len()
        invariant
            i <= d.capabilities@.len(),
            texts(capabilities@) =~= texts(d.capabilities@).take(i as int),
        decreases d.capabilities@.len() - i,
    {
        let c = d.capabilities[i].clone();
        let ghost before = texts(capabilities@);
        capabilities.push(c);
        assert(texts(capabilities@) =~= before.push(d.capabilities@[i as int]@));
        i += 1;
    }
    assert(texts(capabilities@) =~= texts(d.capabilities@));
    DeviceInfo {
        device_id: d.device_id.clone(),
        device_type: d.device_type.clone(),
        manufacturer: d.manufacturer.clone(),
        model: d.model.clone(),
        firmware_version: d.firmware_version.clone(),
        mac_address: d.mac_address.clone(),
        capabilities,
    }
}

/// The status of a session, if there is one with this id.
pub fn session_status(manager: &ProvisioningManager, session_id: &str) -> (r: Option<
    SessionStatusResponse,
>)
    requires
        manager.wf(),
    ensures
        r is Some <==> manager.view().dom().contains(session_id@),
        r matches Some(s) ==> {
            let session = manager.view()[session_id@];
            &&& s.session_id@ == session.id@
            &&& s.status == session.status
            &&& s.device_info matches Some(d) && same_device(d, session.device_info)
        },
{
    match manager.get_session(session_id) {
        Some(session) => Some(
            SessionStatusResponse {
                session_id: session.id.clone(),
                status: session.status,
                device_info: Some(copy_device_info(&session.device_info)),
            },
        ),
        None => None,
    }
}

/// Marks a session as connecting before its device is provisioned; an
/// unknown session is refused.
pub fn begin_provisioning(manager: &mut ProvisioningManager, session_id: &str) -> (r: Result<
    (),
    SessionError,
>)
    requires
        old(manager).wf(),
    ensures
        final(manager).wf(),
        r is Ok <==> old(manager).view().dom().contains(session_id@),
        r is Ok ==> final(manager).view() == old(manager).view().insert(
            session_id@,
            ProvisioningSession { status: ProvisioningStatus::Connecting, ..old(manager).view()[session_id@] },
        ),
        r is Err ==> final(manager).view() == old(manager).view(),
{
    manager.update_session_status(session_id, ProvisioningStatus::Connecting)
}

/// Records how provisioning ended: the session takes the reported status,
/// and a successful session is then completed.
pub fn finish_provisioning(
    manager: &mut ProvisioningManager,
    session_id: &str,
    status: ProvisioningStatus,
)
    requires
        old(manager).wf(),
    ensures
        final(manager).wf(),
        status == ProvisioningStatus::Success ==> final(manager).view() == old(manager).view().remove(
            session_id@,
        ),
        status != ProvisioningStatus::Success && old(manager).view().dom().contains(session_id@)
            ==> final(manager).view() == old(manager).view().insert(
            session_id@,
            ProvisioningSession { status, ..old(manager).view()[session_id@] },
        ),
        status != ProvisioningStatus::Success && !old(manager).view().dom().contains(session_id@)
            ==> final(manager).view() == old(manager).view(),
        status == ProvisioningStatus::Success && current_view(old(manager).current_session) == Some(
            session_id@,
        ) ==> final(manager).current_session is None,
{
    let _ = manager.update_session_status(session_id, status);
    if status == ProvisioningStatus::Success {
        let _ = manager.complete_session(session_id);
        assert(final(manager).view() =~= old(manager).view().remove(session_id@));
    }
}

} // verus!

verus! {

/// The credentials the provisioning command sends: an open network when
/// asked for, WPA2 when a password is given; none without either.
pub fn command_credentials(target_ssid: String, target_password: Option<String>, open_network: bool) -> (r: Option<WiFiCredentials>)
    ensures
        open_network ==> (r matches Some(c) && c.security_type == SecurityType::Open),
        !open_network && target_password is Some ==> (r matches Some(c) && c.security_type
            == SecurityType::WPA2),
        !open_network && target_password is None ==> r is None,
        r matches Some(c) ==> c.ssid@ == target_ssid@ && opt_text(c.password) == opt_text(
            target_password,
        ) && !c.hidden,
{
    let security_type = if open_network {
        SecurityType::Open
    } else if target_password.is_some() {
        SecurityType::WPA2
    } else {
        return None;
    };
    Some(WiFiCredentials { ssid: target_ssid, password: target_password, security_type, hidden: false })
}

/// The request the provisioning command sends: the light is named `My Ring
/// Light`, in the `America/New_York` time zone and `en_US` locale.
pub fn command_request(session_id: String, credentials: WiFiCredentials) -> (r: ProvisioningRequest)
    ensures
        r.session_id@ == session_id@,
        r.wifi_credentials == credentials,
        opt_text(r.device_name) == Some("My Ring Light"@),
        opt_text(r.timezone) == Some("America/New_York"@),
        opt_text(r.locale) == Some("en_US"@),
{
    ProvisioningRequest {
        session_id,
        wifi_credentials: credentials,
        device_name: Some("My Ring Light".to_owned()),
        timezone: Some("America/New_York".to_owned()),
        locale: Some("en_US".to_owned()),
    }
}

} // verus!
