//! Provisioning through the light's plain JSON endpoints: the Wi-Fi
//! configuration documents and the order in which the methods are tried.
use crate::text::{decimal, push_decimal, push_str};
use vstd::prelude::*;

verus! {

/// One Wi-Fi configuration as the light stores it.
#[derive(Debug, Clone)]
pub struct ElgatoWifiConfig {
    pub ssid: String,
    pub passphrase: String,
    pub priority: u32,
}

/// The document of `PUT /elgato/wifi-info`.
#[derive(Debug, Clone)]
pub struct ElgatoWifiConfigWrapper {
    pub number_of_wifi_configs: u32,
    pub wifi_configs: Vec<ElgatoWifiConfig>,
}

/// The one-network configuration document for `ssid` and `password`.
pub fn wifi_config_wrapper(ssid: &str, password: &str) -> (w: ElgatoWifiConfigWrapper)
    ensures
        w.number_of_wifi_configs == 1,
        w.wifi_configs@.len() == 1,
        w.wifi_configs@[0].ssid@ == ssid@,
        w.wifi_configs@[0].passphrase@ == password@,
        w.wifi_configs@[0].priority == 1,
{
    ElgatoWifiConfigWrapper {
        number_of_wifi_configs: 1,
        wifi_configs: vec![
            ElgatoWifiConfig { ssid: ssid.to_owned(), passphrase: password.to_owned(), priority: 1 },
        ],
    }
}

/// Talks to the light at `device_ip` (HTTP is done by the caller).
#[derive(Debug, Clone)]
pub struct ElgatoDirectProvisioner {
    pub device_ip: String,
}

/// `http://{ip}:9123{path}`.
pub open spec fn elgato_url(ip: Seq<char>, path: Seq<char>) -> Seq<char> {
    "http://"@ + ip + ":"@ + decimal(9123) + path
}

impl ElgatoDirectProvisioner {
    /// The light at its setup address `192.168.62.1`.
    pub fn new() -> (p: Self)
        ensures
            p.device_ip@ == "192.168.62.1"@,
    {
        ElgatoDirectProvisioner { device_ip: "192.168.62.1".to_owned() }
    }

    /// The light at `ip`.
    pub fn with_ip(ip: &str) -> (p: Self)
        ensures
            p.device_ip@ == ip@,
    {
        ElgatoDirectProvisioner { device_ip: ip.to_owned() }
    }

    /// The URL of an endpoint of the light.
    pub fn url(&self, path: &str) -> (u: String)
        ensures
            u@ == elgato_url(self.device_ip@, path@),
    {
        let mut u = String::new();
        push_str(&mut u, "http://");
        push_str(&mut u, self.device_ip.as_str());
        push_str(&mut u, ":");
        push_decimal(&mut u, 9123);
        push_str(&mut u, path);
        assert(u@ =~= elgato_url(self.device_ip@, path@));
        u
    }
}

/// The endpoints listed when checking a light.
pub fn debug_endpoints() -> (e: Vec<&'static str>)
    ensures
        e@.len() == 6,
        e@[0]@ == "/elgato/accessory-info"@,
        e@[1]@ == "/elgato/wifi-info"@,
        e@[2]@ == "/elgato/wifi-simple"@,
        e@[3]@ == "/elgato/lights"@,
        e@[4]@ == "/elgato/restart"@,
        e@[5]@ == "/elgato/identify"@,
{
    vec![
        "/elgato/accessory-info",
        "/elgato/wifi-info",
        "/elgato/wifi-simple",
        "/elgato/lights",
        "/elgato/restart",
        "/elgato/identify",
    ]
}

/// The requests of direct provisioning, in the order they are made.
#[derive(Debug, Clone, Copy, PartialEq, Eq, Structural)]
pub enum ProvisionMethod {
    /// `GET /elgato/accessory-info`, to see that the light answers.
    DeviceInfo,
    /// `PUT /elgato/wifi-simple` with `{"passphrase", "ssid"}`.
    SimpleJson,
    /// `PUT /elgato/wifi-info` with the configuration document.
    WrappedJson,
    /// `PUT /elgato/wifi-info` with `{"passphrase", "priority": 1, "ssid"}`.
    DirectJson,
    /// `PUT /elgato/wifi-info` form-encoded `ssid` and `passphrase`.
    FormEncoded,
}

/// How a request went.
#[derive(Debug, Clone, Copy, PartialEq, Eq, Structural)]
pub enum MethodOutcome {
    /// Sent and answered with success (for `DeviceInfo`: a JSON answer).
    Accepted,
    /// Sent and answered, but not with success (or not with JSON).
    Rejected,
    /// Could not be sent.
    Unreachable,
}

/// Why direct provisioning failed.
#[derive(Debug, Clone, Copy, PartialEq, Eq, Structural)]
pub enum DirectProvisionError {
    /// The light did not answer the device-information request.
    CannotReach,
    /// A request of the last two methods could not be sent.
    Transport,
    /// Every method was answered without success.
    AllMethodsFailed,
}

/// What to do next.
#[derive(Debug, Clone, Copy, PartialEq, Eq, Structural)]
pub enum ProvisionStep {
    Try(ProvisionMethod),
    Done,
    Fail(DirectProvisionError),
}

/// The position of a method in the order of attempts.
pub open spec fn method_rank(m: ProvisionMethod) -> int {
    match m {
        ProvisionMethod::DeviceInfo => 0,
        ProvisionMethod::SimpleJson => 1,
        ProvisionMethod::WrappedJson => 2,
        ProvisionMethod::DirectJson => 3,
        ProvisionMethod::FormEncoded => 4,
    }
}

/// What follows an outcome: the light must first answer; then the first
/// method that is accepted ends it. Failures of the two JSON methods on
/// their own endpoints are passed over; a request of the last two methods
/// that cannot be sent ends it with an error.
pub open spec fn next_step_spec(m: ProvisionMethod, o: MethodOutcome) -> ProvisionStep {
    match m {
        ProvisionMethod::DeviceInfo => if o == MethodOutcome::Accepted {
            ProvisionStep::Try(ProvisionMethod::SimpleJson)
        } else {
            ProvisionStep::Fail(DirectProvisionError::CannotReach)
        },
        ProvisionMethod::SimpleJson => if o == MethodOutcome::Accepted {
            ProvisionStep::Done
        } else {
            ProvisionStep::Try(ProvisionMethod::WrappedJson)
        },
        ProvisionMethod::WrappedJson => if o == MethodOutcome::Accepted {
            ProvisionStep::Done
        } else {
            ProvisionStep::Try(ProvisionMethod::DirectJson)
        },
        ProvisionMethod::DirectJson => match o {
            MethodOutcome::Accepted => ProvisionStep::Done,
            MethodOutcome::Rejected => ProvisionStep::Try(ProvisionMethod::FormEncoded),
            MethodOutcome::Unreachable => ProvisionStep::Fail(DirectProvisionError::Transport),
        },
        ProvisionMethod::FormEncoded => match o {
            MethodOutcome::Accepted => ProvisionStep::Done,
            MethodOutcome::Rejected => ProvisionStep::Fail(DirectProvisionError::AllMethodsFailed),
            MethodOutcome::Unreachable => ProvisionStep::Fail(DirectProvisionError::Transport),
        },
    }
}

/// The first request of direct provisioning.
pub fn first_step() -> (s: ProvisionStep)
    ensures
        s == ProvisionStep::Try(ProvisionMethod::DeviceInfo),
{
    ProvisionStep::Try(ProvisionMethod::DeviceInfo)
}

/// The step after a request.
pub fn next_step(method: ProvisionMethod, outcome: MethodOutcome) -> (s: ProvisionStep)
    ensures
        s == next_step_spec(method, outcome),
{
    match method {
        ProvisionMethod::DeviceInfo => match outcome {
            MethodOutcome::Accepted => ProvisionStep::Try(ProvisionMethod::SimpleJson),
            _ => ProvisionStep::Fail(DirectProvisionError::CannotReach),
        },
        ProvisionMethod::SimpleJson => match outcome {
            MethodOutcome::Accepted => ProvisionStep::Done,
            _ => ProvisionStep::Try(ProvisionMethod::WrappedJson),
        },
        ProvisionMethod::WrappedJson => match outcome {
            MethodOutcome::Accepted => ProvisionStep::Done,
            _ => ProvisionStep::Try(ProvisionMethod::DirectJson),
        },
        ProvisionMethod::DirectJson => match outcome {
            MethodOutcome::Accepted => ProvisionStep::Done,
            MethodOutcome::Rejected => ProvisionStep::Try(ProvisionMethod::FormEncoded),
            MethodOutcome::Unreachable => ProvisionStep::Fail(DirectProvisionError::Transport),
        },
        ProvisionMethod::FormEncoded => match outcome {
            MethodOutcome::Accepted => ProvisionStep::Done,
            MethodOutcome::Rejected => ProvisionStep::Fail(DirectProvisionError::AllMethodsFailed),
            MethodOutcome::Unreachable => ProvisionStep::Fail(DirectProvisionError::Transport),
        },
    }
}

/// Each request is followed by a later method or by the end, so direct
/// provisioning makes at most five requests; it ends successfully exactly
/// when a method other than the first is accepted.
pub proof fn law_provisioning_progresses(m: ProvisionMethod, o: MethodOutcome)
    ensures
        next_step_spec(m, o) matches ProvisionStep::Try(n) ==> method_rank(n) == method_rank(m)
            + 1,
        0 <= method_rank(m) <= 4,
        next_step_spec(m, o) == ProvisionStep::Done <==> (o == MethodOutcome::Accepted && m
            != ProvisionMethod::DeviceInfo),
{
}

} // verus!
