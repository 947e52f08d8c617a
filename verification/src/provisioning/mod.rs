//! Putting a light on a Wi-Fi network: the data exchanged while
//! provisioning and the store of provisioning sessions.
use crate::light_service::str_eq;
use crate::provisioning::security::{
    new_uuid_bytes, now_micros, uuid_text, uuid_to_string, LATEST_MICROS,
};
use crate::text::push_str;
use vstd::prelude::*;

pub mod api;
pub mod credential_manager;
pub mod device_provisioner;
pub mod elgato;
pub mod elgato_fixed;
pub mod elgato_web;
pub mod enhanced_manager;
pub mod security;
pub mod soft_ap;
pub mod wifi_manager;

verus! {

/// What a device says about itself.
#[derive(Debug, Clone)]
pub struct DeviceInfo {
    pub device_id: String,
    pub device_type: String,
    pub manufacturer: String,
    pub model: String,
    pub firmware_version: String,
    pub mac_address: String,
    pub capabilities: Vec<String>,
}

/// A Wi-Fi network seen in a scan.
#[derive(Debug, Clone)]
pub struct WiFiNetwork {
    pub ssid: String,
    pub bssid: Option<String>,
    pub signal_strength: i32,
    pub security_type: SecurityType,
    pub frequency: u32,
    pub channel: u8,
}

/// How a Wi-Fi network is secured.
#[derive(Debug, Clone, Copy, PartialEq, Eq, Structural)]
pub enum SecurityType {
    Open,
    WEP,
    WPA,
    WPA2,
    WPA3,
    Enterprise,
}

/// What a device needs to join a network.
#[derive(Debug, Clone)]
pub struct WiFiCredentials {
    pub ssid: String,
    pub password: Option<String>,
    pub security_type: SecurityType,
    pub hidden: bool,
}

/// A request to put a device on a network.
#[derive(Debug, Clone)]
pub struct ProvisioningRequest {
    pub session_id: String,
    pub wifi_credentials: WiFiCredentials,
    pub device_name: Option<String>,
    pub timezone: Option<String>,
    pub locale: Option<String>,
}

/// The answer to a provisioning request.
#[derive(Debug, Clone)]
pub struct ProvisioningResponse {
    pub session_id: String,
    pub status: ProvisioningStatus,
    pub message: Option<String>,
    pub device_info: Option<DeviceInfo>,
}

/// Where a provisioning session stands.
#[derive(Debug, Clone, Copy, PartialEq, Eq, Structural)]
pub enum ProvisioningStatus {
    Pending,
    Connecting,
    Authenticating,
    Configuring,
    Success,
    Failed,
}

/// An IP address.
#[derive(Debug, Clone, Copy, PartialEq, Eq)]
pub enum IpAddress {
    V4([u8; 4]),
    V6([u16; 8]),
}

/// One provisioning session. `started_at` is in microseconds since the
/// Unix epoch.
#[derive(Debug, Clone)]
pub struct ProvisioningSession {
    pub id: String,
    pub device_info: DeviceInfo,
    pub started_at: i64,
    pub status: ProvisioningStatus,
    pub soft_ap_ip: IpAddress,
    pub target_network: Option<WiFiCredentials>,
}

/// The provisioning sessions, at most one per id, and the current one.
pub struct ProvisioningManager {
    pub sessions: Vec<ProvisioningSession>,
    pub current_session: Option<String>,
}

/// Why a session operation failed.
#[derive(Debug, Clone, PartialEq, Eq)]
pub enum SessionError {
    NotFound(String),
}

impl SessionError {
    /// The message shown to the caller.
    pub fn message(&self) -> (m: String)
        ensures
            match self {
                SessionError::NotFound(id) => m@ == "Session not found: "@ + id@,
            },
    {
        let mut m = String::new();
        match self {
            SessionError::NotFound(id) => {
                push_str(&mut m, "Session not found: ");
                push_str(&mut m, id.as_str());
            },
        }
        m
    }
}

pub open spec fn has_id(s: Seq<ProvisioningSession>, id: Seq<char>) -> bool {
    exists|i: int| 0 <= i < s.len() && #[trigger] s[i].id@ == id
}

pub open spec fn index_of_id(s: Seq<ProvisioningSession>, id: Seq<char>) -> int {
    choose|i: int| 0 <= i < s.len() && #[trigger] s[i].id@ == id
}

/// No two sessions share an id.
pub open spec fn distinct_ids(s: Seq<ProvisioningSession>) -> bool {
    forall|i: int, j: int| 0 <= i < s.len() && 0 <= j < s.len() && i != j ==> s[i].id@ != s[j].id@
}

/// The sessions by id.
pub open spec fn sessions_view(s: Seq<ProvisioningSession>) -> Map<Seq<char>, ProvisioningSession> {
    Map::new(|id: Seq<char>| has_id(s, id), |id: Seq<char>| s[index_of_id(s, id)])
}

pub open spec fn current_view(c: Option<String>) -> Option<Seq<char>> {
    match c {
        Some(s) => Some(s@),
        None => None,
    }
}

proof fn lemma_view_at(s: Seq<ProvisioningSession>, i: int)
    requires
        distinct_ids(s),
        0 <= i < s.len(),
    ensures
        sessions_view(s).dom().contains(s[i].id@),
        sessions_view(s)[s[i].id@] == s[i],
{
    assert(has_id(s, s[i].id@));
    let j = index_of_id(s, s[i].id@);
    assert(s[j].id@ == s[i].id@);
}

proof fn lemma_view_update(s: Seq<ProvisioningSession>, i: int, v: ProvisioningSession)
    requires
        distinct_ids(s),
        0 <= i < s.len(),
        v.id@ == s[i].id@,
    ensures
        distinct_ids(s.update(i, v)),
        sessions_view(s.update(i, v)) == sessions_view(s).insert(v.id@, v),
{
    let t = s.update(i, v);
    assert forall|id: Seq<char>| has_id(t, id) == (has_id(s, id) || id == v.id@) by {
        if has_id(s, id) {
            let j = index_of_id(s, id);
            assert(t[j].id@ == id);
        }
        if has_id(t, id) {
            let j = index_of_id(t, id);
            assert(s[j].id@ == id);
        }
    }
    assert forall|id: Seq<char>| #[trigger] sessions_view(t).dom().contains(id) implies sessions_view(t)[id]
        == sessions_view(s).insert(v.id@, v)[id] by {
        let j = index_of_id(t, id);
        if id == v.id@ {
            assert(j == i);
        } else {
            lemma_view_at(s, j);
        }
    }
    assert(sessions_view(t) =~= sessions_view(s).insert(v.id@, v));
}

proof fn lemma_view_push(s: Seq<ProvisioningSession>, v: ProvisioningSession)
    requires
        distinct_ids(s),
        !has_id(s, v.id@),
    ensures
        distinct_ids(s.push(v)),
        sessions_view(s.push(v)) == sessions_view(s).insert(v.id@, v),
{
    let t = s.push(v);
    assert forall|i: int, j: int|
        0 <= i < t.len() && 0 <= j < t.len() && i != j implies t[i].id@ != t[j].id@ by {
        if i == s.len() as int {
            assert(s[j].id@ == t[j].id@);
        } else if j == s.len() as int {
            assert(s[i].id@ == t[i].id@);
        }
    }
    assert forall|id: Seq<char>| has_id(t, id) == (has_id(s, id) || id == v.id@) by {
        if has_id(s, id) {
            let j = index_of_id(s, id);
            assert(t[j].id@ == id);
        }
        if id == v.id@ {
            assert(t[s.len() as int].id@ == id);
        }
        if has_id(t, id) && id != v.id@ {
            let j = index_of_id(t, id);
            assert(s[j].id@ == id);
        }
    }
    assert forall|id: Seq<char>| #[trigger] sessions_view(t).dom().contains(id) implies sessions_view(t)[id]
        == sessions_view(s).insert(v.id@, v)[id] by {
        let j = index_of_id(t, id);
        if id == v.id@ {
            lemma_view_at(t, s.len() as int);
        } else {
            lemma_view_at(s, j);
        }
    }
    assert(sessions_view(t) =~= sessions_view(s).insert(v.id@, v));
}

proof fn lemma_view_remove(s: Seq<ProvisioningSession>, i: int)
    requires
        distinct_ids(s),
        0 <= i < s.len(),
    ensures
        distinct_ids(s.remove(i)),
        sessions_view(s.remove(i)) == sessions_view(s).remove(s[i].id@),
{
    let t = s.remove(i);
    let k = s[i].id@;
    assert forall|a: int, b: int|
        0 <= a < t.len() && 0 <= b < t.len() && a != b implies t[a].id@ != t[b].id@ by {
        let a2 = if a < i { a } else { a + 1 };
        let b2 = if b < i { b } else { b + 1 };
        assert(t[a] == s[a2]);
        assert(t[b] == s[b2]);
    }
    assert forall|id: Seq<char>| has_id(t, id) == (has_id(s, id) && id != k) by {
        if has_id(s, id) && id != k {
            let j = index_of_id(s, id);
            if j < i {
                assert(t[j].id@ == id);
            } else {
                assert(j != i);
                assert(t[j - 1].id@ == id);
            }
        }
        if has_id(t, id) {
            let j = index_of_id(t, id);
            let j2 = if j < i { j } else { j + 1 };
            assert(t[j] == s[j2]);
        }
    }
    assert forall|id: Seq<char>| #[trigger] sessions_view(t).dom().contains(id) implies sessions_view(t)[id]
        == sessions_view(s).remove(k)[id] by {
        let j = index_of_id(t, id);
        let j2 = if j < i { j } else { j + 1 };
        assert(t[j] == s[j2]);
        lemma_view_at(s, j2);
    }
    assert(sessions_view(t) =~= sessions_view(s).remove(k));
}

} // verus!

verus! {

impl ProvisioningManager {
    pub open spec fn view(&self) -> Map<Seq<char>, ProvisioningSession> {
        sessions_view(self.sessions@)
    }

    pub open spec fn wf(&self) -> bool {
        distinct_ids(self.sessions@)
    }

    /// No sessions and no current session.
    pub fn new() -> (m: Self)
        ensures
            m.wf(),
            m.view() == Map::<Seq<char>, ProvisioningSession>::empty(),
            m.current_session is None,
    {
        let m = ProvisioningManager { sessions: Vec::new(), current_session: None };
        assert(m.view() =~= Map::<Seq<char>, ProvisioningSession>::empty());
        m
    }

    fn find(&self, id: &str) -> (r: Option<usize>)
        ensures
            match r {
                Some(i) => i < self.sessions@.len() && self.sessions@[i as int].id@ == id@,
                None => !has_id(self.sessions@, id@),
            },
    {
        let n = self.sessions.len();
        let mut i: usize = 0;
        while i < n
            invariant
                n == self.sessions@.len(),
                i <= n,
                forall|j: int| 0 <= j < i ==> self.sessions@[j].id@ != id@,
            decreases n - i,
        {
            if str_eq(self.sessions[i].id.as_str(), id) {
                return Some(i);
            }
            i += 1;
        }
        None
    }

    /// Stores a session (replacing one with the same id).
    fn insert(&mut self, session: ProvisioningSession)
        requires
            old(self).wf(),
        ensures
            final(self).wf(),
            final(self).view() == old(self).view().insert(session.id@, session),
            final(self).current_session == old(self).current_session,
    {
        match self.find(session.id.as_str()) {
            Some(i) => {
                proof {
                    lemma_view_update(self.sessions@, i as int, session);
                }
                self.sessions.set(i, session);
            },
            None => {
                proof {
                    lemma_view_push(self.sessions@, session);
                }
                self.sessions.push(session);
            },
        }
    }

    /// Starts a session with the given id at time `now`: pending, with no
    /// target network yet; it becomes the current session.
    pub fn create_session_with(
        &mut self,
        device_info: DeviceInfo,
        soft_ap_ip: IpAddress,
        session_id: String,
        now: i64,
    ) -> (r: String)
        requires
            old(self).wf(),
        ensures
            final(self).wf(),
            r@ == session_id@,
            final(self).view().dom() == old(self).view().dom().insert(session_id@),
            final(self).view()[session_id@].id@ == session_id@,
            final(self).view()[session_id@].device_info == device_info,
            final(self).view()[session_id@].started_at == now,
            final(self).view()[session_id@].status == ProvisioningStatus::Pending,
            final(self).view()[session_id@].soft_ap_ip == soft_ap_ip,
            final(self).view()[session_id@].target_network is None,
            forall|k: Seq<char>|
                k != session_id@ && old(self).view().dom().contains(k)
                    ==> #[trigger] final(self).view()[k] == old(self).view()[k],
            current_view(final(self).current_session) == Some(session_id@),
    {
        let id = session_id.clone();
        let current = session_id.clone();
        let session = ProvisioningSession {
            id: session_id,
            device_info,
            started_at: now,
            status: ProvisioningStatus::Pending,
            soft_ap_ip,
            target_network: None,
        };
        self.insert(session);
        self.current_session = Some(current);
        id
    }

    /// Starts a session with a random UUID as its id, at the current time.
    pub fn create_session(&mut self, device_info: DeviceInfo, soft_ap_ip: IpAddress) -> (r: String)
        requires
            old(self).wf(),
        ensures
            final(self).wf(),
            exists|b: Seq<u8>| b.len() == 16 && r@ == uuid_text(b),
            final(self).view().dom() == old(self).view().dom().insert(r@),
            final(self).view()[r@].id@ == r@,
            final(self).view()[r@].status == ProvisioningStatus::Pending,
            final(self).view()[r@].device_info == device_info,
            final(self).view()[r@].soft_ap_ip == soft_ap_ip,
            final(self).view()[r@].target_network is None,
            0 <= final(self).view()[r@].started_at <= LATEST_MICROS,
            forall|k: Seq<char>|
                k != r@ && old(self).view().dom().contains(k) ==> #[trigger] final(self).view()[k]
                    == old(self).view()[k],
            current_view(final(self).current_session) == Some(r@),
    {
        let bytes = new_uuid_bytes();
        let id = uuid_to_string(bytes.as_slice());
        let now = now_micros();
        self.create_session_with(device_info, soft_ap_ip, id, now)
    }

    /// The session with this id.
    pub fn get_session(&self, session_id: &str) -> (r: Option<&ProvisioningSession>)
        requires
            self.wf(),
        ensures
            r is Some <==> self.view().dom().contains(session_id@),
            r matches Some(s) ==> *s == self.view()[session_id@],
    {
        match self.find(session_id) {
            Some(i) => {
                proof {
                    lemma_view_at(self.sessions@, i as int);
                }
                Some(&self.sessions[i])
            },
            None => None,
        }
    }

    /// Sets the status of a session; refused for an unknown id.
    pub fn update_session_status(&mut self, session_id: &str, status: ProvisioningStatus) -> (r:
        Result<(), SessionError>)
        requires
            old(self).wf(),
        ensures
            final(self).wf(),
            final(self).current_session == old(self).current_session,
            !old(self).view().dom().contains(session_id@) ==> (r matches Err(
                SessionError::NotFound(id),
            ) && id@ == session_id@) && final(self).view() == old(self).view(),
            old(self).view().dom().contains(session_id@) ==> r is Ok && final(self).view()
                == old(self).view().insert(
                session_id@,
                ProvisioningSession { status, ..old(self).view()[session_id@] },
            ),
    {
        match self.find(session_id) {
            Some(i) => {
                proof {
                    lemma_view_at(self.sessions@, i as int);
                }
                let mut s = self.sessions.remove(i);
                s.status = status;
                self.sessions.insert(i, s);
                proof {
                    assert(self.sessions@ =~= old(self).sessions@.update(i as int, s));
                    lemma_view_update(old(self).sessions@, i as int, s);
                }
                Ok(())
            },
            None => Err(SessionError::NotFound(session_id.to_owned())),
        }
    }
}


impl ProvisioningManager {
    /// Ends a session: it is forgotten, and it stops being the current
    /// session. Ending an unknown session changes nothing.
    pub fn complete_session(&mut self, session_id: &str) -> (r: Result<(), SessionError>)
        requires
            old(self).wf(),
        ensures
            final(self).wf(),
            r is Ok,
            final(self).view() == old(self).view().remove(session_id@),
            current_view(old(self).current_session) == Some(session_id@)
                ==> final(self).current_session is None,
            current_view(old(self).current_session) != Some(session_id@) ==> current_view(
                final(self).current_session,
            ) == current_view(old(self).current_session),
    {
        match self.find(session_id) {
            Some(i) => {
                proof {
                    lemma_view_remove(self.sessions@, i as int);
                }
                let _ = self.sessions.remove(i);
            },
            None => {
                assert(old(self).view().remove(session_id@) =~= old(self).view());
            },
        }
        let clear = match &self.current_session {
            Some(c) => str_eq(c.as_str(), session_id),
            None => false,
        };
        if clear {
            self.current_session = None;
        }
        Ok(())
    }
}

/// A session just created is found under its id, pending.
pub proof fn law_created_session_is_pending(
    sessions: Map<Seq<char>, ProvisioningSession>,
    id: Seq<char>,
    session: ProvisioningSession,
)
    requires
        session.status == ProvisioningStatus::Pending,
    ensures
        sessions.insert(id, session).dom().contains(id),
        sessions.insert(id, session)[id].status == ProvisioningStatus::Pending,
{
}

/// A status written to a session is the status read back, and the other
/// sessions are untouched.
pub proof fn law_status_read_back(
    sessions: Map<Seq<char>, ProvisioningSession>,
    id: Seq<char>,
    other: Seq<char>,
    status: ProvisioningStatus,
)
    requires
        sessions.dom().contains(id),
        other != id,
    ensures
        sessions.insert(id, ProvisioningSession { status, ..sessions[id] })[id].status == status,
        sessions.insert(id, ProvisioningSession { status, ..sessions[id] }).dom() == sessions.dom(),
        sessions.dom().contains(other) ==> sessions.insert(
            id,
            ProvisioningSession { status, ..sessions[id] },
        )[other] == sessions[other],
{
    assert(sessions.insert(id, ProvisioningSession { status, ..sessions[id] }).dom() =~= sessions.dom());
}

/// A completed session is gone.
pub proof fn law_completed_session_gone(sessions: Map<Seq<char>, ProvisioningSession>, id: Seq<char>)
    ensures
        !sessions.remove(id).dom().contains(id),
{
}

} // verus!
