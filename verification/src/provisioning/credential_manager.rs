//! Saved Wi-Fi networks: the store of saved credentials, and what the
//! network tools say about the networks this machine knows.
use crate::light_service::str_eq;
use crate::provisioning::enhanced_manager::{opt_text, security_type_text};
use crate::provisioning::wifi_manager::{names_of_type, type_entries};
use crate::provisioning::{SecurityType, WiFiCredentials};
use crate::text::{has_prefix, lines, starts_with, text_lines, texts};
use vstd::prelude::*;

verus! {

/// A network whose credentials are kept. `last_used` is in microseconds
/// since the Unix epoch.
#[derive(Debug, Clone)]
pub struct SavedNetwork {
    pub ssid: String,
    pub password: Option<String>,
    pub security_type: String,
    pub last_used: Option<i64>,
    pub auto_connect: bool,
}

/// A saved network as plain values.
pub struct SavedNetworkView {
    pub ssid: Seq<char>,
    pub password: Option<Seq<char>>,
    pub security_type: Seq<char>,
    pub last_used: Option<i64>,
    pub auto_connect: bool,
}

impl View for SavedNetwork {
    type V = SavedNetworkView;

    open spec fn view(&self) -> SavedNetworkView {
        SavedNetworkView {
            ssid: self.ssid@,
            password: opt_text(self.password),
            security_type: self.security_type@,
            last_used: self.last_used,
            auto_connect: self.auto_connect,
        }
    }
}

fn copy_saved(n: &SavedNetwork) -> (r: SavedNetwork)
    ensures
        r@ == n@,
{
    let password = match &n.password {
        Some(p) => Some(p.clone()),
        None => None,
    };
    SavedNetwork {
        ssid: n.ssid.clone(),
        password,
        security_type: n.security_type.clone(),
        last_used: n.last_used,
        auto_connect: n.auto_connect,
    }
}

/// The saved networks by name; the same name is kept once.
pub struct SavedCredentials {
    pub networks: Vec<(String, SavedNetwork)>,
}

pub open spec fn has_key(s: Seq<(String, SavedNetwork)>, k: Seq<char>) -> bool {
    exists|i: int| 0 <= i < s.len() && #[trigger] s[i].0@ == k
}

pub open spec fn index_of_key(s: Seq<(String, SavedNetwork)>, k: Seq<char>) -> int {
    choose|i: int| 0 <= i < s.len() && #[trigger] s[i].0@ == k
}

/// No two entries share a name.
pub open spec fn distinct_keys(s: Seq<(String, SavedNetwork)>) -> bool {
    forall|i: int, j: int| 0 <= i < s.len() && 0 <= j < s.len() && i != j ==> s[i].0@ != s[j].0@
}

/// The saved networks by name.
pub open spec fn saved_view(s: Seq<(String, SavedNetwork)>) -> Map<Seq<char>, SavedNetworkView> {
    Map::new(|k: Seq<char>| has_key(s, k), |k: Seq<char>| s[index_of_key(s, k)].1@)
}

proof fn lemma_saved_at(s: Seq<(String, SavedNetwork)>, i: int)
    requires
        distinct_keys(s),
        0 <= i < s.len(),
    ensures
        saved_view(s).dom().contains(s[i].0@),
        saved_view(s)[s[i].0@] == s[i].1@,
{
    assert(has_key(s, s[i].0@));
    let j = index_of_key(s, s[i].0@);
    assert(s[j].0@ == s[i].0@);
}

proof fn lemma_saved_update(s: Seq<(String, SavedNetwork)>, i: int, e: (String, SavedNetwork))
    requires
        distinct_keys(s),
        0 <= i < s.len(),
        e.0@ == s[i].0@,
    ensures
        distinct_keys(s.update(i, e)),
        saved_view(s.update(i, e)) == saved_view(s).insert(e.0@, e.1@),
{
    let t = s.update(i, e);
    assert forall|k: Seq<char>| has_key(t, k) == (has_key(s, k) || k == e.0@) by {
        if has_key(s, k) {
            let j = index_of_key(s, k);
            assert(t[j].0@ == k);
        }
        if has_key(t, k) {
            let j = index_of_key(t, k);
            assert(s[j].0@ == k);
        }
    }
    assert forall|k: Seq<char>| #[trigger] saved_view(t).dom().contains(k) implies saved_view(t)[k]
        == saved_view(s).insert(e.0@, e.1@)[k] by {
        let j = index_of_key(t, k);
        if k == e.0@ {
            assert(j == i);
        } else {
            lemma_saved_at(s, j);
        }
    }
    assert(saved_view(t) =~= saved_view(s).insert(e.0@, e.1@));
}

proof fn lemma_saved_push(s: Seq<(String, SavedNetwork)>, e: (String, SavedNetwork))
    requires
        distinct_keys(s),
        !has_key(s, e.0@),
    ensures
        distinct_keys(s.push(e)),
        saved_view(s.push(e)) == saved_view(s).insert(e.0@, e.1@),
{
    let t = s.push(e);
    assert forall|i: int, j: int|
        0 <= i < t.len() && 0 <= j < t.len() && i != j implies t[i].0@ != t[j].0@ by {
        if i == s.len() as int {
            assert(s[j].0@ == t[j].0@);
        } else if j == s.len() as int {
            assert(s[i].0@ == t[i].0@);
        }
    }
    assert forall|k: Seq<char>| has_key(t, k) == (has_key(s, k) || k == e.0@) by {
        if has_key(s, k) {
            let j = index_of_key(s, k);
            assert(t[j].0@ == k);
        }
        if k == e.0@ {
            assert(t[s.len() as int].0@ == k);
        }
        if has_key(t, k) && k != e.0@ {
            let j = index_of_key(t, k);
            assert(s[j].0@ == k);
        }
    }
    assert forall|k: Seq<char>| #[trigger] saved_view(t).dom().contains(k) implies saved_view(t)[k]
        == saved_view(s).insert(e.0@, e.1@)[k] by {
        let j = index_of_key(t, k);
        if k == e.0@ {
            lemma_saved_at(t, s.len() as int);
        } else {
            lemma_saved_at(s, j);
        }
    }
    assert(saved_view(t) =~= saved_view(s).insert(e.0@, e.1@));
}

proof fn lemma_saved_remove(s: Seq<(String, SavedNetwork)>, i: int)
    requires
        distinct_keys(s),
        0 <= i < s.len(),
    ensures
        distinct_keys(s.remove(i)),
        saved_view(s.remove(i)) == saved_view(s).remove(s[i].0@),
{
    let t = s.remove(i);
    let key = s[i].0@;
    assert forall|a: int, b: int|
        0 <= a < t.len() && 0 <= b < t.len() && a != b implies t[a].0@ != t[b].0@ by {
        let a2 = if a < i { a } else { a + 1 };
        let b2 = if b < i { b } else { b + 1 };
        assert(t[a] == s[a2]);
        assert(t[b] == s[b2]);
    }
    assert forall|k: Seq<char>| has_key(t, k) == (has_key(s, k) && k != key) by {
        if has_key(s, k) && k != key {
            let j = index_of_key(s, k);
            if j < i {
                assert(t[j].0@ == k);
            } else {
                assert(j != i);
                assert(t[j - 1].0@ == k);
            }
        }
        if has_key(t, k) {
            let j = index_of_key(t, k);
            let j2 = if j < i { j } else { j + 1 };
            assert(t[j] == s[j2]);
        }
    }
    assert forall|k: Seq<char>| #[trigger] saved_view(t).dom().contains(k) implies saved_view(t)[k]
        == saved_view(s).remove(key)[k] by {
        let j = index_of_key(t, k);
        let j2 = if j < i { j } else { j + 1 };
        assert(t[j] == s[j2]);
        lemma_saved_at(s, j2);
    }
    assert(saved_view(t) =~= saved_view(s).remove(key));
}

impl SavedCredentials {
    pub open spec fn view(&self) -> Map<Seq<char>, SavedNetworkView> {
        saved_view(self.networks@)
    }

    pub open spec fn wf(&self) -> bool {
        distinct_keys(self.networks@)
    }

    /// No saved networks.
    pub fn new() -> (c: Self)
        ensures
            c.wf(),
            c.view() == Map::<Seq<char>, SavedNetworkView>::empty(),
    {
        let c = SavedCredentials { networks: Vec::new() };
        assert(c.view() =~= Map::<Seq<char>, SavedNetworkView>::empty());
        c
    }

    fn find(&self, name: &str) -> (r: Option<usize>)
        ensures
            match r {
                Some(i) => i < self.networks@.len() && self.networks@[i as int].0@ == name@,
                None => !has_key(self.networks@, name@),
            },
    {
        let n = self.networks.len();
        let mut i: usize = 0;
        while i < n
            invariant
                n == self.networks@.len(),
                i <= n,
                forall|j: int| 0 <= j < i ==> self.networks@[j].0@ != name@,
            decreases n - i,
        {
            if str_eq(self.networks[i].0.as_str(), name) {
                return Some(i);
            }
            i += 1;
        }
        None
    }

    /// Saves `network` under `name`, replacing what was saved under it.
    pub fn insert(&mut self, name: String, network: SavedNetwork)
        requires
            old(self).wf(),
        ensures
            final(self).wf(),
            final(self).view() == old(self).view().insert(name@, network@),
    {
        let e = (name, network);
        match self.find(e.0.as_str()) {
            Some(i) => {
                proof {
                    lemma_saved_update(self.networks@, i as int, e);
                }
                self.networks.set(i, e);
            },
            None => {
                proof {
                    lemma_saved_push(self.networks@, e);
                }
                self.networks.push(e);
            },
        }
    }

    /// Saves a network under its SSID.
    pub fn add_network(&mut self, network: SavedNetwork)
        requires
            old(self).wf(),
        ensures
            final(self).wf(),
            final(self).view() == old(self).view().insert(network.ssid@, network@),
    {
        let name = network.ssid.clone();
        self.insert(name, network);
    }

    /// The network saved under `ssid`.
    pub fn get_network(&self, ssid: &str) -> (r: Option<SavedNetwork>)
        requires
            self.wf(),
        ensures
            match r {
                Some(n) => self.view().dom().contains(ssid@) && self.view()[ssid@] == n@,
                None => !self.view().dom().contains(ssid@),
            },
    {
        match self.find(ssid) {
            Some(i) => {
                proof {
                    lemma_saved_at(self.networks@, i as int);
                }
                Some(copy_saved(&self.networks[i].1))
            },
            None => None,
        }
    }

    /// Forgets the network saved under `ssid`, if any.
    pub fn remove_network(&mut self, ssid: &str)
        requires
            old(self).wf(),
        ensures
            final(self).wf(),
            final(self).view() == old(self).view().remove(ssid@),
    {
        match self.find(ssid) {
            Some(i) => {
                proof {
                    lemma_saved_remove(self.networks@, i as int);
                }
                self.networks.remove(i);
            },
            None => {
                assert(self.view() =~= self.view().remove(ssid@));
            },
        }
    }

    /// The names under which networks are saved, each once.
    pub fn list_networks(&self) -> (r: Vec<String>)
        requires
            self.wf(),
        ensures
            r@.len() == self.view().dom().len(),
            texts(r@).to_set() == self.view().dom(),
            texts(r@).no_duplicates(),
    {
        let n = self.networks.len();
        let mut r: Vec<String> = Vec::new();
        let mut i: usize = 0;
        while i < n
            invariant
                n == self.networks@.len(),
                distinct_keys(self.networks@),
                i <= n,
                r@.len() == i,
                forall|j: int| 0 <= j < i ==> #[trigger] r@[j]@ == self.networks@[j].0@,
            decreases n - i,
        {
            r.push(self.networks[i].0.clone());
            i += 1;
        }
        let ghost ks = texts(r@);
        assert(ks.no_duplicates());
        assert forall|k: Seq<char>| ks.contains(k) == self.view().dom().contains(k) by {
            if ks.contains(k) {
                let j = choose|j: int| 0 <= j < ks.len() && ks[j] == k;
                assert(self.networks@[j].0@ == k);
            }
            if self.view().dom().contains(k) {
                let j = index_of_key(self.networks@, k);
                assert(ks[j] == k);
            }
        }
        assert(ks.to_set() =~= self.view().dom());
        proof {
            ks.unique_seq_to_set();
        }
        r
    }
}

} // verus!

verus! {

/// The security type a saved network's type name gives: `Open`, `WEP`,
/// `WPA`, `WPA2`, `WPA3`; any other name means WPA2.
pub open spec fn saved_security_type(s: Seq<char>) -> SecurityType {
    if s == "Open"@ {
        SecurityType::Open
    } else if s == "WEP"@ {
        SecurityType::WEP
    } else if s == "WPA"@ {
        SecurityType::WPA
    } else if s == "WPA2"@ {
        SecurityType::WPA2
    } else if s == "WPA3"@ {
        SecurityType::WPA3
    } else {
        SecurityType::WPA2
    }
}

/// The credentials that a saved network gives.
pub fn saved_network_credentials(saved: SavedNetwork) -> (c: WiFiCredentials)
    ensures
        c.ssid@ == saved.ssid@,
        opt_text(c.password) == opt_text(saved.password),
        c.security_type == saved_security_type(saved.security_type@),
        !c.hidden,
{
    let s = saved.security_type.as_str();
    let security_type = if str_eq(s, "Open") {
        SecurityType::Open
    } else if str_eq(s, "WEP") {
        SecurityType::WEP
    } else if str_eq(s, "WPA") {
        SecurityType::WPA
    } else if str_eq(s, "WPA2") {
        SecurityType::WPA2
    } else if str_eq(s, "WPA3") {
        SecurityType::WPA3
    } else {
        SecurityType::WPA2
    };
    WiFiCredentials { ssid: saved.ssid, password: saved.password, security_type, hidden: false }
}

/// The security type picked from the prompt's list (WPA/WPA2, WPA3, Open,
/// WEP); any other choice means WPA2.
pub open spec fn choice_security(index: usize) -> SecurityType {
    if index == 1 {
        SecurityType::WPA3
    } else if index == 2 {
        SecurityType::Open
    } else if index == 3 {
        SecurityType::WEP
    } else {
        SecurityType::WPA2
    }
}

/// The security type picked from the prompt's list.
pub fn security_for_choice(index: usize) -> (t: SecurityType)
    ensures
        t == choice_security(index),
{
    if index == 1 {
        SecurityType::WPA3
    } else if index == 2 {
        SecurityType::Open
    } else if index == 3 {
        SecurityType::WEP
    } else {
        SecurityType::WPA2
    }
}

/// The names of the saved Wi-Fi connections in `nmcli -t -f NAME,TYPE
/// connection show` output.
pub fn wireless_connection_names(output: &str) -> (r: Vec<String>)
    ensures
        texts(r@) == type_entries(text_lines(output@), "802-11-wireless"@),
{
    names_of_type(output, "802-11-wireless")
}

/// What follows `p` on the last line that starts with `p`; empty when none
/// does.
pub open spec fn last_value(ls: Seq<Seq<char>>, p: Seq<char>) -> Seq<char>
    decreases ls.len(),
{
    if ls.len() == 0 {
        Seq::empty()
    } else if has_prefix(ls.last(), p) {
        ls.last().skip(p.len() as int)
    } else {
        last_value(ls.drop_last(), p)
    }
}

/// The network that the details of a saved connection describe: its SSID
/// and key management, no password, never used, joined automatically; none
/// when the SSID is empty.
pub open spec fn system_network(ls: Seq<Seq<char>>) -> Option<SavedNetworkView> {
    let ssid = last_value(ls, "802-11-wireless.ssid:"@);
    if ssid.len() > 0 {
        Some(
            SavedNetworkView {
                ssid,
                password: None,
                security_type: last_value(ls, "802-11-wireless-security.key-mgmt:"@),
                last_used: None,
                auto_connect: true,
            },
        )
    } else {
        None
    }
}

fn value_after(l: &str, p: &str) -> (r: Option<String>)
    ensures
        match r {
            Some(v) => has_prefix(l@, p@) && v@ == l@.skip(p@.len() as int),
            None => !has_prefix(l@, p@),
        },
{
    if starts_with(l, p) {
        let v = l.substring_char(p.unicode_len(), l.unicode_len());
        assert(v@ =~= l@.skip(p@.len() as int));
        Some(v.to_owned())
    } else {
        None
    }
}

/// Reads the details of a saved connection (`nmcli -t -s -f
/// 802-11-wireless.ssid,802-11-wireless-security.key-mgmt connection show`).
pub fn system_network_from_details(output: &str) -> (r: Option<SavedNetwork>)
    ensures
        match r {
            Some(n) => system_network(text_lines(output@)) == Some(n@),
            None => system_network(text_lines(output@)) is None,
        },
{
    let ls = lines(output);
    let ghost all = texts(ls@);
    let ssid_key = "802-11-wireless.ssid:";
    let security_key = "802-11-wireless-security.key-mgmt:";
    let mut ssid = String::new();
    let mut security = String::new();
    let mut i: usize = 0;
    assert(all.take(0) =~= Seq::<Seq<char>>::empty());
    while i < ls.len()
        invariant
            all == texts(ls@),
            i <= ls@.len(),
            ssid@ == last_value(all.take(i as int), ssid_key@),
            security@ == last_value(all.take(i as int), security_key@),
        decreases ls@.len() - i,
    {
        let line = ls[i].as_str();
        assert(all.take(i + 1).drop_last() =~= all.take(i as int));
        assert(all.take(i + 1).last() == line@);
        match value_after(line, ssid_key) {
            Some(v) => {
                ssid = v;
            },
            None => {},
        }
        match value_after(line, security_key) {
            Some(v) => {
                security = v;
            },
            None => {},
        }
        i += 1;
    }
    assert(all.take(ls@.len() as int) =~= all);
    if ssid.as_str().unicode_len() > 0 {
        Some(
            SavedNetwork {
                ssid,
                password: None,
                security_type: security,
                last_used: None,
                auto_connect: true,
            },
        )
    } else {
        None
    }
}

/// What is saved under a name is what a read gives back, and saving or
/// forgetting one name leaves the others as they were.
pub proof fn law_saved_network_read_back(
    saved: Map<Seq<char>, SavedNetworkView>,
    name: Seq<char>,
    network: SavedNetworkView,
    other: Seq<char>,
)
    requires
        other != name,
    ensures
        saved.insert(name, network).dom().contains(name),
        saved.insert(name, network)[name] == network,
        saved.insert(name, network).dom().contains(other) == saved.dom().contains(other),
        saved.insert(name, network)[other] == saved[other],
        !saved.remove(name).dom().contains(name),
        saved.remove(name).dom().contains(other) == saved.dom().contains(other),
        saved.remove(name)[other] == saved[other],
{
}

} // verus!

verus! {

/// Saved credentials read back the security type they were saved with,
/// Enterprise aside (it is read back as WPA2).
pub proof fn law_saved_security_round_trip(t: SecurityType)
    ensures
        t != SecurityType::Enterprise ==> saved_security_type(security_type_text(t)) == t,
        saved_security_type(security_type_text(SecurityType::Enterprise)) == SecurityType::WPA2,
{
    reveal_strlit("Open");
    reveal_strlit("WEP");
    reveal_strlit("WPA");
    reveal_strlit("WPA2");
    reveal_strlit("WPA3");
    reveal_strlit("Enterprise");
    assert("WPA"@[1] != "WEP"@[1]);
    assert("WPA2"@[0] != "Open"@[0]);
    assert("WPA3"@[0] != "Open"@[0]);
    assert("WPA3"@[3] != "WPA2"@[3]);
    assert("WEP"@ != "Open"@);
    assert("WPA"@ != "Open"@);
    assert("WPA2"@.len() == 4 && "WPA3"@.len() == 4 && "WPA"@.len() == 3 && "WEP"@.len() == 3);
    assert("WPA2"@ != "WEP"@ && "WPA2"@ != "WPA"@);
    assert("WPA3"@ != "WEP"@ && "WPA3"@ != "WPA"@);
    assert("Enterprise"@ != "Open"@ && "Enterprise"@ != "WEP"@ && "Enterprise"@ != "WPA"@);
    assert("Enterprise"@ != "WPA2"@ && "Enterprise"@ != "WPA3"@);
}

} // verus!
