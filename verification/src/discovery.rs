//! Finding lights on the local network: the registry that mDNS
//! announcements fill, and the entry for a light given by address.
use crate::light_service::str_eq;
use crate::models::LightInfo;
use crate::text::{push_str, texts};
use vstd::prelude::*;

verus! {

/// The mDNS service type under which the lights announce themselves.
pub const RING_LIGHT_SERVICE: &'static str = "_elg._tcp.local.";

/// What a light announcement says; the caller reads it from the network.
pub enum DiscoveryEvent {
    /// A service was resolved: its full name, its addresses in the order
    /// they came, and its port.
    Resolved { fullname: String, addresses: Vec<String>, port: u16 },
    /// A service went away.
    Removed { fullname: String },
    /// Anything else.
    Other,
}

/// The address and port recorded for a light.
pub open spec fn light_entry(l: LightInfo) -> (Seq<char>, u16) {
    (l.ip@, l.port)
}

pub open spec fn has_name(s: Seq<LightInfo>, k: Seq<char>) -> bool {
    exists|i: int| 0 <= i < s.len() && #[trigger] s[i].name@ == k
}

pub open spec fn index_of_name(s: Seq<LightInfo>, k: Seq<char>) -> int {
    choose|i: int| 0 <= i < s.len() && #[trigger] s[i].name@ == k
}

/// No two lights share a name.
pub open spec fn distinct_names(s: Seq<LightInfo>) -> bool {
    forall|i: int, j: int| 0 <= i < s.len() && 0 <= j < s.len() && i != j ==> s[i].name@ != s[j].name@
}

/// The lights by name: address and port.
pub open spec fn lights_view(s: Seq<LightInfo>) -> Map<Seq<char>, (Seq<char>, u16)> {
    Map::new(|k: Seq<char>| has_name(s, k), |k: Seq<char>| light_entry(s[index_of_name(s, k)]))
}

proof fn lemma_lights_at(s: Seq<LightInfo>, i: int)
    requires
        distinct_names(s),
        0 <= i < s.len(),
    ensures
        lights_view(s).dom().contains(s[i].name@),
        lights_view(s)[s[i].name@] == light_entry(s[i]),
{
    assert(has_name(s, s[i].name@));
    let j = index_of_name(s, s[i].name@);
    assert(s[j].name@ == s[i].name@);
}

proof fn lemma_lights_update(s: Seq<LightInfo>, i: int, e: LightInfo)
    requires
        distinct_names(s),
        0 <= i < s.len(),
        e.name@ == s[i].name@,
    ensures
        distinct_names(s.update(i, e)),
        lights_view(s.update(i, e)) == lights_view(s).insert(e.name@, light_entry(e)),
{
    let t = s.update(i, e);
    assert forall|k: Seq<char>| has_name(t, k) == (has_name(s, k) || k == e.name@) by {
        if has_name(s, k) {
            let j = index_of_name(s, k);
            assert(t[j].name@ == k);
        }
        if has_name(t, k) {
            let j = index_of_name(t, k);
            assert(s[j].name@ == k);
        }
    }
    assert forall|k: Seq<char>| #[trigger] lights_view(t).dom().contains(k) implies lights_view(t)[k]
        == lights_view(s).insert(e.name@, light_entry(e))[k] by {
        let j = index_of_name(t, k);
        if k == e.name@ {
            assert(j == i);
        } else {
            lemma_lights_at(s, j);
        }
    }
    assert(lights_view(t) =~= lights_view(s).insert(e.name@, light_entry(e)));
}

proof fn lemma_lights_push(s: Seq<LightInfo>, e: LightInfo)
    requires
        distinct_names(s),
        !has_name(s, e.name@),
    ensures
        distinct_names(s.push(e)),
        lights_view(s.push(e)) == lights_view(s).insert(e.name@, light_entry(e)),
{
    let t = s.push(e);
    assert forall|i: int, j: int|
        0 <= i < t.len() && 0 <= j < t.len() && i != j implies t[i].name@ != t[j].name@ by {
        if i == s.len() as int {
            assert(s[j].name@ == t[j].name@);
        } else if j == s.len() as int {
            assert(s[i].name@ == t[i].name@);
        }
    }
    assert forall|k: Seq<char>| has_name(t, k) == (has_name(s, k) || k == e.name@) by {
        if has_name(s, k) {
            let j = index_of_name(s, k);
            assert(t[j].name@ == k);
        }
        if k == e.name@ {
            assert(t[s.len() as int].name@ == k);
        }
        if has_name(t, k) && k != e.name@ {
            let j = index_of_name(t, k);
            assert(s[j].name@ == k);
        }
    }
    assert forall|k: Seq<char>| #[trigger] lights_view(t).dom().contains(k) implies lights_view(t)[k]
        == lights_view(s).insert(e.name@, light_entry(e))[k] by {
        let j = index_of_name(t, k);
        if k == e.name@ {
            lemma_lights_at(t, s.len() as int);
        } else {
            lemma_lights_at(s, j);
        }
    }
    assert(lights_view(t) =~= lights_view(s).insert(e.name@, light_entry(e)));
}

proof fn lemma_lights_remove(s: Seq<LightInfo>, i: int)
    requires
        distinct_names(s),
        0 <= i < s.len(),
    ensures
        distinct_names(s.remove(i)),
        lights_view(s.remove(i)) == lights_view(s).remove(s[i].name@),
{
    let t = s.remove(i);
    let key = s[i].name@;
    assert forall|a: int, b: int|
        0 <= a < t.len() && 0 <= b < t.len() && a != b implies t[a].name@ != t[b].name@ by {
        let a2 = if a < i { a } else { a + 1 };
        let b2 = if b < i { b } else { b + 1 };
        assert(t[a] == s[a2]);
        assert(t[b] == s[b2]);
    }
    assert forall|k: Seq<char>| has_name(t, k) == (has_name(s, k) && k != key) by {
        if has_name(s, k) && k != key {
            let j = index_of_name(s, k);
            if j < i {
                assert(t[j].name@ == k);
            } else {
                assert(j != i);
                assert(t[j - 1].name@ == k);
            }
        }
        if has_name(t, k) {
            let j = index_of_name(t, k);
            let j2 = if j < i { j } else { j + 1 };
            assert(t[j] == s[j2]);
        }
    }
    assert forall|k: Seq<char>| #[trigger] lights_view(t).dom().contains(k) implies lights_view(t)[k]
        == lights_view(s).remove(key)[k] by {
        let j = index_of_name(t, k);
        let j2 = if j < i { j } else { j + 1 };
        assert(t[j] == s[j2]);
        lemma_lights_at(s, j2);
    }
    assert(lights_view(t) =~= lights_view(s).remove(key));
}


/// The lights announced so far, by full service name.
pub struct LightRegistry {
    pub lights: Vec<LightInfo>,
}

impl LightRegistry {
    pub open spec fn view(&self) -> Map<Seq<char>, (Seq<char>, u16)> {
        lights_view(self.lights@)
    }

    pub open spec fn wf(&self) -> bool {
        &&& distinct_names(self.lights@)
        &&& forall|i: int|
            0 <= i < self.lights@.len() ==> (#[trigger] self.lights@[i]).state is None
                && self.lights@[i].accessory_info is None
    }

    /// No lights.
    pub fn new() -> (r: Self)
        ensures
            r.wf(),
            r.view() == Map::<Seq<char>, (Seq<char>, u16)>::empty(),
    {
        let r = LightRegistry { lights: Vec::new() };
        assert(r.view() =~= Map::<Seq<char>, (Seq<char>, u16)>::empty());
        r
    }

    fn find(&self, name: &str) -> (r: Option<usize>)
        ensures
            match r {
                Some(i) => i < self.lights@.len() && self.lights@[i as int].name@ == name@,
                None => !has_name(self.lights@, name@),
            },
    {
        let n = self.lights.len();
        let mut i: usize = 0;
        while i < n
            invariant
                n == self.lights@.len(),
                i <= n,
                forall|j: int| 0 <= j < i ==> self.lights@[j].name@ != name@,
            decreases n - i,
        {
            if str_eq(self.lights[i].name.as_str(), name) {
                return Some(i);
            }
            i += 1;
        }
        None
    }

    /// Records a resolved service under its full name, at its first
    /// address; a service without address is not recorded.
    pub fn resolved(&mut self, fullname: String, addresses: &Vec<String>, port: u16)
        requires
            old(self).wf(),
        ensures
            final(self).wf(),
            addresses@.len() > 0 ==> final(self).view() == old(self).view().insert(
                fullname@,
                (addresses@[0]@, port),
            ),
            addresses@.len() == 0 ==> final(self).view() == old(self).view(),
    {
        if addresses.len() == 0 {
            return;
        }
        let e = LightInfo {
            ip: addresses[0].clone(),
            port,
            name: fullname,
            state: None,
            accessory_info: None,
        };
        match self.find(e.name.as_str()) {
            Some(i) => {
                proof {
                    lemma_lights_update(self.lights@, i as int, e);
                }
                self.lights.set(i, e);
            },
            None => {
                proof {
                    lemma_lights_push(self.lights@, e);
                }
                self.lights.push(e);
            },
        }
    }

    /// Forgets a service that went away.
    pub fn removed(&mut self, fullname: &str)
        requires
            old(self).wf(),
        ensures
            final(self).wf(),
            final(self).view() == old(self).view().remove(fullname@),
    {
        match self.find(fullname) {
            Some(i) => {
                proof {
                    lemma_lights_remove(self.lights@, i as int);
                }
                self.lights.remove(i);
            },
            None => {
                assert(self.view() =~= self.view().remove(fullname@));
            },
        }
    }

    /// Takes in one announcement.
    pub fn handle_event(&mut self, event: DiscoveryEvent)
        requires
            old(self).wf(),
        ensures
            final(self).wf(),
            match event {
                DiscoveryEvent::Resolved { fullname, addresses, port } => if addresses@.len() > 0 {
                    final(self).view() == old(self).view().insert(fullname@, (addresses@[0]@, port))
                } else {
                    final(self).view() == old(self).view()
                },
                DiscoveryEvent::Removed { fullname } => final(self).view() == old(self).view().remove(
                    fullname@,
                ),
                DiscoveryEvent::Other => final(self).view() == old(self).view(),
            },
    {
        match event {
            DiscoveryEvent::Resolved { fullname, addresses, port } => {
                self.resolved(fullname, &addresses, port);
            },
            DiscoveryEvent::Removed { fullname } => {
                self.removed(fullname.as_str());
            },
            DiscoveryEvent::Other => {},
        }
    }

    /// The lights found: one per full name, named by it, at its recorded
    /// address and port, with nothing read from it yet.
    pub fn into_lights(self) -> (r: Vec<LightInfo>)
        requires
            self.wf(),
        ensures
            r@.len() == self.view().dom().len(),
            texts(Seq::new(r@.len(), |i: int| r@[i].name)).to_set() == self.view().dom(),
            forall|i: int, j: int|
                0 <= i < r@.len() && 0 <= j < r@.len() && i != j ==> r@[i].name@ != r@[j].name@,
            forall|i: int|
                0 <= i < r@.len() ==> self.view()[(#[trigger] r@[i]).name@] == light_entry(r@[i])
                    && r@[i].state is None && r@[i].accessory_info is None,
    {
        let ghost s = self.lights@;
        let ghost names = texts(Seq::new(s.len(), |i: int| s[i].name));
        assert forall|i: int| 0 <= i < s.len() implies lights_view(s)[(#[trigger] s[i]).name@]
            == light_entry(s[i]) by {
            lemma_lights_at(s, i);
        }
        assert forall|k: Seq<char>| names.contains(k) == lights_view(s).dom().contains(k) by {
            if names.contains(k) {
                let j = choose|j: int| 0 <= j < names.len() && names[j] == k;
                assert(s[j].name@ == k);
            }
            if lights_view(s).dom().contains(k) {
                let j = index_of_name(s, k);
                assert(names[j] == k);
            }
        }
        assert(names.to_set() =~= lights_view(s).dom());
        assert(names.no_duplicates());
        proof {
            names.unique_seq_to_set();
        }
        self.lights
    }
}

/// The entry for a light given by address: named `ring-light-` and its
/// address, with nothing read from it yet.
pub fn find_light_by_ip(ip: &str, port: u16) -> (l: LightInfo)
    ensures
        l.ip@ == ip@,
        l.port == port,
        l.name@ == "ring-light-"@ + ip@,
        l.state is None,
        l.accessory_info is None,
{
    let mut name = String::new();
    push_str(&mut name, "ring-light-");
    push_str(&mut name, ip);
    LightInfo { ip: ip.to_owned(), port, name, state: None, accessory_info: None }
}

} // verus!
