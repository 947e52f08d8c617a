//! The Wi-Fi side of provisioning on this machine: reading what the network
//! tools (`nmcli`, `ip`) print, and the commands that join a network.
use crate::light_service::str_eq;
use crate::provisioning::enhanced_manager::{lowercase, opt_text, to_lowercase};
use crate::provisioning::{SecurityType, WiFiCredentials, WiFiNetwork};
use crate::sort::{stable_desc_order, stable_order_desc};
use crate::text::{
    before_first, contains, contains_text, occurs_at, find_char, has_prefix, lemma_after_first_at,
    lemma_after_first_none, lines, parse_i32, parse_signed, parse_u32, parse_u8, parse_unsigned,
    push_str, split_fields, split_on, split_words, starts_with, text_lines, texts, words,
};
use vstd::prelude::*;

verus! {

/// The Wi-Fi interface that scans and connections use.
pub struct WiFiManager {
    pub interface: String,
}

impl WiFiManager {
    pub fn new(interface: String) -> (m: Self)
        ensures
            m.interface@ == interface@,
    {
        Self { interface }
    }
}

/// The security type that a scan's security column names, read from its
/// lower-cased text: `wpa3`, `wpa2`, `wpa`, `wep`, `802.1x` in that order,
/// `--`, `open` or nothing for an open network, and WPA2 for anything else.
pub open spec fn security_from_text(lower: Seq<char>) -> SecurityType {
    if contains_text(lower, "wpa3"@) {
        SecurityType::WPA3
    } else if contains_text(lower, "wpa2"@) {
        SecurityType::WPA2
    } else if contains_text(lower, "wpa"@) {
        SecurityType::WPA
    } else if contains_text(lower, "wep"@) {
        SecurityType::WEP
    } else if contains_text(lower, "802.1x"@) {
        SecurityType::Enterprise
    } else if lower == "--"@ || lower == "open"@ || lower.len() == 0 {
        SecurityType::Open
    } else {
        SecurityType::WPA2
    }
}

/// Reads the security column of a scan.
pub fn parse_security_type(security_str: &str) -> (t: SecurityType)
    ensures
        t == security_from_text(lowercase(security_str@)),
{
    let lower = to_lowercase(security_str);
    let l = lower.as_str();
    if contains(l, "wpa3") {
        SecurityType::WPA3
    } else if contains(l, "wpa2") {
        SecurityType::WPA2
    } else if contains(l, "wpa") {
        SecurityType::WPA
    } else if contains(l, "wep") {
        SecurityType::WEP
    } else if contains(l, "802.1x") {
        SecurityType::Enterprise
    } else if str_eq(l, "--") || str_eq(l, "open") || l.unicode_len() == 0 {
        SecurityType::Open
    } else {
        SecurityType::WPA2
    }
}

/// A parsed number, or 0 where the text is no number of the type.
pub open spec fn or_zero<T>(p: Option<T>) -> int where T: Integer {
    match p {
        Some(v) => v as int,
        None => 0,
    }
}

/// Whether the `:`-separated fields of a scan line describe a network: at
/// least eight fields and a non-empty SSID.
pub open spec fn is_scan_entry(parts: Seq<Seq<char>>) -> bool {
    parts.len() >= 8 && parts[0].len() > 0
}

/// The fields of the scan lines that describe networks, in their order.
pub open spec fn scan_entries(ls: Seq<Seq<char>>) -> Seq<Seq<Seq<char>>>
    decreases ls.len(),
{
    if ls.len() == 0 {
        Seq::empty()
    } else {
        let parts = split_fields(ls.last(), ':');
        scan_entries(ls.drop_last()) + if is_scan_entry(parts) {
            seq![parts]
        } else {
            Seq::empty()
        }
    }
}

/// The signal strength column (the seventh field), 0 where it is no `i32`.
pub open spec fn entry_signal(parts: Seq<Seq<char>>) -> int {
    or_zero(parse_signed(parts[6], 2147483648, 2147483647))
}

/// The signal strengths of scan entries.
pub open spec fn entry_signals(es: Seq<Seq<Seq<char>>>) -> Seq<i32> {
    Seq::new(es.len(), |k: int| entry_signal(es[k]) as i32)
}

/// The network that the fields of a scan line describe: SSID, BSSID,
/// channel, frequency, signal and security from fields 1, 2, 4, 5, 7 and 8;
/// a number that does not parse counts as 0.
pub open spec fn network_of_entry(n: WiFiNetwork, parts: Seq<Seq<char>>) -> bool {
    &&& n.ssid@ == parts[0]
    &&& opt_text(n.bssid) == Some(parts[1])
    &&& n.signal_strength as int == entry_signal(parts)
    &&& n.security_type == security_from_text(lowercase(parts[7]))
    &&& n.frequency as int == or_zero(parse_unsigned(parts[4], 4294967295))
    &&& n.channel as int == or_zero(parse_unsigned(parts[3], 255))
}

/// Two networks with the same fields.
pub open spec fn same_network(a: WiFiNetwork, b: WiFiNetwork) -> bool {
    &&& a.ssid@ == b.ssid@
    &&& opt_text(a.bssid) == opt_text(b.bssid)
    &&& a.signal_strength == b.signal_strength
    &&& a.security_type == b.security_type
    &&& a.frequency == b.frequency
    &&& a.channel == b.channel
}

fn copy_network(n: &WiFiNetwork) -> (r: WiFiNetwork)
    ensures
        same_network(r, *n),
{
    let bssid = match &n.bssid {
        Some(b) => Some(b.clone()),
        None => None,
    };
    WiFiNetwork {
        ssid: n.ssid.clone(),
        bssid,
        signal_strength: n.signal_strength,
        security_type: n.security_type,
        frequency: n.frequency,
        channel: n.channel,
    }
}

fn network_from_fields(parts: &Vec<String>) -> (n: WiFiNetwork)
    requires
        is_scan_entry(texts(parts@)),
    ensures
        network_of_entry(n, texts(parts@)),
{
    let ghost p = texts(parts@);
    assert(parts@[0]@ == p[0] && parts@[1]@ == p[1] && parts@[3]@ == p[3]);
    assert(parts@[4]@ == p[4] && parts@[6]@ == p[6] && parts@[7]@ == p[7]);
    let signal_strength = match parse_i32(parts[6].as_str()) {
        Some(v) => v,
        None => 0,
    };
    let frequency = match parse_u32(parts[4].as_str()) {
        Some(v) => v,
        None => 0,
    };
    let channel = match parse_u8(parts[3].as_str()) {
        Some(v) => v,
        None => 0,
    };
    WiFiNetwork {
        ssid: parts[0].clone(),
        bssid: Some(parts[1].clone()),
        signal_strength,
        security_type: parse_security_type(parts[7].as_str()),
        frequency,
        channel,
    }
}

/// The networks of a terse `nmcli` scan (`SSID:BSSID:MODE:CHAN:FREQ:RATE:
/// SIGNAL:SECURITY`, one per line), strongest signal first; equal signals
/// keep the scan's order.
pub fn parse_scan_output(output: &str) -> (networks: Vec<WiFiNetwork>)
    ensures
        ({
            let es = scan_entries(text_lines(output@));
            &&& networks@.len() == es.len()
            &&& exists|order: Seq<usize>|
                stable_desc_order(entry_signals(es), order) && forall|k: int|
                    0 <= k < networks@.len() ==> network_of_entry(
                        #[trigger] networks@[k],
                        es[order[k] as int],
                    )
        }),
{
    let ls = lines(output);
    let ghost all = texts(ls@);
    let mut found: Vec<WiFiNetwork> = Vec::new();
    let mut i: usize = 0;
    assert(all.take(0) =~= Seq::<Seq<char>>::empty());
    while i < ls.len()
        invariant
            all == texts(ls@),
            i <= ls@.len(),
            found@.len() == scan_entries(all.take(i as int)).len(),
            forall|k: int|
                0 <= k < found@.len() ==> network_of_entry(
                    #[trigger] found@[k],
                    scan_entries(all.take(i as int))[k],
                ),
        decreases ls@.len() - i,
    {
        let parts = split_on(ls[i].as_str(), ':');
        let ghost prev = scan_entries(all.take(i as int));
        assert(all.take(i + 1).drop_last() =~= all.take(i as int));
        assert(all.take(i + 1).last() == ls@[i as int]@);
        if parts.len() >= 8 && parts[0].as_str().unicode_len() > 0 {
            assert(parts@[0]@ == texts(parts@)[0]);
            let n = network_from_fields(&parts);
            found.push(n);
            assert(scan_entries(all.take(i + 1)) =~= prev.push(texts(parts@)));
        } else {
            assert(parts@.len() >= 8 ==> parts@[0]@ == texts(parts@)[0]);
            assert(scan_entries(all.take(i + 1)) =~= prev);
        }
        i += 1;
    }
    assert(all.take(ls@.len() as int) =~= all);
    let ghost es = scan_entries(all);
    let mut keys: Vec<i32> = Vec::new();
    let mut j: usize = 0;
    while j < found.len()
        invariant
            j <= found@.len(),
            found@.len() == es.len(),
            forall|k: int| 0 <= k < found@.len() ==> network_of_entry(#[trigger] found@[k], es[k]),
            keys@ =~= entry_signals(es).take(j as int),
        decreases found@.len() - j,
    {
        assert(network_of_entry(found@[j as int], es[j as int]));
        keys.push(found[j].signal_strength);
        j += 1;
    }
    assert(keys@ =~= entry_signals(es));
    let order = stable_order_desc(&keys);
    let mut networks: Vec<WiFiNetwork> = Vec::new();
    let mut k: usize = 0;
    while k < order.len()
        invariant
            k <= order@.len(),
            found@.len() == es.len(),
            forall|m: int| 0 <= m < found@.len() ==> network_of_entry(#[trigger] found@[m], es[m]),
            stable_desc_order(entry_signals(es), order@),
            networks@.len() == k,
            forall|m: int|
                0 <= m < k ==> network_of_entry(#[trigger] networks@[m], es[order@[m] as int]),
        decreases order@.len() - k,
    {
        let idx = order[k];
        assert(idx < found@.len());
        assert(network_of_entry(found@[idx as int], es[idx as int]));
        networks.push(copy_network(&found[idx]));
        k += 1;
    }
    networks
}

} // verus!

verus! {

/// The connection named on a line of `nmcli -t -f GENERAL.CONNECTION dev
/// show`: what follows `GENERAL.CONNECTION:`, unless empty or `--`.
pub open spec fn connection_in_line(l: Seq<char>) -> Option<Seq<char>> {
    let p = "GENERAL.CONNECTION:"@;
    if has_prefix(l, p) {
        let c = l.skip(p.len() as int);
        if c.len() > 0 && c != "--"@ {
            Some(c)
        } else {
            None
        }
    } else {
        None
    }
}

/// The connection named by the first line that names one.
pub open spec fn first_connection(ls: Seq<Seq<char>>) -> Option<Seq<char>>
    decreases ls.len(),
{
    if ls.len() == 0 {
        None
    } else {
        match connection_in_line(ls[0]) {
            Some(c) => Some(c),
            None => first_connection(ls.drop_first()),
        }
    }
}

fn line_connection(l: &str) -> (r: Option<String>)
    ensures
        opt_text(r) == connection_in_line(l@),
{
    let p = "GENERAL.CONNECTION:";
    if starts_with(l, p) {
        let n = l.unicode_len();
        let c = l.substring_char(p.unicode_len(), n);
        assert(c@ =~= l@.skip(p@.len() as int));
        if c.unicode_len() > 0 && !str_eq(c, "--") {
            Some(c.to_owned())
        } else {
            None
        }
    } else {
        None
    }
}

/// The active connection of the interface, read from `nmcli -t -f
/// GENERAL.CONNECTION dev show` output.
pub fn parse_current_connection(output: &str) -> (r: Option<String>)
    ensures
        opt_text(r) == first_connection(text_lines(output@)),
{
    let ls = lines(output);
    let ghost all = texts(ls@);
    let mut i: usize = 0;
    assert(all.skip(0) =~= all);
    while i < ls.len()
        invariant
            all == texts(ls@),
            i <= ls@.len(),
            all == text_lines(output@),
            first_connection(all) == first_connection(all.skip(i as int)),
        decreases ls@.len() - i,
    {
        assert(all.skip(i as int)[0] == ls@[i as int]@);
        assert(all.skip(i as int).drop_first() =~= all.skip(i + 1));
        match line_connection(ls[i].as_str()) {
            Some(c) => {
                assert(all.skip(i as int).len() > 0);
                assert(connection_in_line(all.skip(i as int)[0]) == Some(c@));
                assert(first_connection(all.skip(i as int)) == Some(c@));
                return Some(c);
            },
            None => {},
        }
        i += 1;
    }
    assert(all.skip(i as int) =~= Seq::<Seq<char>>::empty());
    None
}

/// The second word of a line, if it has one.
pub open spec fn second_word(l: Seq<char>) -> Option<Seq<char>> {
    if words(l).len() >= 2 {
        Some(words(l)[1])
    } else {
        None
    }
}

/// The MAC address in `ip addr show` output: the second word of the last
/// `link/ether` line that has one; empty when there is none.
pub open spec fn mac_of_lines(ls: Seq<Seq<char>>) -> Seq<char>
    decreases ls.len(),
{
    if ls.len() == 0 {
        Seq::empty()
    } else {
        let l = ls.last();
        match second_word(l) {
            Some(w) if contains_text(l, "link/ether"@) => w,
            _ => mac_of_lines(ls.drop_last()),
        }
    }
}

/// The IPv4 address in `ip addr show` output: from the last `inet ` line
/// that is not the loopback address and has a second word, that word up to
/// its `/`.
pub open spec fn ip_of_lines(ls: Seq<Seq<char>>) -> Option<Seq<char>>
    decreases ls.len(),
{
    if ls.len() == 0 {
        None
    } else {
        let l = ls.last();
        match second_word(l) {
            Some(w) if contains_text(l, "inet "@) && !contains_text(l, "127.0.0.1"@) => Some(
                before_first(w, '/'),
            ),
            _ => ip_of_lines(ls.drop_last()),
        }
    }
}

/// What `ip addr show` says about an interface.
#[derive(Debug, Clone)]
pub struct InterfaceInfo {
    pub interface: String,
    pub mac_address: String,
    pub ip_address: Option<String>,
}

fn text_before(s: &str, c: char) -> (r: String)
    ensures
        r@ == before_first(s@, c),
{
    match find_char(s, c) {
        Some(i) => {
            proof {
                lemma_after_first_at(s@, c, i as int);
            }
            let t = s.substring_char(0, i);
            assert(t@ =~= s@.take(i as int));
            t.to_owned()
        },
        None => {
            proof {
                lemma_after_first_none(s@, c);
            }
            s.to_owned()
        },
    }
}

impl WiFiManager {
    /// The interface's MAC and IPv4 addresses, read from `ip addr show`
    /// output.
    pub fn interface_info(&self, output: &str) -> (info: InterfaceInfo)
        ensures
            info.interface@ == self.interface@,
            info.mac_address@ == mac_of_lines(text_lines(output@)),
            opt_text(info.ip_address) == ip_of_lines(text_lines(output@)),
    {
        let ls = lines(output);
        let ghost all = texts(ls@);
        let mut mac_address = String::new();
        let mut ip_address: Option<String> = None;
        let mut i: usize = 0;
        assert(all.take(0) =~= Seq::<Seq<char>>::empty());
        while i < ls.len()
            invariant
                all == texts(ls@),
                i <= ls@.len(),
                mac_address@ == mac_of_lines(all.take(i as int)),
                opt_text(ip_address) == ip_of_lines(all.take(i as int)),
            decreases ls@.len() - i,
        {
            let line = ls[i].as_str();
            assert(all.take(i + 1).drop_last() =~= all.take(i as int));
            assert(all.take(i + 1).last() == line@);
            let ws = split_words(line);
            assert(ws@.len() >= 2 ==> ws@[1]@ == words(line@)[1]);
            if contains(line, "link/ether") && ws.len() >= 2 {
                mac_address = ws[1].clone();
            }
            if contains(line, "inet ") && !contains(line, "127.0.0.1") && ws.len() >= 2 {
                ip_address = Some(text_before(ws[1].as_str(), '/'));
            }
            i += 1;
        }
        assert(all.take(ls@.len() as int) =~= all);
        InterfaceInfo { interface: self.interface.clone(), mac_address, ip_address }
    }
}

/// The first fields of the lines of terse `nmcli` output whose second
/// field is `ty`.
pub open spec fn type_entries(ls: Seq<Seq<char>>, ty: Seq<char>) -> Seq<Seq<char>>
    decreases ls.len(),
{
    if ls.len() == 0 {
        Seq::empty()
    } else {
        let p = split_fields(ls.last(), ':');
        type_entries(ls.drop_last(), ty) + if p.len() >= 2 && p[1] == ty {
            seq![p[0]]
        } else {
            Seq::empty()
        }
    }
}

/// The names whose type is `ty` in terse `nmcli` output (`NAME:TYPE`
/// lines).
pub fn names_of_type(output: &str, ty: &str) -> (r: Vec<String>)
    ensures
        texts(r@) == type_entries(text_lines(output@), ty@),
{
    let ls = lines(output);
    let ghost all = texts(ls@);
    let mut r: Vec<String> = Vec::new();
    let mut i: usize = 0;
    assert(all.take(0) =~= Seq::<Seq<char>>::empty());
    while i < ls.len()
        invariant
            all == texts(ls@),
            i <= ls@.len(),
            texts(r@) == type_entries(all.take(i as int), ty@),
        decreases ls@.len() - i,
    {
        let parts = split_on(ls[i].as_str(), ':');
        let ghost before = texts(r@);
        assert(all.take(i + 1).drop_last() =~= all.take(i as int));
        assert(all.take(i + 1).last() == ls@[i as int]@);
        assert(parts@.len() >= 2 ==> parts@[1]@ == texts(parts@)[1] && parts@[0]@ == texts(parts@)[0]);
        if parts.len() >= 2 && str_eq(parts[1].as_str(), ty) {
            r.push(parts[0].clone());
            assert(texts(r@) =~= before.push(texts(parts@)[0]));
        } else {
            assert(texts(r@) =~= before + Seq::<Seq<char>>::empty());
        }
        i += 1;
    }
    assert(all.take(ls@.len() as int) =~= all);
    r
}

/// The Wi-Fi interfaces in `nmcli -t -f DEVICE,TYPE dev status` output:
/// the devices of type `wifi`.
pub fn parse_wifi_interfaces(output: &str) -> (r: Vec<String>)
    ensures
        texts(r@) == type_entries(text_lines(output@), "wifi"@),
{
    names_of_type(output, "wifi")
}

} // verus!

verus! {

/// Why joining a Wi-Fi network failed.
#[derive(Debug, Clone)]
pub enum WifiError {
    /// A WPA network was given no password.
    PasswordRequired,
    /// A WEP network was given no password.
    WepPasswordRequired,
    /// Enterprise (802.1X) networks cannot be joined.
    EnterpriseNotSupported,
    /// `nmcli connection add` failed; its error output.
    CreateFailed(String),
    /// `nmcli connection up` failed; its error output.
    ConnectFailed(String),
}

impl WifiError {
    /// The message shown to the caller.
    pub fn message(&self) -> (m: String)
        ensures
            m@ == match self {
                WifiError::PasswordRequired => "Password required for secured network"@,
                WifiError::WepPasswordRequired => "Password required for WEP network"@,
                WifiError::EnterpriseNotSupported => "Enterprise networks not yet supported"@,
                WifiError::CreateFailed(e) => "Failed to create connection: "@ + e@,
                WifiError::ConnectFailed(e) => "Failed to connect: "@ + e@,
            },
    {
        let mut m = String::new();
        match self {
            WifiError::PasswordRequired => push_str(&mut m, "Password required for secured network"),
            WifiError::WepPasswordRequired => push_str(&mut m, "Password required for WEP network"),
            WifiError::EnterpriseNotSupported => push_str(
                &mut m,
                "Enterprise networks not yet supported",
            ),
            WifiError::CreateFailed(e) => {
                push_str(&mut m, "Failed to create connection: ");
                push_str(&mut m, e.as_str());
            },
            WifiError::ConnectFailed(e) => {
                push_str(&mut m, "Failed to connect: ");
                push_str(&mut m, e.as_str());
            },
        }
        m
    }
}

/// The name of the connection made for a network.
pub open spec fn connection_name_of(ssid: Seq<char>) -> Seq<char> {
    "provisioning-"@ + ssid
}

/// The name of the connection made for a network: `provisioning-` and the
/// SSID.
pub fn connection_name(ssid: &str) -> (r: String)
    ensures
        r@ == connection_name_of(ssid@),
{
    let mut r = String::new();
    push_str(&mut r, "provisioning-");
    push_str(&mut r, ssid);
    r
}

/// The `nmcli` arguments that set a network's security: none for an open
/// network, a pre-shared key for WPA, a WEP key for WEP; a secured network
/// without password, and an Enterprise network, are refused.
pub open spec fn security_args(c: WiFiCredentials) -> Result<Seq<Seq<char>>, WifiError> {
    match c.security_type {
        SecurityType::Open => Ok(Seq::empty()),
        SecurityType::WEP => match c.password {
            Some(p) => Ok(seq!["wifi-sec.key-mgmt"@, "none"@, "wifi-sec.wep-key0"@, p@]),
            None => Err(WifiError::WepPasswordRequired),
        },
        SecurityType::Enterprise => Err(WifiError::EnterpriseNotSupported),
        _ => match c.password {
            Some(p) => Ok(seq!["wifi-sec.key-mgmt"@, "wpa-psk"@, "wifi-sec.psk"@, p@]),
            None => Err(WifiError::PasswordRequired),
        },
    }
}

/// The arguments of `nmcli` that add the connection for a network on an
/// interface.
pub open spec fn add_args(interface: Seq<char>, c: WiFiCredentials) -> Result<
    Seq<Seq<char>>,
    WifiError,
> {
    match security_args(c) {
        Ok(sec) => Ok(
            seq![
                "connection"@,
                "add"@,
                "type"@,
                "wifi"@,
                "con-name"@,
                connection_name_of(c.ssid@),
                "ifname"@,
                interface,
                "ssid"@,
                c.ssid@,
            ] + sec,
        ),
        Err(e) => Err(e),
    }
}

fn push_text(v: &mut Vec<String>, t: &str)
    ensures
        texts(final(v)@) == texts(old(v)@).push(t@),
{
    let ghost before = texts(v@);
    v.push(t.to_owned());
    assert(texts(v@) =~= before.push(t@));
}

impl WiFiManager {
    /// The `nmcli` arguments that add the connection for `credentials` on
    /// this interface, or why the network cannot be joined.
    pub fn connection_add_args(&self, credentials: &WiFiCredentials) -> (r: Result<
        Vec<String>,
        WifiError,
    >)
        ensures
            match r {
                Ok(v) => add_args(self.interface@, *credentials) == Ok::<
                    Seq<Seq<char>>,
                    WifiError,
                >(texts(v@)),
                Err(e) => add_args(self.interface@, *credentials) == Err::<
                    Seq<Seq<char>>,
                    WifiError,
                >(e),
            },
    {
        let mut args: Vec<String> = Vec::new();
        let name = connection_name(credentials.ssid.as_str());
        push_text(&mut args, "connection");
        push_text(&mut args, "add");
        push_text(&mut args, "type");
        push_text(&mut args, "wifi");
        push_text(&mut args, "con-name");
        push_text(&mut args, name.as_str());
        push_text(&mut args, "ifname");
        push_text(&mut args, self.interface.as_str());
        push_text(&mut args, "ssid");
        push_text(&mut args, credentials.ssid.as_str());
        let ghost base = texts(args@);
        assert(base =~= seq![
            "connection"@,
            "add"@,
            "type"@,
            "wifi"@,
            "con-name"@,
            connection_name_of(credentials.ssid@),
            "ifname"@,
            self.interface@,
            "ssid"@,
            credentials.ssid@,
        ]);
        match credentials.security_type {
            SecurityType::Open => {},
            SecurityType::Enterprise => {
                return Err(WifiError::EnterpriseNotSupported);
            },
            SecurityType::WEP => match &credentials.password {
                Some(p) => {
                    push_text(&mut args, "wifi-sec.key-mgmt");
                    push_text(&mut args, "none");
                    push_text(&mut args, "wifi-sec.wep-key0");
                    push_text(&mut args, p.as_str());
                },
                None => {
                    return Err(WifiError::WepPasswordRequired);
                },
            },
            _ => match &credentials.password {
                Some(p) => {
                    push_text(&mut args, "wifi-sec.key-mgmt");
                    push_text(&mut args, "wpa-psk");
                    push_text(&mut args, "wifi-sec.psk");
                    push_text(&mut args, p.as_str());
                },
                None => {
                    return Err(WifiError::PasswordRequired);
                },
            },
        }
        assert(security_args(*credentials) is Ok);
        assert(texts(args@) =~= base + security_args(*credentials)->Ok_0);
        Ok(args)
    }
}

} // verus!

verus! {

/// The connection added for a network is named `provisioning-` and its
/// SSID, is bound to the given interface and joins that SSID; an open
/// network gets no security settings, a WEP network its key as WEP key 0,
/// and every WPA kind (WPA, WPA2, WPA3) its password as a WPA pre-shared
/// key. A secured network without a password, and an Enterprise network,
/// are refused.
pub proof fn law_connection_add_args(interface: Seq<char>, c: WiFiCredentials)
    ensures
        add_args(interface, c) is Err <==> (c.security_type == SecurityType::Enterprise || (
        c.security_type != SecurityType::Open && c.password is None)),
        add_args(interface, c) matches Ok(a) ==> {
            &&& a.len() >= 10
            &&& a[4] == "con-name"@ && a[5] == "provisioning-"@ + c.ssid@
            &&& a[6] == "ifname"@ && a[7] == interface
            &&& a[8] == "ssid"@ && a[9] == c.ssid@
            &&& (c.security_type == SecurityType::Open ==> a.len() == 10)
            &&& (c.security_type == SecurityType::WEP ==> a.len() == 14 && a[10]
                == "wifi-sec.key-mgmt"@ && a[11] == "none"@ && a[12] == "wifi-sec.wep-key0"@ && a[13]
                == c.password->0@)
            &&& (c.security_type == SecurityType::WPA || c.security_type == SecurityType::WPA2
                || c.security_type == SecurityType::WPA3 ==> a.len() == 14 && a[10]
                == "wifi-sec.key-mgmt"@ && a[11] == "wpa-psk"@ && a[12] == "wifi-sec.psk"@ && a[13]
                == c.password->0@)
        },
{
}

/// How a scan's security column is read: any mention of WPA3 (a mixed
/// WPA2/WPA3 network too) is WPA3; otherwise WPA2, then WPA, then WEP, then
/// 802.1X (Enterprise) in that order; `--`, `open` or an empty column is an
/// open network; anything else is taken for WPA2. Only those texts are open.
pub proof fn law_scan_security(lower: Seq<char>)
    ensures
        contains_text(lower, "wpa3"@) ==> security_from_text(lower) == SecurityType::WPA3,
        !contains_text(lower, "wpa3"@) && contains_text(lower, "wpa2"@) ==> security_from_text(
            lower,
        ) == SecurityType::WPA2,
        !contains_text(lower, "wpa"@) && contains_text(lower, "wep"@) ==> security_from_text(lower)
            == SecurityType::WEP,
        security_from_text(lower) == SecurityType::Open ==> (lower == "--"@ || lower == "open"@
            || lower.len() == 0),
        security_from_text(lower) == SecurityType::WPA3 <==> contains_text(lower, "wpa3"@),
{
    reveal_strlit("wpa");
    reveal_strlit("wpa2");
    reveal_strlit("wpa3");
    if contains_text(lower, "wpa3"@) {
        let i = choose|i: int| occurs_at(lower, "wpa3"@, i);
        assert(lower.subrange(i, i + 3) =~= lower.subrange(i, i + 4).subrange(0, 3));
        assert("wpa3"@.subrange(0, 3) =~= "wpa"@);
        assert(occurs_at(lower, "wpa"@, i));
    }
    if contains_text(lower, "wpa2"@) {
        let i = choose|i: int| occurs_at(lower, "wpa2"@, i);
        assert(lower.subrange(i, i + 3) =~= lower.subrange(i, i + 4).subrange(0, 3));
        assert("wpa2"@.subrange(0, 3) =~= "wpa"@);
        assert(occurs_at(lower, "wpa"@, i));
    }
}

} // verus!

