//! The access point a machine opens so that a device can reach it during
//! setup: its settings, and the `hostapd` and `dnsmasq` configuration files
//! made from them.
use crate::text::{
    contains, contains_text, decimal, ipv4_text, push_decimal, push_ipv4, push_str, utf8_shorter_than,
};
use vstd::prelude::*;
use vstd::utf8::encode_utf8;

verus! {

/// The settings of the access point.
#[derive(Debug, Clone)]
pub struct SoftAPConfig {
    pub interface: String,
    pub ssid: String,
    pub password: Option<String>,
    pub ip_address: [u8; 4],
    pub netmask: [u8; 4],
    pub channel: u8,
    pub dhcp_range_start: [u8; 4],
    pub dhcp_range_end: [u8; 4],
}

impl Default for SoftAPConfig {
    /// An open network `Holikeyz-Setup` on `wlan0`, channel 6, at
    /// 192.168.4.1/24, leasing 192.168.4.100 to 192.168.4.200.
    fn default() -> (c: Self)
        ensures
            c.interface@ == "wlan0"@,
            c.ssid@ == "Holikeyz-Setup"@,
            c.password is None,
            c.ip_address == [192u8, 168, 4, 1],
            c.netmask == [255u8, 255, 255, 0],
            c.channel == 6,
            c.dhcp_range_start == [192u8, 168, 4, 100],
            c.dhcp_range_end == [192u8, 168, 4, 200],
    {
        SoftAPConfig {
            interface: "wlan0".to_owned(),
            ssid: "Holikeyz-Setup".to_owned(),
            password: None,
            ip_address: [192, 168, 4, 1],
            netmask: [255, 255, 255, 0],
            channel: 6,
            dhcp_range_start: [192, 168, 4, 100],
            dhcp_range_end: [192, 168, 4, 200],
        }
    }
}

/// Why the access point cannot be configured.
#[derive(Debug, Clone, Copy, PartialEq, Eq, Structural)]
pub enum SoftApError {
    /// The password is shorter than 8 bytes.
    PasswordTooShort,
}

impl SoftApError {
    /// The message shown to the caller.
    pub fn message(&self) -> (m: String)
        ensures
            m@ == "WiFi password must be at least 8 characters"@,
    {
        "WiFi password must be at least 8 characters".to_owned()
    }
}

/// The access point and which of its services run.
pub struct SoftAPManager {
    pub config: SoftAPConfig,
    pub hostapd_running: bool,
    pub dnsmasq_running: bool,
}

/// The `hostapd` settings of an open network.
pub open spec fn hostapd_base(c: SoftAPConfig) -> Seq<char> {
    "interface="@ + c.interface@ + "\ndriver=nl80211\nssid="@ + c.ssid@ + "\nhw_mode=g\nchannel="@
        + decimal(c.channel as nat) + "\nmacaddr_acl=0\nauth_algs=1\nignore_broadcast_ssid=0\n"@
}

/// The `hostapd` settings that add WPA2 with a passphrase.
pub open spec fn hostapd_wpa(password: Seq<char>) -> Seq<char> {
    "wpa=2\nwpa_passphrase="@ + password
        + "\nwpa_key_mgmt=WPA-PSK\nwpa_pairwise=TKIP\nrsn_pairwise=CCMP\n"@
}

/// The `hostapd` configuration: the open network, plus WPA2 where a
/// password is set; a password shorter than 8 bytes (UTF-8) is refused.
pub open spec fn hostapd_config(c: SoftAPConfig) -> Result<Seq<char>, SoftApError> {
    match c.password {
        None => Ok(hostapd_base(c)),
        Some(p) => if encode_utf8(p@).len() < 8 {
            Err(SoftApError::PasswordTooShort)
        } else {
            Ok(hostapd_base(c) + hostapd_wpa(p@))
        },
    }
}

/// The `dnsmasq` configuration: leases from the configured range, the
/// access point as gateway and DNS server.
pub open spec fn dnsmasq_config(c: SoftAPConfig) -> Seq<char> {
    "interface="@ + c.interface@ + "\nbind-interfaces\ndhcp-range="@ + ipv4_text(
        c.dhcp_range_start,
    ) + ","@ + ipv4_text(c.dhcp_range_end) + ",12h\ndhcp-option=3,"@ + ipv4_text(c.ip_address)
        + "\ndhcp-option=6,"@ + ipv4_text(c.ip_address)
        + "\nserver=8.8.8.8\nserver=8.8.4.4\nlog-queries\nlog-dhcp\n"@
}

impl SoftAPManager {
    /// An access point with none of its services running.
    pub fn new(config: SoftAPConfig) -> (m: Self)
        ensures
            m.config == config,
            !m.hostapd_running,
            !m.dnsmasq_running,
    {
        Self { config, hostapd_running: false, dnsmasq_running: false }
    }

    /// The `hostapd` configuration file.
    pub fn generate_hostapd_config(&self) -> (r: Result<String, SoftApError>)
        ensures
            match r {
                Ok(s) => hostapd_config(self.config) == Ok::<Seq<char>, SoftApError>(s@),
                Err(e) => hostapd_config(self.config) == Err::<Seq<char>, SoftApError>(e),
            },
    {
        let mut config = String::new();
        push_str(&mut config, "interface=");
        push_str(&mut config, self.config.interface.as_str());
        push_str(&mut config, "\ndriver=nl80211\nssid=");
        push_str(&mut config, self.config.ssid.as_str());
        push_str(&mut config, "\nhw_mode=g\nchannel=");
        push_decimal(&mut config, self.config.channel as u64);
        push_str(&mut config, "\nmacaddr_acl=0\nauth_algs=1\nignore_broadcast_ssid=0\n");
        assert(config@ =~= hostapd_base(self.config));
        match &self.config.password {
            Some(password) => {
                if utf8_shorter_than(password.as_str(), 8) {
                    return Err(SoftApError::PasswordTooShort);
                }
                push_str(&mut config, "wpa=2\nwpa_passphrase=");
                push_str(&mut config, password.as_str());
                push_str(
                    &mut config,
                    "\nwpa_key_mgmt=WPA-PSK\nwpa_pairwise=TKIP\nrsn_pairwise=CCMP\n",
                );
                assert(config@ =~= hostapd_base(self.config) + hostapd_wpa(password@));
            },
            None => {},
        }
        Ok(config)
    }

    /// The `dnsmasq` configuration file.
    pub fn generate_dnsmasq_config(&self) -> (s: String)
        ensures
            s@ == dnsmasq_config(self.config),
    {
        let mut s = String::new();
        push_str(&mut s, "interface=");
        push_str(&mut s, self.config.interface.as_str());
        push_str(&mut s, "\nbind-interfaces\ndhcp-range=");
        push_ipv4(&mut s, self.config.dhcp_range_start);
        push_str(&mut s, ",");
        push_ipv4(&mut s, self.config.dhcp_range_end);
        push_str(&mut s, ",12h\ndhcp-option=3,");
        push_ipv4(&mut s, self.config.ip_address);
        push_str(&mut s, "\ndhcp-option=6,");
        push_ipv4(&mut s, self.config.ip_address);
        push_str(&mut s, "\nserver=8.8.8.8\nserver=8.8.4.4\nlog-queries\nlog-dhcp\n");
        assert(s@ =~= dnsmasq_config(self.config));
        s
    }

    /// The address given to the interface: the access point's address with
    /// a /24 prefix.
    pub fn interface_address(&self) -> (s: String)
        ensures
            s@ == ipv4_text(self.config.ip_address) + "/24"@,
    {
        let mut s = String::new();
        push_ipv4(&mut s, self.config.ip_address);
        push_str(&mut s, "/24");
        s
    }
}

/// Whether `iw list` output shows access-point support (it mentions `AP`).
pub fn supports_access_point(output: &str) -> (r: bool)
    ensures
        r == contains_text(output@, "AP"@),
{
    contains(output, "AP")
}

} // verus!

verus! {

/// Whether `line` is one of the lines of `t`: it starts `t` or follows a
/// newline, and a newline follows it.
pub open spec fn has_line(t: Seq<char>, line: Seq<char>) -> bool {
    exists|i: int|
        0 <= i && i + line.len() < t.len() && (i == 0 || t[i - 1] == '\n') && #[trigger] t.subrange(
            i,
            i + line.len(),
        ) == line && t[i + line.len()] == '\n'
}

/// Text made of `a`, then `line` ending in a newline, then `b`, has `line`
/// as a line when `a` is empty or ends in a newline.
pub proof fn lemma_has_line(a: Seq<char>, line: Seq<char>, b: Seq<char>)
    requires
        a.len() == 0 || a.last() == '\n',
    ensures
        has_line(a + line + seq!['\n'] + b, line),
{
    let t = a + line + seq!['\n'] + b;
    let i = a.len() as int;
    assert(t.subrange(i, i + line.len()) =~= line);
    assert(t[i + line.len()] == '\n');
    if i > 0 {
        assert(t[i - 1] == a.last());
    }
}

/// The pieces of the open-network `hostapd` text, line by line.
proof fn lemma_hostapd_base_split(c: SoftAPConfig)
    ensures
        hostapd_base(c) == ("interface="@ + c.interface@) + seq!['\n'] + "driver=nl80211"@ + seq![
            '\n',
        ] + ("ssid="@ + c.ssid@) + seq!['\n'] + "hw_mode=g"@ + seq!['\n'] + ("channel="@
            + decimal(c.channel as nat)) + seq!['\n'] + "macaddr_acl=0\nauth_algs=1\nignore_broadcast_ssid=0\n"@,
{
    reveal_strlit("interface=");
    reveal_strlit("\ndriver=nl80211\nssid=");
    reveal_strlit("\nhw_mode=g\nchannel=");
    reveal_strlit("\nmacaddr_acl=0\nauth_algs=1\nignore_broadcast_ssid=0\n");
    reveal_strlit("macaddr_acl=0\nauth_algs=1\nignore_broadcast_ssid=0\n");
    reveal_strlit("driver=nl80211");
    reveal_strlit("ssid=");
    reveal_strlit("channel=");
    reveal_strlit("hw_mode=g");
    assert("\ndriver=nl80211\nssid="@ =~= seq!['\n'] + "driver=nl80211"@ + seq!['\n'] + "ssid="@);
    assert("\nhw_mode=g\nchannel="@ =~= seq!['\n'] + "hw_mode=g"@ + seq!['\n'] + "channel="@);
    assert("\nmacaddr_acl=0\nauth_algs=1\nignore_broadcast_ssid=0\n"@ =~= seq!['\n']
        + "macaddr_acl=0\nauth_algs=1\nignore_broadcast_ssid=0\n"@);
    assert(hostapd_base(c) =~= ("interface="@ + c.interface@) + seq!['\n'] + "driver=nl80211"@
        + seq!['\n'] + ("ssid="@ + c.ssid@) + seq!['\n'] + "hw_mode=g"@ + seq!['\n'] + ("channel="@
        + decimal(c.channel as nat)) + seq!['\n']
        + "macaddr_acl=0\nauth_algs=1\nignore_broadcast_ssid=0\n"@);
}

/// The lines of the open-network `hostapd` text, whatever follows it.
proof fn lemma_hostapd_base_lines(c: SoftAPConfig, tail: Seq<char>)
    ensures
        has_line(hostapd_base(c) + tail, "interface="@ + c.interface@),
        has_line(hostapd_base(c) + tail, "driver=nl80211"@),
        has_line(hostapd_base(c) + tail, "ssid="@ + c.ssid@),
        has_line(hostapd_base(c) + tail, "channel="@ + decimal(c.channel as nat)),
        hostapd_base(c).last() == '\n',
{
    lemma_hostapd_base_split(c);
    reveal_strlit("macaddr_acl=0\nauth_algs=1\nignore_broadcast_ssid=0\n");
    let l_if = "interface="@ + c.interface@;
    let l_drv = "driver=nl80211"@;
    let l_ssid = "ssid="@ + c.ssid@;
    let l_hw = "hw_mode=g"@;
    let l_ch = "channel="@ + decimal(c.channel as nat);
    let rest = "macaddr_acl=0\nauth_algs=1\nignore_broadcast_ssid=0\n"@ + tail;
    let nl = seq!['\n'];
    let t = hostapd_base(c) + tail;
    assert(t =~= l_if + nl + l_drv + nl + l_ssid + nl + l_hw + nl + l_ch + nl + rest);
    let e = Seq::<char>::empty();
    assert(t =~= e + l_if + nl + (l_drv + nl + l_ssid + nl + l_hw + nl + l_ch + nl + rest));
    lemma_has_line(e, l_if, l_drv + nl + l_ssid + nl + l_hw + nl + l_ch + nl + rest);
    assert(t =~= (l_if + nl) + l_drv + nl + (l_ssid + nl + l_hw + nl + l_ch + nl + rest));
    lemma_has_line(l_if + nl, l_drv, l_ssid + nl + l_hw + nl + l_ch + nl + rest);
    assert(t =~= (l_if + nl + l_drv + nl) + l_ssid + nl + (l_hw + nl + l_ch + nl + rest));
    lemma_has_line(l_if + nl + l_drv + nl, l_ssid, l_hw + nl + l_ch + nl + rest);
    assert(t =~= (l_if + nl + l_drv + nl + l_ssid + nl + l_hw + nl) + l_ch + nl + rest);
    lemma_has_line(l_if + nl + l_drv + nl + l_ssid + nl + l_hw + nl, l_ch, rest);
}

/// The `hostapd` file names the configured interface, the nl80211 driver,
/// the configured SSID and channel, each on a line of its own; with a
/// password it turns on WPA2 with that passphrase. It is refused exactly
/// when the password is shorter than 8 bytes.
pub proof fn law_hostapd_lines(c: SoftAPConfig)
    ensures
        hostapd_config(c) is Err <==> (c.password matches Some(p) && encode_utf8(p@).len() < 8),
        hostapd_config(c) matches Ok(t) ==> {
            &&& has_line(t, "interface="@ + c.interface@)
            &&& has_line(t, "driver=nl80211"@)
            &&& has_line(t, "ssid="@ + c.ssid@)
            &&& has_line(t, "channel="@ + decimal(c.channel as nat))
            &&& (c.password matches Some(p) ==> has_line(t, "wpa=2"@) && has_line(
                t,
                "wpa_passphrase="@ + p@,
            ))
        },
{
    match c.password {
        None => {
            lemma_hostapd_base_lines(c, Seq::empty());
            assert(hostapd_base(c) + Seq::<char>::empty() =~= hostapd_base(c));
        },
        Some(p) => {
            let w = hostapd_wpa(p@);
            lemma_hostapd_base_lines(c, w);
            reveal_strlit("wpa=2\nwpa_passphrase=");
            reveal_strlit("wpa=2");
            reveal_strlit("wpa_passphrase=");
            reveal_strlit("\nwpa_key_mgmt=WPA-PSK\nwpa_pairwise=TKIP\nrsn_pairwise=CCMP\n");
            reveal_strlit("wpa_key_mgmt=WPA-PSK\nwpa_pairwise=TKIP\nrsn_pairwise=CCMP\n");
            let base = hostapd_base(c);
            let l_wpa = "wpa=2"@;
            let l_pass = "wpa_passphrase="@ + p@;
            let more = "wpa_key_mgmt=WPA-PSK\nwpa_pairwise=TKIP\nrsn_pairwise=CCMP\n"@;
            let nl = seq!['\n'];
            assert("wpa=2\nwpa_passphrase="@ =~= l_wpa + nl + "wpa_passphrase="@);
            assert("\nwpa_key_mgmt=WPA-PSK\nwpa_pairwise=TKIP\nrsn_pairwise=CCMP\n"@ =~= nl + more);
            assert(w =~= l_wpa + nl + l_pass + nl + more);
            let t = base + w;
            assert(t =~= base + l_wpa + nl + (l_pass + nl + more));
            lemma_has_line(base, l_wpa, l_pass + nl + more);
            assert(t =~= (base + l_wpa + nl) + l_pass + nl + more);
            lemma_has_line(base + l_wpa + nl, l_pass, more);
        },
    }
}

/// The `dnsmasq` file binds to the configured interface, leases the
/// configured range for 12 hours, and names the access point's address as
/// gateway (option 3) and DNS server (option 6), each on a line of its own.
pub proof fn law_dnsmasq_lines(c: SoftAPConfig)
    ensures
        has_line(dnsmasq_config(c), "interface="@ + c.interface@),
        has_line(dnsmasq_config(c), "bind-interfaces"@),
        has_line(
            dnsmasq_config(c),
            "dhcp-range="@ + ipv4_text(c.dhcp_range_start) + seq![','] + ipv4_text(
                c.dhcp_range_end,
            ) + ",12h"@,
        ),
        has_line(dnsmasq_config(c), "dhcp-option=3,"@ + ipv4_text(c.ip_address)),
        has_line(dnsmasq_config(c), "dhcp-option=6,"@ + ipv4_text(c.ip_address)),
{
    lemma_dnsmasq_split(c);
    lemma_five_lines(
        "interface="@ + c.interface@,
        "bind-interfaces"@,
        "dhcp-range="@ + ipv4_text(c.dhcp_range_start) + seq![','] + ipv4_text(c.dhcp_range_end)
            + ",12h"@,
        "dhcp-option=3,"@ + ipv4_text(c.ip_address),
        "dhcp-option=6,"@ + ipv4_text(c.ip_address),
        "server=8.8.8.8\nserver=8.8.4.4\nlog-queries\nlog-dhcp\n"@,
    );
}

/// A line of `t` stays a line when text is added after `t`.
proof fn lemma_has_line_extend(t: Seq<char>, line: Seq<char>, x: Seq<char>)
    requires
        has_line(t, line),
    ensures
        has_line(t + x, line),
{
    let i = choose|i: int|
        0 <= i && i + line.len() < t.len() && (i == 0 || t[i - 1] == '\n') && #[trigger] t.subrange(
            i,
            i + line.len(),
        ) == line && t[i + line.len()] == '\n';
    assert((t + x).subrange(i, i + line.len()) =~= t.subrange(i, i + line.len()));
    assert((t + x)[i + line.len()] == t[i + line.len()]);
    if i > 0 {
        assert((t + x)[i - 1] == t[i - 1]);
    }
}

/// A line that ends the text with its newline is a line of it.
proof fn lemma_has_line_last(a: Seq<char>, line: Seq<char>)
    requires
        a.len() == 0 || a.last() == '\n',
    ensures
        has_line(a + line + seq!['\n'], line),
{
    lemma_has_line(a, line, Seq::empty());
    assert(a + line + seq!['\n'] + Seq::<char>::empty() =~= a + line + seq!['\n']);
}

/// Five lines, each ending in a newline, then `rest`: each is a line of
/// the text.
proof fn lemma_five_lines(
    l1: Seq<char>,
    l2: Seq<char>,
    l3: Seq<char>,
    l4: Seq<char>,
    l5: Seq<char>,
    rest: Seq<char>,
)
    ensures
        ({
            let nl = seq!['\n'];
            let t = l1 + nl + l2 + nl + l3 + nl + l4 + nl + l5 + nl + rest;
            has_line(t, l1) && has_line(t, l2) && has_line(t, l3) && has_line(t, l4) && has_line(
                t,
                l5,
            )
        }),
{
    let nl = seq!['\n'];
    let p1 = l1 + nl;
    let p2 = p1 + l2 + nl;
    let p3 = p2 + l3 + nl;
    let p4 = p3 + l4 + nl;
    let p5 = p4 + l5 + nl;
    assert(Seq::<char>::empty() + l1 =~= l1);
    lemma_has_line_last(Seq::empty(), l1);
    lemma_has_line_last(p1, l2);
    lemma_has_line_last(p2, l3);
    lemma_has_line_last(p3, l4);
    lemma_has_line_last(p4, l5);
    lemma_has_line_extend(p1, l1, l2);
    lemma_has_line_extend(p1 + l2, l1, nl);
    lemma_has_line_extend(p2, l1, l3);
    lemma_has_line_extend(p2, l2, l3);
    lemma_has_line_extend(p2 + l3, l1, nl);
    lemma_has_line_extend(p2 + l3, l2, nl);
    lemma_has_line_extend(p3, l1, l4);
    lemma_has_line_extend(p3, l2, l4);
    lemma_has_line_extend(p3, l3, l4);
    lemma_has_line_extend(p3 + l4, l1, nl);
    lemma_has_line_extend(p3 + l4, l2, nl);
    lemma_has_line_extend(p3 + l4, l3, nl);
    lemma_has_line_extend(p4, l1, l5);
    lemma_has_line_extend(p4, l2, l5);
    lemma_has_line_extend(p4, l3, l5);
    lemma_has_line_extend(p4, l4, l5);
    lemma_has_line_extend(p4 + l5, l1, nl);
    lemma_has_line_extend(p4 + l5, l2, nl);
    lemma_has_line_extend(p4 + l5, l3, nl);
    lemma_has_line_extend(p4 + l5, l4, nl);
    lemma_has_line_extend(p5, l1, rest);
    lemma_has_line_extend(p5, l2, rest);
    lemma_has_line_extend(p5, l3, rest);
    lemma_has_line_extend(p5, l4, rest);
    lemma_has_line_extend(p5, l5, rest);
}

/// The pieces of the `dnsmasq` text, line by line.
proof fn lemma_dnsmasq_split(c: SoftAPConfig)
    ensures
        dnsmasq_config(c) == ("interface="@ + c.interface@) + seq!['\n'] + "bind-interfaces"@ + seq![
            '\n',
        ] + ("dhcp-range="@ + ipv4_text(c.dhcp_range_start) + seq![','] + ipv4_text(
            c.dhcp_range_end,
        ) + ",12h"@) + seq!['\n'] + ("dhcp-option=3,"@ + ipv4_text(c.ip_address)) + seq!['\n'] + (
        "dhcp-option=6,"@ + ipv4_text(c.ip_address)) + seq!['\n']
            + "server=8.8.8.8\nserver=8.8.4.4\nlog-queries\nlog-dhcp\n"@,
{
    reveal_strlit("interface=");
    reveal_strlit("\nbind-interfaces\ndhcp-range=");
    reveal_strlit(",");
    reveal_strlit(",12h\ndhcp-option=3,");
    reveal_strlit("\ndhcp-option=6,");
    reveal_strlit("\nserver=8.8.8.8\nserver=8.8.4.4\nlog-queries\nlog-dhcp\n");
    reveal_strlit("server=8.8.8.8\nserver=8.8.4.4\nlog-queries\nlog-dhcp\n");
    reveal_strlit("bind-interfaces");
    reveal_strlit("dhcp-range=");
    reveal_strlit(",12h");
    reveal_strlit("dhcp-option=3,");
    reveal_strlit("dhcp-option=6,");
    let nl = seq!['\n'];
    assert("\nbind-interfaces\ndhcp-range="@ =~= nl + "bind-interfaces"@ + nl + "dhcp-range="@);
    assert(",12h\ndhcp-option=3,"@ =~= ",12h"@ + nl + "dhcp-option=3,"@);
    assert("\ndhcp-option=6,"@ =~= nl + "dhcp-option=6,"@);
    assert("\nserver=8.8.8.8\nserver=8.8.4.4\nlog-queries\nlog-dhcp\n"@ =~= nl
        + "server=8.8.8.8\nserver=8.8.4.4\nlog-queries\nlog-dhcp\n"@);
    assert(","@ =~= seq![',']);
    assert(dnsmasq_config(c) =~= ("interface="@ + c.interface@) + nl + "bind-interfaces"@ + nl + (
    "dhcp-range="@ + ipv4_text(c.dhcp_range_start) + seq![','] + ipv4_text(c.dhcp_range_end)
        + ",12h"@) + nl + ("dhcp-option=3,"@ + ipv4_text(c.ip_address)) + nl + ("dhcp-option=6,"@
        + ipv4_text(c.ip_address)) + nl + "server=8.8.8.8\nserver=8.8.4.4\nlog-queries\nlog-dhcp\n"@);
}

} // verus!

