//! Which light the tools talk to: an explicit choice, the persisted active
//! light, or the `RING_LIGHT_IP` / `RING_LIGHT_PORT` environment.
use crate::text::{parse_unsigned, parse_u16, push_str};
use vstd::prelude::*;

verus! {

/// The port the lights listen on.
pub const DEFAULT_PORT: u16 = 9123;

/// The light the tools talk to by default.
#[derive(Debug, Clone, PartialEq)]
pub struct ActiveLight {
    pub ip: String,
    pub port: u16,
}

/// The active light chosen from (in order) an explicit address, the
/// persisted active light, or the environment; as (address, port). An
/// explicit port comes before any other.
pub open spec fn resolve_active_spec(
    ip_override: Option<Seq<char>>,
    port_override: Option<u16>,
    saved: Option<(Seq<char>, u16)>,
    env_ip: Option<Seq<char>>,
    env_port: Option<Seq<char>>,
) -> Option<(Seq<char>, u16)> {
    if ip_override is Some {
        Some(
            (
                ip_override->0,
                match port_override {
                    Some(p) => p,
                    None => DEFAULT_PORT,
                },
            ),
        )
    } else if let Some((ip, port)) = saved {
        Some(
            (
                ip,
                match port_override {
                    Some(p) => p,
                    None => port,
                },
            ),
        )
    } else if env_ip is Some {
        let parsed = match env_port {
            Some(t) => parse_unsigned(t, 65535),
            None => None,
        };
        Some(
            (
                env_ip->0,
                match port_override {
                    Some(p) => p,
                    None => match parsed {
                        Some(p) => p as u16,
                        None => DEFAULT_PORT,
                    },
                },
            ),
        )
    } else {
        None
    }
}

pub open spec fn active_view(a: Option<ActiveLight>) -> Option<(Seq<char>, u16)> {
    match a {
        Some(a) => Some((a.ip@, a.port)),
        None => None,
    }
}

pub open spec fn str_view(s: Option<&str>) -> Option<Seq<char>> {
    match s {
        Some(s) => Some(s@),
        None => None,
    }
}

pub open spec fn string_view(s: Option<String>) -> Option<Seq<char>> {
    match s {
        Some(s) => Some(s@),
        None => None,
    }
}

/// Resolves the target light. `saved` is the persisted active light and
/// `env_ip`, `env_port` the values of `RING_LIGHT_IP` and `RING_LIGHT_PORT`.
/// Returns `None` when nothing is configured.
pub fn resolve_active(
    ip_override: Option<&str>,
    port_override: Option<u16>,
    saved: Option<ActiveLight>,
    env_ip: Option<String>,
    env_port: Option<String>,
) -> (res: Option<ActiveLight>)
    ensures
        active_view(res) == resolve_active_spec(
            str_view(ip_override),
            port_override,
            active_view(saved),
            string_view(env_ip),
            string_view(env_port),
        ),
{
    if let Some(ip) = ip_override {
        let port = match port_override {
            Some(p) => p,
            None => DEFAULT_PORT,
        };
        return Some(ActiveLight { ip: ip.to_owned(), port });
    }
    if let Some(a) = saved {
        let port = match port_override {
            Some(p) => p,
            None => a.port,
        };
        return Some(ActiveLight { ip: a.ip, port });
    }
    if let Some(ip) = env_ip {
        let parsed = match &env_port {
            Some(t) => parse_u16(t.as_str()),
            None => None,
        };
        let port = match port_override {
            Some(p) => p,
            None => match parsed {
                Some(p) => p,
                None => DEFAULT_PORT,
            },
        };
        return Some(ActiveLight { ip, port });
    }
    None
}

/// `base` joined with a relative path component, as `PathBuf::push` does on
/// Unix: a `/` is put between them unless `base` is empty or ends in `/`.
pub open spec fn path_join(base: Seq<char>, comp: Seq<char>) -> Seq<char> {
    if base.len() == 0 || base.last() == '/' {
        base + comp
    } else {
        base + seq!['/'] + comp
    }
}

/// Where the active light is persisted, given `$HOME` (or `.` without it).
pub open spec fn active_config_path_spec(home: Option<Seq<char>>) -> Seq<char> {
    let base = match home {
        Some(h) => h,
        None => seq!['.'],
    };
    path_join(path_join(path_join(base, ".config"@), "holikeyz"@), "active.json"@)
}

fn push_component(path: &mut String, comp: &str)
    ensures
        final(path)@ == path_join(old(path)@, comp@),
{
    let n = path.as_str().unicode_len();
    if n > 0 && path.as_str().get_char(n - 1) != '/' {
        push_str(path, "/");
        proof {
            reveal_strlit("/");
        }
    }
    push_str(path, comp);
    assert(path@ =~= path_join(old(path)@, comp@));
}

/// The path of `active.json` under `$HOME/.config/holikeyz`.
pub fn active_config_path(home: Option<&str>) -> (path: String)
    ensures
        path@ == active_config_path_spec(str_view(home)),
{
    let mut path = String::new();
    match home {
        Some(h) => push_str(&mut path, h),
        None => {
            push_str(&mut path, ".");
            proof {
                reveal_strlit(".");
            }
        },
    }
    assert(path@ =~= match str_view(home) {
        Some(h) => h,
        None => seq!['.'],
    });
    push_component(&mut path, ".config");
    push_component(&mut path, "holikeyz");
    push_component(&mut path, "active.json");
    path
}

} // verus!
