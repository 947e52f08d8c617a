//! Device discovery and light commands of the guided setup tool: which
//! networks are lights in setup mode, what each command does to the lights,
//! and which states an effect sends, with the pauses between them.
use crate::models::LightInfo;
use crate::provisioning::credential_manager::SavedNetwork;
use crate::provisioning::elgato::{ElgatoDeviceInfo, ElgatoLight, ElgatoLightState};
use crate::provisioning::{SecurityType, WiFiCredentials, WiFiNetwork};
use crate::sort::{stable_desc_order, stable_order_desc};
use crate::text::{has_prefix, starts_with};
use crate::light_service::str_eq;
use vstd::prelude::*;

verus! {

/// The kind of device a setup network belongs to.
#[derive(Debug, Clone, Copy, PartialEq, Eq, Structural)]
pub enum DeviceType {
    ElgatoRingLight,
    ElgatoKeyLight,
    ElgatoKeyLightAir,
    Unknown,
}

/// The device kind named by the start of a setup network's SSID.
pub open spec fn device_type_spec(ssid: Seq<char>) -> DeviceType {
    if has_prefix(ssid, "Elgato Ring Light"@) {
        DeviceType::ElgatoRingLight
    } else if has_prefix(ssid, "Elgato Key Light Air"@) {
        DeviceType::ElgatoKeyLightAir
    } else if has_prefix(ssid, "Elgato Key Light"@) {
        DeviceType::ElgatoKeyLight
    } else {
        DeviceType::Unknown
    }
}

impl DeviceType {
    pub fn from_ssid(ssid: &str) -> (t: Self)
        ensures
            t == device_type_spec(ssid@),
    {
        if starts_with(ssid, "Elgato Ring Light") {
            DeviceType::ElgatoRingLight
        } else if starts_with(ssid, "Elgato Key Light Air") {
            DeviceType::ElgatoKeyLightAir
        } else if starts_with(ssid, "Elgato Key Light") {
            DeviceType::ElgatoKeyLight
        } else {
            DeviceType::Unknown
        }
    }
}

/// A light seen while scanning.
#[derive(Debug, Clone)]
pub struct DiscoveredDevice {
    pub ssid: String,
    pub bssid: Option<String>,
    pub signal_strength: i32,
    pub device_type: DeviceType,
    pub setup_mode: bool,
    pub mac_address: Option<String>,
}

/// The commands a light accepts.
#[derive(Debug, Clone, Copy, PartialEq, Eq, Structural)]
pub enum CommandType {
    TurnOn,
    TurnOff,
    SetBrightness,
    SetTemperature,
    SetScene,
    Toggle,
    FadeIn,
    FadeOut,
    Pulse,
    Rainbow,
}

/// A command with the parameters it may read: `brightness` and
/// `temperature` as unsigned integers, `scene` as text.
#[derive(Debug, Clone)]
pub struct LightCommand {
    pub command_type: CommandType,
    pub brightness: Option<u64>,
    pub temperature: Option<u64>,
    pub scene: Option<String>,
}

/// A state to send and how long to wait after sending it.
#[derive(Debug, Clone)]
pub struct Frame {
    pub state: ElgatoLightState,
    pub pause_ms: u64,
}

/// A change made to every light.
#[derive(Debug, Clone, Copy, PartialEq, Eq, Structural)]
pub enum LightEdit {
    SetOn(u8),
    SetBrightness(u8),
    SetTemperature(u16),
    Toggle,
    Scene(u8, u16),
    OnWithBrightness(u8),
}

pub open spec fn edit_light(l: ElgatoLight, e: LightEdit) -> ElgatoLight {
    match e {
        LightEdit::SetOn(on) => ElgatoLight { on, ..l },
        LightEdit::SetBrightness(b) => ElgatoLight { brightness: b, ..l },
        LightEdit::SetTemperature(t) => ElgatoLight { temperature: t, ..l },
        LightEdit::Toggle => ElgatoLight {
            on: if l.on == 1 {
                0
            } else {
                1
            },
            ..l
        },
        LightEdit::Scene(b, t) => ElgatoLight { on: 1, brightness: b, temperature: t },
        LightEdit::OnWithBrightness(b) => ElgatoLight { on: 1, brightness: b, ..l },
    }
}

/// Every light changed by `e`.
pub open spec fn edited(ls: Seq<ElgatoLight>, e: LightEdit) -> Seq<ElgatoLight> {
    Seq::new(ls.len(), |i: int| edit_light(ls[i], e))
}

pub fn edit_one(l: ElgatoLight, e: LightEdit) -> (r: ElgatoLight)
    ensures
        r == edit_light(l, e),
{
    match e {
        LightEdit::SetOn(on) => ElgatoLight { on, ..l },
        LightEdit::SetBrightness(b) => ElgatoLight { brightness: b, ..l },
        LightEdit::SetTemperature(t) => ElgatoLight { temperature: t, ..l },
        LightEdit::Toggle => ElgatoLight {
            on: if l.on == 1 {
                0
            } else {
                1
            },
            ..l
        },
        LightEdit::Scene(b, t) => ElgatoLight { on: 1, brightness: b, temperature: t },
        LightEdit::OnWithBrightness(b) => ElgatoLight { on: 1, brightness: b, ..l },
    }
}

/// Every light changed by `e`.
pub fn edit_all(ls: &Vec<ElgatoLight>, e: LightEdit) -> (r: Vec<ElgatoLight>)
    ensures
        r@ == edited(ls@, e),
{
    let mut r: Vec<ElgatoLight> = Vec::new();
    let n = ls.len();
    let mut i: usize = 0;
    while i < n
        invariant
            n == ls@.len(),
            i <= n,
            r@ =~= edited(ls@, e).take(i as int),
        decreases n - i,
    {
        r.push(edit_one(ls[i], e));
        i += 1;
    }
    assert(edited(ls@, e).take(n as int) =~= edited(ls@, e));
    r
}

/// Lower-case mapping of text, as `str::to_lowercase` does it (Unicode).
pub uninterp spec fn lowercase(s: Seq<char>) -> Seq<char>;

/// `str::to_lowercase`: the text named `lowercase`.
#[verifier::external_body]
pub(crate) fn to_lowercase(s: &str) -> (r: String)
    ensures
        r@ == lowercase(s@),
{
    s.to_lowercase()
}

/// The scene presets of the setup tool, as (brightness %, device
/// temperature value); unknown names give the default (75, 230).
pub open spec fn scene_values(name: Seq<char>) -> (u8, u16) {
    if name == "daylight"@ {
        (100, 143)
    } else if name == "reading"@ {
        (80, 200)
    } else if name == "video"@ {
        (90, 215)
    } else if name == "relax"@ {
        (60, 280)
    } else if name == "warm"@ {
        (70, 344)
    } else if name == "cool"@ {
        (85, 143)
    } else if name == "focus"@ {
        (100, 180)
    } else if name == "evening"@ {
        (50, 320)
    } else {
        (75, 230)
    }
}

fn scene_lookup(name: &str) -> (r: (u8, u16))
    ensures
        r == scene_values(name@),
{
    if str_eq(name, "daylight") {
        (100, 143)
    } else if str_eq(name, "reading") {
        (80, 200)
    } else if str_eq(name, "video") {
        (90, 215)
    } else if str_eq(name, "relax") {
        (60, 280)
    } else if str_eq(name, "warm") {
        (70, 344)
    } else if str_eq(name, "cool") {
        (85, 143)
    } else if str_eq(name, "focus") {
        (100, 180)
    } else if str_eq(name, "evening") {
        (50, 320)
    } else {
        (75, 230)
    }
}

/// The change a scene makes: every light on with the scene's values, the
/// name compared after lower-casing.
pub open spec fn scene_edit(name: Seq<char>) -> LightEdit {
    let (b, t) = scene_values(lowercase(name));
    LightEdit::Scene(b, t)
}

/// Applies a scene by name (compared after lower-casing) to every light.
pub fn apply_scene(state: &mut ElgatoLightState, scene_name: &str)
    ensures
        final(state).number_of_lights == old(state).number_of_lights,
        final(state).lights@ == edited(old(state).lights@, scene_edit(scene_name@)),
{
    let lower = to_lowercase(scene_name);
    let (b, t) = scene_lookup(lower.as_str());
    let lights = edit_all(&state.lights, LightEdit::Scene(b, t));
    state.lights = lights;
}

/// A security type by its exact name; unknown names mean WPA2.
pub open spec fn security_type_by_name(s: Seq<char>) -> SecurityType {
    if s == "Open"@ {
        SecurityType::Open
    } else if s == "WEP"@ {
        SecurityType::WEP
    } else if s == "WPA"@ {
        SecurityType::WPA
    } else if s == "WPA2"@ {
        SecurityType::WPA2
    } else if s == "WPA3"@ {
        SecurityType::WPA3
    } else if s == "Enterprise"@ {
        SecurityType::Enterprise
    } else {
        SecurityType::WPA2
    }
}

/// Reads a saved security type name.
pub fn parse_security_type(security_str: &str) -> (t: SecurityType)
    ensures
        t == security_type_by_name(security_str@),
{
    if str_eq(security_str, "Open") {
        SecurityType::Open
    } else if str_eq(security_str, "WEP") {
        SecurityType::WEP
    } else if str_eq(security_str, "WPA") {
        SecurityType::WPA
    } else if str_eq(security_str, "WPA2") {
        SecurityType::WPA2
    } else if str_eq(security_str, "WPA3") {
        SecurityType::WPA3
    } else if str_eq(security_str, "Enterprise") {
        SecurityType::Enterprise
    } else {
        SecurityType::WPA2
    }
}

pub open spec fn opt_text(s: Option<String>) -> Option<Seq<char>> {
    match s {
        Some(s) => Some(s@),
        None => None,
    }
}

/// The credentials that saved network details give.
pub fn credentials_from_saved(saved: SavedNetwork) -> (c: WiFiCredentials)
    ensures
        c.ssid@ == saved.ssid@,
        opt_text(c.password) == opt_text(saved.password),
        c.security_type == security_type_by_name(saved.security_type@),
        !c.hidden,
{
    let security_type = parse_security_type(saved.security_type.as_str());
    WiFiCredentials { ssid: saved.ssid, password: saved.password, security_type, hidden: false }
}

} // verus!

verus! {

/// The device temperatures a rainbow cycles through.
pub open spec fn rainbow_temperature(k: int) -> u16 {
    if k == 0 {
        143
    } else if k == 1 {
        200
    } else if k == 2 {
        250
    } else if k == 3 {
        300
    } else {
        344
    }
}

/// The brightness a command sets: the parameter cut to a byte, at most 100.
pub open spec fn command_brightness(b: u64) -> u8 {
    let v = b % 256;
    if v < 100 {
        v as u8
    } else {
        100
    }
}

/// The states a command sends, each with the pause after it (in ms), for
/// the lights `ls`.
pub open spec fn command_frames_spec(
    ls: Seq<ElgatoLight>,
    cmd: CommandType,
    brightness: Option<u64>,
    temperature: Option<u64>,
    scene: Option<Seq<char>>,
) -> Seq<(Seq<ElgatoLight>, u64)> {
    match cmd {
        CommandType::TurnOn => seq![(edited(ls, LightEdit::SetOn(1)), 0u64)],
        CommandType::TurnOff => seq![(edited(ls, LightEdit::SetOn(0)), 0u64)],
        CommandType::SetBrightness => seq![
            (
                match brightness {
                    Some(b) => edited(ls, LightEdit::SetBrightness(command_brightness(b))),
                    None => ls,
                },
                0u64,
            ),
        ],
        CommandType::SetTemperature => seq![
            (
                match temperature {
                    Some(t) => edited(ls, LightEdit::SetTemperature((t % 65536) as u16)),
                    None => ls,
                },
                0u64,
            ),
        ],
        CommandType::Toggle => seq![(edited(ls, LightEdit::Toggle), 0u64)],
        CommandType::SetScene => seq![
            (
                match scene {
                    Some(n) => edited(ls, scene_edit(n)),
                    None => ls,
                },
                0u64,
            ),
        ],
        CommandType::FadeIn => fade_in_spec(ls),
        CommandType::FadeOut => fade_out_spec(ls),
        CommandType::Pulse => pulse_spec(ls),
        CommandType::Rainbow => rainbow_spec(ls),
    }
}

/// Fade in: on at brightness 0, 1, … 100, 20 ms apart.
pub open spec fn fade_in_spec(ls: Seq<ElgatoLight>) -> Seq<(Seq<ElgatoLight>, u64)> {
    Seq::new(101, |i: int| (edited(ls, LightEdit::OnWithBrightness(i as u8)), 20u64))
}

/// Fade out: from the first light's brightness down to 0, 20 ms apart.
pub open spec fn fade_out_spec(ls: Seq<ElgatoLight>) -> Seq<(Seq<ElgatoLight>, u64)> {
    let top = ls[0].brightness as int;
    Seq::new(
        (top + 1) as nat,
        |k: int| (edited(ls, LightEdit::SetBrightness((top - k) as u8)), 20u64),
    )
}

/// Pulse: three times 20 % then 100 %, 500 ms apart, then the state as it was.
pub open spec fn pulse_spec(ls: Seq<ElgatoLight>) -> Seq<(Seq<ElgatoLight>, u64)> {
    let dim = (edited(ls, LightEdit::SetBrightness(20)), 500u64);
    let bright = (edited(ls, LightEdit::SetBrightness(100)), 500u64);
    seq![dim, bright, dim, bright, dim, bright, (ls, 0u64)]
}

/// Rainbow: the five rainbow temperatures, 500 ms apart.
pub open spec fn rainbow_spec(ls: Seq<ElgatoLight>) -> Seq<(Seq<ElgatoLight>, u64)> {
    Seq::new(5, |k: int| (edited(ls, LightEdit::SetTemperature(rainbow_temperature(k))), 500u64))
}

pub open spec fn frames_match(
    frames: Seq<Frame>,
    number_of_lights: u32,
    spec: Seq<(Seq<ElgatoLight>, u64)>,
) -> bool {
    &&& frames.len() == spec.len()
    &&& forall|k: int|
        0 <= k < frames.len() ==> {
            &&& #[trigger] frames[k].state.lights@ == spec[k].0
            &&& frames[k].state.number_of_lights == number_of_lights
            &&& frames[k].pause_ms == spec[k].1
        }
}

fn frame(number_of_lights: u32, ls: &Vec<ElgatoLight>, e: LightEdit, pause_ms: u64) -> (f: Frame)
    ensures
        f.state.number_of_lights == number_of_lights,
        f.state.lights@ == edited(ls@, e),
        f.pause_ms == pause_ms,
{
    Frame { state: ElgatoLightState { number_of_lights, lights: edit_all(ls, e) }, pause_ms }
}

fn copy_lights(ls: &Vec<ElgatoLight>) -> (r: Vec<ElgatoLight>)
    ensures
        r@ == ls@,
{
    let mut r: Vec<ElgatoLight> = Vec::new();
    let n = ls.len();
    let mut i: usize = 0;
    while i < n
        invariant
            n == ls@.len(),
            i <= n,
            r@ =~= ls@.take(i as int),
        decreases n - i,
    {
        r.push(ls[i]);
        i += 1;
    }
    assert(ls@.take(n as int) =~= ls@);
    r
}

#[verifier::spinoff_prover]
fn fade_in_frames(n: u32, ls: &Vec<ElgatoLight>) -> (frames: Vec<Frame>)
    ensures
        frames_match(frames@, n, fade_in_spec(ls@)),
{
    let ghost spec = fade_in_spec(ls@);
    let mut frames: Vec<Frame> = Vec::new();
    let mut i: u8 = 0;
    while i <= 100
        invariant
            i <= 101,
            frames@.len() == i,
            spec == fade_in_spec(ls@),
            forall|k: int|
                0 <= k < i ==> {
                    &&& #[trigger] frames@[k].state.lights@ == spec[k].0
                    &&& frames@[k].state.number_of_lights == n
                    &&& frames@[k].pause_ms == spec[k].1
                },
        decreases 101 - i,
    {
        frames.push(frame(n, ls, LightEdit::OnWithBrightness(i), 20));
        i += 1;
    }
    frames
}

#[verifier::spinoff_prover]
fn fade_out_frames(n: u32, ls: &Vec<ElgatoLight>) -> (frames: Vec<Frame>)
    requires
        ls@.len() > 0,
    ensures
        frames_match(frames@, n, fade_out_spec(ls@)),
{
    let ghost spec = fade_out_spec(ls@);
    let mut frames: Vec<Frame> = Vec::new();
    let top = ls[0].brightness;
    let mut k: u16 = 0;
    while k <= top as u16
        invariant
            ls@.len() > 0,
            top == ls@[0].brightness,
            k <= top as u16 + 1,
            frames@.len() == k,
            spec == fade_out_spec(ls@),
            forall|j: int|
                0 <= j < k ==> {
                    &&& #[trigger] frames@[j].state.lights@ == spec[j].0
                    &&& frames@[j].state.number_of_lights == n
                    &&& frames@[j].pause_ms == spec[j].1
                },
        decreases top as u16 + 1 - k,
    {
        frames.push(frame(n, ls, LightEdit::SetBrightness((top as u16 - k) as u8), 20));
        k += 1;
    }
    frames
}

#[verifier::spinoff_prover]
fn pulse_frames(n: u32, ls: &Vec<ElgatoLight>) -> (frames: Vec<Frame>)
    ensures
        frames_match(frames@, n, pulse_spec(ls@)),
{
    let ghost spec = pulse_spec(ls@);
    let mut frames: Vec<Frame> = Vec::new();
    let mut r: u8 = 0;
    while r < 3
        invariant
            r <= 3,
            frames@.len() == 2 * r,
            spec == pulse_spec(ls@),
            forall|j: int|
                0 <= j < 2 * r ==> {
                    &&& #[trigger] frames@[j].state.lights@ == spec[j].0
                    &&& frames@[j].state.number_of_lights == n
                    &&& frames@[j].pause_ms == spec[j].1
                },
        decreases 3 - r,
    {
        proof {
            let d = (edited(ls@, LightEdit::SetBrightness(20)), 500u64);
            let b = (edited(ls@, LightEdit::SetBrightness(100)), 500u64);
            let lit = seq![d, b, d, b, d, b, (ls@, 0u64)];
            assert(spec == lit);
            if r == 0 {
                assert(lit[0] == d && lit[1] == b);
            } else if r == 1 {
                assert(lit[2] == d && lit[3] == b);
            } else {
                assert(lit[4] == d && lit[5] == b);
            }
        }
        frames.push(frame(n, ls, LightEdit::SetBrightness(20), 500));
        frames.push(frame(n, ls, LightEdit::SetBrightness(100), 500));
        r += 1;
    }
    frames.push(
        Frame {
            state: ElgatoLightState { number_of_lights: n, lights: copy_lights(ls) },
            pause_ms: 0,
        },
    );
    frames
}

#[verifier::spinoff_prover]
fn rainbow_frames(n: u32, ls: &Vec<ElgatoLight>) -> (frames: Vec<Frame>)
    ensures
        frames_match(frames@, n, rainbow_spec(ls@)),
{
    let ghost spec = rainbow_spec(ls@);
    let mut frames: Vec<Frame> = Vec::new();
    let temps: [u16; 5] = [143, 200, 250, 300, 344];
    let mut k: usize = 0;
    while k < 5
        invariant
            k <= 5,
            temps@ == seq![143u16, 200u16, 250u16, 300u16, 344u16],
            frames@.len() == k,
            spec == rainbow_spec(ls@),
            forall|j: int|
                0 <= j < k ==> {
                    &&& #[trigger] frames@[j].state.lights@ == spec[j].0
                    &&& frames@[j].state.number_of_lights == n
                    &&& frames@[j].pause_ms == spec[j].1
                },
        decreases 5 - k,
    {
        frames.push(frame(n, ls, LightEdit::SetTemperature(temps[k]), 500));
        k += 1;
    }
    frames
}

/// The states a command sends to the device, in order, each with the pause
/// after sending it. Every command but the effects sends one state; a fade
/// out starts from the first light's brightness, so it needs a light.
pub fn command_frames(state: &ElgatoLightState, command: &LightCommand) -> (frames: Vec<Frame>)
    requires
        command.command_type == CommandType::FadeOut ==> state.lights@.len() > 0,
    ensures
        frames_match(
            frames@,
            state.number_of_lights,
            command_frames_spec(
                state.lights@,
                command.command_type,
                command.brightness,
                command.temperature,
                opt_text(command.scene),
            ),
        ),
{
    let n = state.number_of_lights;
    let ls = &state.lights;
    let mut frames: Vec<Frame> = Vec::new();
    match command.command_type {
        CommandType::TurnOn => {
            frames.push(frame(n, ls, LightEdit::SetOn(1), 0));
        },
        CommandType::TurnOff => {
            frames.push(frame(n, ls, LightEdit::SetOn(0), 0));
        },
        CommandType::SetBrightness => {
            match command.brightness {
                Some(b) => {
                    let v = b % 256;
                    let c: u8 = if v < 100 {
                        v as u8
                    } else {
                        100
                    };
                    frames.push(frame(n, ls, LightEdit::SetBrightness(c), 0));
                },
                None => {
                    frames.push(
                        Frame {
                            state: ElgatoLightState { number_of_lights: n, lights: copy_lights(ls) },
                            pause_ms: 0,
                        },
                    );
                },
            }
        },
        CommandType::SetTemperature => {
            match command.temperature {
                Some(t) => {
                    frames.push(frame(n, ls, LightEdit::SetTemperature((t % 65536) as u16), 0));
                },
                None => {
                    frames.push(
                        Frame {
                            state: ElgatoLightState { number_of_lights: n, lights: copy_lights(ls) },
                            pause_ms: 0,
                        },
                    );
                },
            }
        },
        CommandType::Toggle => {
            frames.push(frame(n, ls, LightEdit::Toggle, 0));
        },
        CommandType::SetScene => {
            match &command.scene {
                Some(name) => {
                    let mut s = ElgatoLightState { number_of_lights: n, lights: copy_lights(ls) };
                    apply_scene(&mut s, name.as_str());
                    frames.push(Frame { state: s, pause_ms: 0 });
                },
                None => {
                    frames.push(
                        Frame {
                            state: ElgatoLightState { number_of_lights: n, lights: copy_lights(ls) },
                            pause_ms: 0,
                        },
                    );
                },
            }
        },
        CommandType::FadeIn => {
            frames = fade_in_frames(n, ls);
        },
        CommandType::FadeOut => {
            frames = fade_out_frames(n, ls);
        },
        CommandType::Pulse => {
            frames = pulse_frames(n, ls);
        },
        CommandType::Rainbow => {
            frames = rainbow_frames(n, ls);
        },
    }
    frames
}

} // verus!

verus! {

/// The networks whose SSID starts with `Elgato`, in their order.
pub open spec fn elgato_networks(s: Seq<WiFiNetwork>) -> Seq<WiFiNetwork>
    decreases s.len(),
{
    if s.len() == 0 {
        Seq::empty()
    } else {
        elgato_networks(s.drop_last()) + if has_prefix(s.last().ssid@, "Elgato"@) {
            seq![s.last()]
        } else {
            Seq::empty()
        }
    }
}

/// The signal strengths of networks.
pub open spec fn signals(s: Seq<WiFiNetwork>) -> Seq<i32> {
    Seq::new(s.len(), |i: int| s[i].signal_strength)
}

/// Whether `d` describes the light behind network `n`.
pub open spec fn device_of_network(d: DiscoveredDevice, n: WiFiNetwork) -> bool {
    &&& d.ssid@ == n.ssid@
    &&& opt_text(d.bssid) == opt_text(n.bssid)
    &&& d.signal_strength == n.signal_strength
    &&& d.device_type == device_type_spec(n.ssid@)
    &&& d.setup_mode == (n.security_type == SecurityType::Open)
    &&& d.mac_address is None
}

fn clone_opt_string(s: &Option<String>) -> (r: Option<String>)
    ensures
        opt_text(r) == opt_text(*s),
{
    match s {
        Some(t) => Some(t.clone()),
        None => None,
    }
}

fn device_from_network(n: &WiFiNetwork) -> (d: DiscoveredDevice)
    ensures
        device_of_network(d, *n),
{
    DiscoveredDevice {
        ssid: n.ssid.clone(),
        bssid: clone_opt_string(&n.bssid),
        signal_strength: n.signal_strength,
        device_type: DeviceType::from_ssid(n.ssid.as_str()),
        setup_mode: n.security_type == SecurityType::Open,
        mac_address: None,
    }
}

/// The signal given to a light found on the network, which no scan
/// measured: below every measured signal.
pub const UNMEASURED_SIGNAL: i32 = i32::MIN;

/// Whether `d` describes a light already configured on the network: named
/// as it announces itself, not in setup mode, with no measured signal.
pub open spec fn device_of_light(d: DiscoveredDevice, l: LightInfo) -> bool {
    &&& d.ssid@ == l.name@
    &&& d.bssid is None
    &&& d.signal_strength == UNMEASURED_SIGNAL
    &&& d.device_type == device_type_spec(l.name@)
    &&& !d.setup_mode
    &&& d.mac_address is None
}

/// The signals by which the candidates are ordered: those of the lights'
/// setup networks, then one unmeasured signal per configured light.
pub open spec fn candidate_signals(f: Seq<WiFiNetwork>, lights: Seq<LightInfo>) -> Seq<i32> {
    signals(f) + Seq::new(lights.len(), |i: int| UNMEASURED_SIGNAL)
}

fn device_from_light(l: &LightInfo) -> (d: DiscoveredDevice)
    ensures
        device_of_light(d, *l),
{
    DiscoveredDevice {
        ssid: l.name.clone(),
        bssid: None,
        signal_strength: UNMEASURED_SIGNAL,
        device_type: DeviceType::from_ssid(l.name.as_str()),
        setup_mode: false,
        mac_address: None,
    }
}

/// The devices found: the lights among the scanned networks (SSID starting
/// with `Elgato`), and the lights already configured on the network
/// (`configured`, empty unless they were asked for), strongest signal
/// first; equal signals keep their order, scanned networks first.
pub fn discovered_devices(networks: Vec<WiFiNetwork>, configured: Vec<LightInfo>) -> (devices: Vec<
    DiscoveredDevice,
>)
    ensures
        ({
            let f = elgato_networks(networks@);
            &&& devices@.len() == f.len() + configured@.len()
            &&& exists|order: Seq<usize>|
                stable_desc_order(candidate_signals(f, configured@), order) && forall|k: int|
                    0 <= k < devices@.len() ==> if order[k] < f.len() {
                        device_of_network(#[trigger] devices@[k], f[order[k] as int])
                    } else {
                        device_of_light(devices@[k], configured@[order[k] - f.len()])
                    }
        }),
{
    let ghost all = networks@;
    let mut rest = networks;
    let mut kept: Vec<WiFiNetwork> = Vec::new();
    let mut i: usize = 0;
    let n = rest.len();
    while rest.len() > 0
        invariant
            all.len() == n,
            i + rest@.len() == n,
            rest@ == all.skip(i as int),
            kept@ == elgato_networks(all.take(i as int)),
        decreases rest@.len(),
    {
        let net = rest.remove(0);
        assert(all.take(i + 1).drop_last() =~= all.take(i as int));
        assert(all.take(i + 1).last() == net);
        if starts_with(net.ssid.as_str(), "Elgato") {
            kept.push(net);
        }
        assert(rest@ =~= all.skip(i + 1));
        i += 1;
        assert(kept@ =~= elgato_networks(all.take(i as int)));
    }
    assert(all.take(n as int) =~= all);
    let mut keys: Vec<i32> = Vec::new();
    let mut j: usize = 0;
    while j < kept.len()
        invariant
            j <= kept@.len(),
            keys@ =~= signals(kept@).take(j as int),
        decreases kept@.len() - j,
    {
        keys.push(kept[j].signal_strength);
        j += 1;
    }
    assert(keys@ =~= signals(kept@));
    let mut m: usize = 0;
    while m < configured.len()
        invariant
            m <= configured@.len(),
            keys@ =~= candidate_signals(kept@, configured@).take(kept@.len() + m),
        decreases configured@.len() - m,
    {
        keys.push(UNMEASURED_SIGNAL);
        m += 1;
    }
    assert(keys@ =~= candidate_signals(kept@, configured@));
    let order = stable_order_desc(&keys);
    let mut devices: Vec<DiscoveredDevice> = Vec::new();
    let mut k: usize = 0;
    while k < order.len()
        invariant
            k <= order@.len(),
            stable_desc_order(candidate_signals(kept@, configured@), order@),
            devices@.len() == k,
            forall|q: int|
                0 <= q < k ==> if order@[q] < kept@.len() {
                    device_of_network(#[trigger] devices@[q], kept@[order@[q] as int])
                } else {
                    device_of_light(devices@[q], configured@[order@[q] - kept@.len()])
                },
        decreases order@.len() - k,
    {
        let idx = order[k];
        assert(idx < kept@.len() + configured@.len());
        if idx < kept.len() {
            devices.push(device_from_network(&kept[idx]));
        } else {
            devices.push(device_from_light(&configured[idx - kept.len()]));
        }
        k += 1;
    }
    devices
}

} // verus!

verus! {

/// Toggling twice gives back lights whose `on` flag is 0 or 1.
pub proof fn law_toggle_twice(ls: Seq<ElgatoLight>)
    requires
        forall|i: int| 0 <= i < ls.len() ==> (#[trigger] ls[i]).on <= 1,
    ensures
        edited(edited(ls, LightEdit::Toggle), LightEdit::Toggle) == ls,
{
    assert(edited(edited(ls, LightEdit::Toggle), LightEdit::Toggle) =~= ls);
}

/// A fade in ends with every light on at full brightness, and a fade out
/// ends at brightness 0.
pub proof fn law_fades_end(ls: Seq<ElgatoLight>)
    requires
        ls.len() > 0,
    ensures
        fade_in_spec(ls).last().0 == edited(ls, LightEdit::OnWithBrightness(100)),
        fade_out_spec(ls).last().0 == edited(ls, LightEdit::SetBrightness(0)),
{
}

} // verus!

verus! {

/// The name of a security type, as it is saved.
pub open spec fn security_type_text(t: SecurityType) -> Seq<char> {
    match t {
        SecurityType::Open => "Open"@,
        SecurityType::WEP => "WEP"@,
        SecurityType::WPA => "WPA"@,
        SecurityType::WPA2 => "WPA2"@,
        SecurityType::WPA3 => "WPA3"@,
        SecurityType::Enterprise => "Enterprise"@,
    }
}

/// The name under which a security type is saved.
pub fn security_type_name(t: SecurityType) -> (s: String)
    ensures
        s@ == security_type_text(t),
{
    let name = match t {
        SecurityType::Open => "Open",
        SecurityType::WEP => "WEP",
        SecurityType::WPA => "WPA",
        SecurityType::WPA2 => "WPA2",
        SecurityType::WPA3 => "WPA3",
        SecurityType::Enterprise => "Enterprise",
    };
    name.to_owned()
}

/// The saved form of credentials, last used at `now` (microseconds since
/// the Unix epoch) and joined automatically.
pub fn saved_network_from_credentials(credentials: WiFiCredentials, now: i64) -> (n: SavedNetwork)
    ensures
        n.ssid@ == credentials.ssid@,
        opt_text(n.password) == opt_text(credentials.password),
        n.security_type@ == security_type_text(credentials.security_type),
        n.last_used == Some(now),
        n.auto_connect,
{
    let security_type = security_type_name(credentials.security_type);
    SavedNetwork {
        ssid: credentials.ssid,
        password: credentials.password,
        security_type,
        last_used: Some(now),
        auto_connect: true,
    }
}

/// Reading back the saved name of a security type gives that type.
pub proof fn law_security_type_name_round_trip(t: SecurityType)
    ensures
        security_type_by_name(security_type_text(t)) == t,
{
    reveal_strlit("Open");
    reveal_strlit("WEP");
    reveal_strlit("WPA");
    reveal_strlit("WPA2");
    reveal_strlit("WPA3");
    reveal_strlit("Enterprise");
    assert("WPA"@[1] != "WEP"@[1]);
    assert("WPA2"@[0] != "Open"@[0]);
    assert("WPA3"@[0] != "Open"@[0]);
    assert("WPA3"@[3] != "WPA2"@[3]);
    assert("WEP"@ != "Open"@);
    assert("WPA"@ != "Open"@);
    assert("WPA2"@.len() == 4 && "WPA3"@.len() == 4 && "WPA"@.len() == 3 && "WEP"@.len() == 3);
    assert("WPA2"@ != "WEP"@ && "WPA2"@ != "WPA"@);
    assert("WPA3"@ != "WEP"@ && "WPA3"@ != "WPA"@);
    assert("Enterprise"@ != "Open"@ && "Enterprise"@ != "WEP"@ && "Enterprise"@ != "WPA"@);
    assert("Enterprise"@ != "WPA2"@ && "Enterprise"@ != "WPA3"@);
}

} // verus!

verus! {

/// A light the manager is connected to, on its own access point.
/// `connection_time` is in microseconds since the Unix epoch.
#[derive(Debug, Clone)]
pub struct ConnectedDevice {
    pub device_info: ElgatoDeviceInfo,
    pub ip_address: String,
    pub port: u16,
    pub connection_time: i64,
    pub device_type: DeviceType,
}

/// A light connected at `now`: reached at 192.168.62.1, port 9123.
pub fn connected_device(device_info: ElgatoDeviceInfo, device_type: DeviceType, now: i64) -> (d: ConnectedDevice)
    ensures
        d.device_info == device_info,
        d.ip_address@ == "192.168.62.1"@,
        d.port == 9123,
        d.connection_time == now,
        d.device_type == device_type,
{
    ConnectedDevice { device_info, ip_address: "192.168.62.1".to_owned(), port: 9123, connection_time: now, device_type }
}

/// The Wi-Fi interface the manager uses: the one given, or `wlan0`.
pub fn interface_or_default(interface: Option<String>) -> (r: String)
    ensures
        r@ == match interface {
            Some(i) => i@,
            None => "wlan0"@,
        },
{
    match interface {
        Some(i) => i,
        None => "wlan0".to_owned(),
    }
}

/// A nickname and preferences for a light. `last_seen` is in
/// microseconds since the Unix epoch.
#[derive(Debug, Clone)]
pub struct DeviceProfile {
    pub device_id: String,
    pub nickname: String,
    pub default_scene: Option<String>,
    pub auto_connect: bool,
    pub last_seen: i64,
}

/// The profile made for a connected light at `now`: its serial number as
/// id, the `daylight` scene by default, connected automatically.
pub fn create_device_profile(device: &ConnectedDevice, nickname: String, now: i64) -> (p: DeviceProfile)
    ensures
        p.device_id@ == device.device_info.serial_number@,
        p.nickname@ == nickname@,
        opt_text(p.default_scene) == Some("daylight"@),
        p.auto_connect,
        p.last_seen == now,
{
    DeviceProfile {
        device_id: device.device_info.serial_number.clone(),
        nickname,
        default_scene: Some("daylight".to_owned()),
        auto_connect: true,
        last_seen: now,
    }
}

/// The command that applies a profile: its default scene, if it has one.
pub fn profile_command(profile: &DeviceProfile) -> (r: Option<LightCommand>)
    ensures
        profile.default_scene is None ==> r is None,
        profile.default_scene is Some ==> (r matches Some(c) && c.command_type == CommandType::SetScene
            && opt_text(c.scene) == opt_text(profile.default_scene) && c.brightness is None
            && c.temperature is None),
{
    match &profile.default_scene {
        Some(scene) => Some(
            LightCommand {
                command_type: CommandType::SetScene,
                brightness: None,
                temperature: None,
                scene: Some(scene.clone()),
            },
        ),
        None => None,
    }
}

} // verus!

verus! {

/// Why provisioning a device failed.
#[derive(Debug, Clone, Copy, PartialEq, Eq, Structural)]
pub enum ProvisionFailure {
    /// The step just taken failed; its own error is passed on.
    StepFailed,
    /// No device is connected to provision through.
    NoProvisioner,
    /// The direct and the encrypted method both failed, and the device's
    /// web interface could not be used instead.
    BothMethodsFailed,
}

/// Where provisioning a device stands.
#[derive(Debug, Clone, Copy, PartialEq, Eq, Structural)]
pub enum ProvisionStage {
    /// Joining the device's setup network.
    Connecting,
    /// Reading the saved credentials of the target network.
    LookingUpSaved,
    /// Asking the user for the credentials.
    Prompting,
    /// Asking whether to save the credentials just given.
    OfferingSave,
    /// Saving the credentials just given.
    Saving,
    /// Sending the credentials with the direct method.
    TryingDirect,
    /// Sending the credentials with the encrypted method.
    TryingEncrypted,
    /// Probing the device's endpoints after both methods failed.
    CheckingEndpoints,
    /// Opening the device's web interface for the user to configure it by
    /// hand, and waiting for the user's confirmation.
    WebFallback,
    /// Looking up the network the computer was on before.
    CheckingOriginal,
    /// Scheduling the return to that network.
    Restoring,
    /// Provisioned.
    Succeeded,
    /// Given up.
    Failed(ProvisionFailure),
}

/// What the caller does next.
#[derive(Debug, Clone, Copy, PartialEq, Eq, Structural)]
pub enum ProvisionAction {
    Connect,
    LookUpSaved,
    Prompt,
    AskToSave,
    Save,
    TryDirect,
    TryEncrypted,
    CheckEndpoints,
    OpenWebInterface,
    CheckOriginalNetwork,
    ScheduleRestore,
    Succeed,
    Fail(ProvisionFailure),
}

/// What came of the action just taken.
#[derive(Debug, Clone, Copy, PartialEq, Eq, Structural)]
pub enum ProvisionEvent {
    /// It succeeded.
    Done,
    /// It returned an error.
    Error,
    /// What was looked up exists (saved credentials, the original network).
    Found,
    /// What was looked up does not exist.
    NotFound,
    /// The user's answer to saving the credentials.
    Answer(bool),
    /// There is no connected device to provision through.
    NoProvisioner,
}

/// The action each stage asks for.
pub open spec fn stage_action_spec(s: ProvisionStage) -> ProvisionAction {
    match s {
        ProvisionStage::Connecting => ProvisionAction::Connect,
        ProvisionStage::LookingUpSaved => ProvisionAction::LookUpSaved,
        ProvisionStage::Prompting => ProvisionAction::Prompt,
        ProvisionStage::OfferingSave => ProvisionAction::AskToSave,
        ProvisionStage::Saving => ProvisionAction::Save,
        ProvisionStage::TryingDirect => ProvisionAction::TryDirect,
        ProvisionStage::TryingEncrypted => ProvisionAction::TryEncrypted,
        ProvisionStage::CheckingEndpoints => ProvisionAction::CheckEndpoints,
        ProvisionStage::WebFallback => ProvisionAction::OpenWebInterface,
        ProvisionStage::CheckingOriginal => ProvisionAction::CheckOriginalNetwork,
        ProvisionStage::Restoring => ProvisionAction::ScheduleRestore,
        ProvisionStage::Succeeded => ProvisionAction::Succeed,
        ProvisionStage::Failed(f) => ProvisionAction::Fail(f),
    }
}

/// Where getting the credentials starts: the saved ones, or the user.
pub open spec fn credentials_stage_spec(use_saved: bool) -> ProvisionStage {
    if use_saved {
        ProvisionStage::LookingUpSaved
    } else {
        ProvisionStage::Prompting
    }
}

/// The stage that follows an event. A device not yet connected is joined
/// first; then the credentials are the saved ones, or else the user's (which,
/// when saved ones were wanted, the user may save); then the direct method
/// is tried, and the encrypted one only when it fails; when both fail the
/// endpoints are probed and the device's web interface is opened for the
/// user to configure it by hand: the user's confirmation counts as success,
/// and provisioning fails only when the web interface cannot be used. After
/// a success the return
/// to the original network is scheduled when there was one. An error of any
/// other step ends provisioning with that error; an event a stage does not
/// expect leaves it where it is.
pub open spec fn next_stage_spec(s: ProvisionStage, use_saved: bool, e: ProvisionEvent) -> ProvisionStage {
    match s {
        ProvisionStage::Connecting => match e {
            ProvisionEvent::Done => credentials_stage_spec(use_saved),
            ProvisionEvent::Error => ProvisionStage::Failed(ProvisionFailure::StepFailed),
            _ => s,
        },
        ProvisionStage::LookingUpSaved => match e {
            ProvisionEvent::Found => ProvisionStage::TryingDirect,
            ProvisionEvent::NotFound => ProvisionStage::Prompting,
            ProvisionEvent::Error => ProvisionStage::Failed(ProvisionFailure::StepFailed),
            _ => s,
        },
        ProvisionStage::Prompting => match e {
            ProvisionEvent::Done => if use_saved {
                ProvisionStage::OfferingSave
            } else {
                ProvisionStage::TryingDirect
            },
            ProvisionEvent::Error => ProvisionStage::Failed(ProvisionFailure::StepFailed),
            _ => s,
        },
        ProvisionStage::OfferingSave => match e {
            ProvisionEvent::Answer(true) => ProvisionStage::Saving,
            ProvisionEvent::Answer(false) => ProvisionStage::TryingDirect,
            ProvisionEvent::Error => ProvisionStage::Failed(ProvisionFailure::StepFailed),
            _ => s,
        },
        ProvisionStage::Saving => match e {
            ProvisionEvent::Done => ProvisionStage::TryingDirect,
            ProvisionEvent::Error => ProvisionStage::Failed(ProvisionFailure::StepFailed),
            _ => s,
        },
        ProvisionStage::TryingDirect => match e {
            ProvisionEvent::Done => ProvisionStage::CheckingOriginal,
            ProvisionEvent::Error => ProvisionStage::TryingEncrypted,
            ProvisionEvent::NoProvisioner => ProvisionStage::Failed(ProvisionFailure::NoProvisioner),
            _ => s,
        },
        ProvisionStage::TryingEncrypted => match e {
            ProvisionEvent::Done => ProvisionStage::CheckingOriginal,
            ProvisionEvent::Error => ProvisionStage::CheckingEndpoints,
            _ => s,
        },
        ProvisionStage::CheckingEndpoints => match e {
            ProvisionEvent::Done | ProvisionEvent::Error => ProvisionStage::WebFallback,
            _ => s,
        },
        ProvisionStage::WebFallback => match e {
            ProvisionEvent::Done => ProvisionStage::CheckingOriginal,
            ProvisionEvent::Error => ProvisionStage::Failed(ProvisionFailure::BothMethodsFailed),
            _ => s,
        },
        ProvisionStage::CheckingOriginal => match e {
            ProvisionEvent::Found => ProvisionStage::Restoring,
            ProvisionEvent::NotFound => ProvisionStage::Succeeded,
            _ => s,
        },
        ProvisionStage::Restoring => match e {
            ProvisionEvent::Done => ProvisionStage::Succeeded,
            _ => s,
        },
        ProvisionStage::Succeeded => s,
        ProvisionStage::Failed(_) => s,
    }
}

/// The next stage and the action it asks for.
pub open spec fn provision_step_spec(s: ProvisionStage, use_saved: bool, e: ProvisionEvent) -> (
    ProvisionStage,
    ProvisionAction,
) {
    let n = next_stage_spec(s, use_saved, e);
    (n, stage_action_spec(n))
}

/// The stage provisioning starts in: joining the device unless it is
/// connected already, else getting the credentials.
pub open spec fn first_stage_spec(connected: bool, use_saved: bool) -> ProvisionStage {
    if connected {
        credentials_stage_spec(use_saved)
    } else {
        ProvisionStage::Connecting
    }
}

/// The action a stage asks for.
pub fn stage_action(s: ProvisionStage) -> (a: ProvisionAction)
    ensures
        a == stage_action_spec(s),
{
    match s {
        ProvisionStage::Connecting => ProvisionAction::Connect,
        ProvisionStage::LookingUpSaved => ProvisionAction::LookUpSaved,
        ProvisionStage::Prompting => ProvisionAction::Prompt,
        ProvisionStage::OfferingSave => ProvisionAction::AskToSave,
        ProvisionStage::Saving => ProvisionAction::Save,
        ProvisionStage::TryingDirect => ProvisionAction::TryDirect,
        ProvisionStage::TryingEncrypted => ProvisionAction::TryEncrypted,
        ProvisionStage::CheckingEndpoints => ProvisionAction::CheckEndpoints,
        ProvisionStage::WebFallback => ProvisionAction::OpenWebInterface,
        ProvisionStage::CheckingOriginal => ProvisionAction::CheckOriginalNetwork,
        ProvisionStage::Restoring => ProvisionAction::ScheduleRestore,
        ProvisionStage::Succeeded => ProvisionAction::Succeed,
        ProvisionStage::Failed(f) => ProvisionAction::Fail(f),
    }
}

fn credentials_stage(use_saved: bool) -> (s: ProvisionStage)
    ensures
        s == credentials_stage_spec(use_saved),
{
    if use_saved {
        ProvisionStage::LookingUpSaved
    } else {
        ProvisionStage::Prompting
    }
}

/// The first stage of provisioning a device, and its action.
pub fn first_provision_step(connected: bool, use_saved: bool) -> (r: (ProvisionStage, ProvisionAction))
    ensures
        r.0 == first_stage_spec(connected, use_saved),
        r.1 == stage_action_spec(r.0),
{
    let s = if connected {
        credentials_stage(use_saved)
    } else {
        ProvisionStage::Connecting
    };
    (s, stage_action(s))
}

/// The stage and action after an event.
pub fn provision_step(stage: ProvisionStage, use_saved: bool, event: ProvisionEvent) -> (r: (
    ProvisionStage,
    ProvisionAction,
))
    ensures
        r == provision_step_spec(stage, use_saved, event),
{
    let failed = ProvisionStage::Failed(ProvisionFailure::StepFailed);
    let next = match stage {
        ProvisionStage::Connecting => match event {
            ProvisionEvent::Done => credentials_stage(use_saved),
            ProvisionEvent::Error => failed,
            _ => stage,
        },
        ProvisionStage::LookingUpSaved => match event {
            ProvisionEvent::Found => ProvisionStage::TryingDirect,
            ProvisionEvent::NotFound => ProvisionStage::Prompting,
            ProvisionEvent::Error => failed,
            _ => stage,
        },
        ProvisionStage::Prompting => match event {
            ProvisionEvent::Done => if use_saved {
                ProvisionStage::OfferingSave
            } else {
                ProvisionStage::TryingDirect
            },
            ProvisionEvent::Error => failed,
            _ => stage,
        },
        ProvisionStage::OfferingSave => match event {
            ProvisionEvent::Answer(true) => ProvisionStage::Saving,
            ProvisionEvent::Answer(false) => ProvisionStage::TryingDirect,
            ProvisionEvent::Error => failed,
            _ => stage,
        },
        ProvisionStage::Saving => match event {
            ProvisionEvent::Done => ProvisionStage::TryingDirect,
            ProvisionEvent::Error => failed,
            _ => stage,
        },
        ProvisionStage::TryingDirect => match event {
            ProvisionEvent::Done => ProvisionStage::CheckingOriginal,
            ProvisionEvent::Error => ProvisionStage::TryingEncrypted,
            ProvisionEvent::NoProvisioner => ProvisionStage::Failed(ProvisionFailure::NoProvisioner),
            _ => stage,
        },
        ProvisionStage::TryingEncrypted => match event {
            ProvisionEvent::Done => ProvisionStage::CheckingOriginal,
            ProvisionEvent::Error => ProvisionStage::CheckingEndpoints,
            _ => stage,
        },
        ProvisionStage::CheckingEndpoints => match event {
            ProvisionEvent::Done | ProvisionEvent::Error => ProvisionStage::WebFallback,
            _ => stage,
        },
        ProvisionStage::WebFallback => match event {
            ProvisionEvent::Done => ProvisionStage::CheckingOriginal,
            ProvisionEvent::Error => ProvisionStage::Failed(ProvisionFailure::BothMethodsFailed),
            _ => stage,
        },
        ProvisionStage::CheckingOriginal => match event {
            ProvisionEvent::Found => ProvisionStage::Restoring,
            ProvisionEvent::NotFound => ProvisionStage::Succeeded,
            _ => stage,
        },
        ProvisionStage::Restoring => match event {
            ProvisionEvent::Done => ProvisionStage::Succeeded,
            _ => stage,
        },
        ProvisionStage::Succeeded => stage,
        ProvisionStage::Failed(_) => stage,
    };
    (next, stage_action(next))
}

/// The order of provisioning: the credentials are in hand before any method
/// is tried; the encrypted method is tried only right after the direct one
/// failed; when both fail, the endpoints are probed and then the device's
/// web interface is always offered, and provisioning fails only when that
/// cannot be used; the return to the original network is scheduled exactly
/// when a method (the web interface among them) succeeded and an original
/// network was recorded, and a run that got that far does not fail; a
/// finished run stays finished.
pub proof fn law_provision_flow(s: ProvisionStage, use_saved: bool, e: ProvisionEvent)
    ensures
        ({
            let n = next_stage_spec(s, use_saved, e);
            &&& provision_step_spec(s, use_saved, e).1 == stage_action_spec(n)
            &&& (n == ProvisionStage::TryingDirect && s != ProvisionStage::TryingDirect ==> (s
                == ProvisionStage::LookingUpSaved && e == ProvisionEvent::Found) || (s
                == ProvisionStage::Prompting && !use_saved && e == ProvisionEvent::Done) || (s
                == ProvisionStage::OfferingSave && e == ProvisionEvent::Answer(false)) || (s
                == ProvisionStage::Saving && e == ProvisionEvent::Done))
            &&& (n == ProvisionStage::TryingEncrypted && s != ProvisionStage::TryingEncrypted <==> s
                == ProvisionStage::TryingDirect && e == ProvisionEvent::Error)
            &&& (n == ProvisionStage::CheckingOriginal && s != ProvisionStage::CheckingOriginal <==> (s
                == ProvisionStage::TryingDirect || s == ProvisionStage::TryingEncrypted || s
                == ProvisionStage::WebFallback) && e == ProvisionEvent::Done)
            &&& (n == ProvisionStage::Restoring && s != ProvisionStage::Restoring <==> s
                == ProvisionStage::CheckingOriginal && e == ProvisionEvent::Found)
            &&& (n == ProvisionStage::Succeeded && s != ProvisionStage::Succeeded <==> (s
                == ProvisionStage::CheckingOriginal && e == ProvisionEvent::NotFound) || (s
                == ProvisionStage::Restoring && e == ProvisionEvent::Done))
            &&& (n == ProvisionStage::Failed(ProvisionFailure::BothMethodsFailed) && s != n <==> s
                == ProvisionStage::WebFallback && e == ProvisionEvent::Error)
            &&& (n == ProvisionStage::WebFallback && s != n <==> s
                == ProvisionStage::CheckingEndpoints && (e == ProvisionEvent::Done || e
                == ProvisionEvent::Error))
            &&& (s == ProvisionStage::CheckingEndpoints && (e == ProvisionEvent::Done || e
                == ProvisionEvent::Error) ==> provision_step_spec(s, use_saved, e) == (
                ProvisionStage::WebFallback,
                ProvisionAction::OpenWebInterface,
            ))
            &&& (n == ProvisionStage::CheckingEndpoints && s != n <==> s
                == ProvisionStage::TryingEncrypted && e == ProvisionEvent::Error)
            &&& (s == ProvisionStage::CheckingOriginal || s == ProvisionStage::Restoring ==> !(n is Failed))
            &&& (s == ProvisionStage::Succeeded || s is Failed ==> n == s)
        }),
{
}

/// The setup tool's scenes, by name: daylight (100 %, 143), reading (80 %,
/// 200), video (90 %, 215), relax (60 %, 280), warm (70 %, 344), cool (85 %,
/// 143), focus (100 %, 180), evening (50 %, 320), and (75 %, 230) for any
/// other name. Every scene is a brightness of at most 100 % and a device
/// value within the light's range; warm is the warmest the light can take
/// (2900 K), daylight and cool the coolest (7000 K). Applying a scene turns
/// every light on with its values.
pub proof fn law_setup_scene_presets(name: Seq<char>, ls: Seq<ElgatoLight>)
    ensures
        scene_values(name).0 <= 100,
        crate::models::kelvin_to_api_spec(7000) <= scene_values(name).1
            <= crate::models::kelvin_to_api_spec(2900),
        scene_values(name).1 <= scene_values(seq!['w', 'a', 'r', 'm']).1,
        scene_values(seq!['d', 'a', 'y', 'l', 'i', 'g', 'h', 't']).1 <= scene_values(name).1,
        scene_values(seq!['c', 'o', 'o', 'l']).1 <= scene_values(name).1,
        scene_values(seq!['d', 'a', 'y', 'l', 'i', 'g', 'h', 't']) == (100u8, 143u16),
        scene_values(seq!['r', 'e', 'a', 'd', 'i', 'n', 'g']) == (80u8, 200u16),
        scene_values(seq!['v', 'i', 'd', 'e', 'o']) == (90u8, 215u16),
        scene_values(seq!['r', 'e', 'l', 'a', 'x']) == (60u8, 280u16),
        scene_values(seq!['w', 'a', 'r', 'm']) == (70u8, 344u16),
        scene_values(seq!['c', 'o', 'o', 'l']) == (85u8, 143u16),
        scene_values(seq!['f', 'o', 'c', 'u', 's']) == (100u8, 180u16),
        scene_values(seq!['e', 'v', 'e', 'n', 'i', 'n', 'g']) == (50u8, 320u16),
        name != seq!['d', 'a', 'y', 'l', 'i', 'g', 'h', 't'] && name != seq![
            'r',
            'e',
            'a',
            'd',
            'i',
            'n',
            'g',
        ] && name != seq!['v', 'i', 'd', 'e', 'o'] && name != seq!['r', 'e', 'l', 'a', 'x'] && name
            != seq!['w', 'a', 'r', 'm'] && name != seq!['c', 'o', 'o', 'l'] && name != seq![
            'f',
            'o',
            'c',
            'u',
            's',
        ] && name != seq!['e', 'v', 'e', 'n', 'i', 'n', 'g'] ==> scene_values(name) == (
            75u8,
            230u16,
        ),
        ({
            let (b, t) = scene_values(lowercase(name));
            &&& edited(ls, scene_edit(name)).len() == ls.len()
            &&& forall|i: int|
                0 <= i < ls.len() ==> #[trigger] edited(ls, scene_edit(name))[i] == ElgatoLight {
                    on: 1,
                    brightness: b,
                    temperature: t,
                }
        }),
{
    reveal_strlit("daylight");
    reveal_strlit("reading");
    reveal_strlit("video");
    reveal_strlit("relax");
    reveal_strlit("warm");
    reveal_strlit("cool");
    reveal_strlit("focus");
    reveal_strlit("evening");
    assert("daylight"@ =~= seq!['d', 'a', 'y', 'l', 'i', 'g', 'h', 't']);
    assert("reading"@ =~= seq!['r', 'e', 'a', 'd', 'i', 'n', 'g']);
    assert("video"@ =~= seq!['v', 'i', 'd', 'e', 'o']);
    assert("relax"@ =~= seq!['r', 'e', 'l', 'a', 'x']);
    assert("warm"@ =~= seq!['w', 'a', 'r', 'm']);
    assert("cool"@ =~= seq!['c', 'o', 'o', 'l']);
    assert("focus"@ =~= seq!['f', 'o', 'c', 'u', 's']);
    assert("evening"@ =~= seq!['e', 'v', 'e', 'n', 'i', 'n', 'g']);
    assert(seq!['r', 'e', 'a', 'd', 'i', 'n', 'g'][0] != seq!['e', 'v', 'e', 'n', 'i', 'n', 'g'][0]);
    assert(seq!['v', 'i', 'd', 'e', 'o'][0] != seq!['r', 'e', 'l', 'a', 'x'][0]);
    assert(seq!['v', 'i', 'd', 'e', 'o'][0] != seq!['f', 'o', 'c', 'u', 's'][0]);
    assert(seq!['r', 'e', 'l', 'a', 'x'][0] != seq!['f', 'o', 'c', 'u', 's'][0]);
    assert(seq!['w', 'a', 'r', 'm'][0] != seq!['c', 'o', 'o', 'l'][0]);
    assert(crate::models::kelvin_to_api_spec(7000) == 143);
    assert(crate::models::kelvin_to_api_spec(2900) == 344);
}

/// Security types are saved under the names of their kinds, as they are
/// written in the code: `Open`, `WEP`, `WPA`, `WPA2`, `WPA3`, `Enterprise`.
pub proof fn law_security_type_names()
    ensures
        security_type_text(SecurityType::Open) == seq!['O', 'p', 'e', 'n'],
        security_type_text(SecurityType::WEP) == seq!['W', 'E', 'P'],
        security_type_text(SecurityType::WPA) == seq!['W', 'P', 'A'],
        security_type_text(SecurityType::WPA2) == seq!['W', 'P', 'A', '2'],
        security_type_text(SecurityType::WPA3) == seq!['W', 'P', 'A', '3'],
        security_type_text(SecurityType::Enterprise) == seq![
            'E',
            'n',
            't',
            'e',
            'r',
            'p',
            'r',
            'i',
            's',
            'e',
        ],
{
    reveal_strlit("Open");
    reveal_strlit("WEP");
    reveal_strlit("WPA");
    reveal_strlit("WPA2");
    reveal_strlit("WPA3");
    reveal_strlit("Enterprise");
    assert("Open"@ =~= seq!['O', 'p', 'e', 'n']);
    assert("WEP"@ =~= seq!['W', 'E', 'P']);
    assert("WPA"@ =~= seq!['W', 'P', 'A']);
    assert("WPA2"@ =~= seq!['W', 'P', 'A', '2']);
    assert("WPA3"@ =~= seq!['W', 'P', 'A', '3']);
    assert("Enterprise"@ =~= seq!['E', 'n', 't', 'e', 'r', 'p', 'r', 'i', 's', 'e']);
}

} // verus!



