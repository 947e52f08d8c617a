//! The decisions of the interactive setup tool: how a signal is shown,
//! which networks are offered as targets, which light command a control
//! choice means, and which devices a batch takes.
use crate::provisioning::elgato::{ElgatoLight, ElgatoLightState};
use crate::provisioning::enhanced_manager::{
    edit_light, edit_one, CommandType, DiscoveredDevice, LightCommand, LightEdit,
};
use crate::provisioning::WiFiNetwork;
use crate::text::{
    has_prefix, push_signed_decimal, push_str, signed_decimal, starts_with, texts,
};
use vstd::prelude::*;

verus! {

/// How strong a signal is.
#[derive(Debug, Clone, Copy, PartialEq, Eq, Structural)]
pub enum SignalLevel {
    /// -50 dBm or more.
    Excellent,
    /// -60 dBm or more.
    Good,
    /// -70 dBm or more.
    Fair,
    /// Below -70 dBm.
    Weak,
}

/// The level of a signal strength in dBm.
pub open spec fn signal_level_spec(rssi: i32) -> SignalLevel {
    if rssi >= -50 {
        SignalLevel::Excellent
    } else if rssi >= -60 {
        SignalLevel::Good
    } else if rssi >= -70 {
        SignalLevel::Fair
    } else {
        SignalLevel::Weak
    }
}

/// The bars drawn for a level.
pub open spec fn bars_of(l: SignalLevel) -> Seq<char> {
    match l {
        SignalLevel::Excellent => "████"@,
        SignalLevel::Good => "███░"@,
        SignalLevel::Fair => "██░░"@,
        SignalLevel::Weak => "█░░░"@,
    }
}

/// The level of a signal strength.
pub fn signal_level(rssi: i32) -> (l: SignalLevel)
    ensures
        l == signal_level_spec(rssi),
{
    if rssi >= -50 {
        SignalLevel::Excellent
    } else if rssi >= -60 {
        SignalLevel::Good
    } else if rssi >= -70 {
        SignalLevel::Fair
    } else {
        SignalLevel::Weak
    }
}

/// A signal strength as shown: the number and four bars.
pub fn signal_text(rssi: i32) -> (s: String)
    ensures
        s@ == signed_decimal(rssi as int) + " "@ + bars_of(signal_level_spec(rssi)),
{
    let mut s = String::new();
    push_signed_decimal(&mut s, rssi as i64);
    push_str(&mut s, " ");
    let bars = match signal_level(rssi) {
        SignalLevel::Excellent => "████",
        SignalLevel::Good => "███░",
        SignalLevel::Fair => "██░░",
        SignalLevel::Weak => "█░░░",
    };
    push_str(&mut s, bars);
    s
}

/// Drops each item that repeats the one before it (`Vec::dedup`).
pub open spec fn dedup_adjacent(s: Seq<Seq<char>>) -> Seq<Seq<char>>
    decreases s.len(),
{
    if s.len() == 0 {
        s
    } else {
        let d = dedup_adjacent(s.drop_last());
        if s.len() >= 2 && s[s.len() - 2] == s.last() {
            d
        } else {
            d.push(s.last())
        }
    }
}

/// The SSIDs of scanned networks that are not lights, in their order.
pub open spec fn non_light_ssids(s: Seq<DiscoveredDevice>) -> Seq<Seq<char>>
    decreases s.len(),
{
    if s.len() == 0 {
        Seq::empty()
    } else {
        non_light_ssids(s.drop_last()) + if has_prefix(s.last().ssid@, "Elgato"@) {
            Seq::empty()
        } else {
            seq![s.last().ssid@]
        }
    }
}

pub proof fn lemma_dedup_last(s: Seq<Seq<char>>)
    requires
        s.len() > 0,
    ensures
        dedup_adjacent(s).len() > 0,
        dedup_adjacent(s).last() == s.last(),
    decreases s.len(),
{
    if s.len() >= 2 && s[s.len() - 2] == s.last() {
        lemma_dedup_last(s.drop_last());
    }
}

/// The target networks offered: the SSIDs that are not lights, repeats in
/// a row dropped, then the choice to type one in.
pub fn target_network_choices(devices: &Vec<DiscoveredDevice>) -> (r: Vec<String>)
    ensures
        texts(r@) == dedup_adjacent(non_light_ssids(devices@)).push("Enter manually..."@),
{
    let mut r: Vec<String> = Vec::new();
    let ghost mut kept: Seq<Seq<char>> = Seq::empty();
    let mut i: usize = 0;
    while i < devices.len()
        invariant
            i <= devices@.len(),
            kept == non_light_ssids(devices@.take(i as int)),
            texts(r@) == dedup_adjacent(kept),
        decreases devices@.len() - i,
    {
        let d = &devices[i];
        assert(devices@.take(i + 1).drop_last() =~= devices@.take(i as int));
        assert(devices@.take(i + 1).last() == *d);
        if !starts_with(d.ssid.as_str(), "Elgato") {
            let n = r.len();
            let repeat = n > 0 && crate::light_service::str_eq(r[n - 1].as_str(), d.ssid.as_str());
            let ghost before = texts(r@);
            let ghost k2 = kept.push(d.ssid@);
            proof {
                assert(k2.drop_last() =~= kept);
                if kept.len() > 0 {
                    lemma_dedup_last(kept);
                    assert(k2[k2.len() - 2] == kept.last());
                } else {
                    assert(before.len() == 0);
                }
                if n > 0 {
                    assert(r@[n - 1]@ == before.last());
                }
                if repeat {
                    assert(dedup_adjacent(k2) == dedup_adjacent(kept));
                } else {
                    assert(dedup_adjacent(k2) == dedup_adjacent(kept).push(d.ssid@));
                }
            }
            if !repeat {
                r.push(d.ssid.clone());
                assert(texts(r@) =~= before.push(d.ssid@));
            }
            proof {
                kept = k2;
            }
            assert(kept == non_light_ssids(devices@.take(i + 1)));
        } else {
            assert(non_light_ssids(devices@.take(i + 1)) =~= kept);
        }
        i += 1;
    }
    assert(devices@.take(devices@.len() as int) =~= devices@);
    let ghost before = texts(r@);
    r.push("Enter manually...".to_owned());
    assert(texts(r@) =~= before.push("Enter manually..."@));
    r
}

/// The devices a batch provisions: all of them, or only those in setup
/// mode, in their order.
pub open spec fn batch_devices_spec(s: Seq<DiscoveredDevice>, setup_only: bool) -> Seq<DiscoveredDevice>
    decreases s.len(),
{
    if s.len() == 0 {
        Seq::empty()
    } else {
        batch_devices_spec(s.drop_last(), setup_only) + if !setup_only || s.last().setup_mode {
            seq![s.last()]
        } else {
            Seq::empty()
        }
    }
}

/// Chooses the devices of a batch.
pub fn batch_devices(devices: Vec<DiscoveredDevice>, setup_only: bool) -> (r: Vec<DiscoveredDevice>)
    ensures
        r@ == batch_devices_spec(devices@, setup_only),
{
    let ghost all = devices@;
    let mut rest = devices;
    let mut kept: Vec<DiscoveredDevice> = Vec::new();
    let mut i: usize = 0;
    let n = rest.len();
    while rest.len() > 0
        invariant
            all.len() == n,
            i + rest@.len() == n,
            rest@ == all.skip(i as int),
            kept@ == batch_devices_spec(all.take(i as int), setup_only),
        decreases rest@.len(),
    {
        let d = rest.remove(0);
        assert(all.take(i + 1).drop_last() =~= all.take(i as int));
        assert(all.take(i + 1).last() == d);
        if !setup_only || d.setup_mode {
            kept.push(d);
        }
        assert(rest@ =~= all.skip(i + 1));
        i += 1;
        assert(kept@ =~= batch_devices_spec(all.take(i as int), setup_only));
    }
    assert(all.take(n as int) =~= all);
    kept
}

/// A control choice of the setup tool.
#[derive(Debug, Clone)]
pub enum ControlCommand {
    On,
    Off,
    Toggle,
    Brightness { value: u8 },
    Temperature { value: u16 },
    Scene { name: String },
    FadeIn,
    FadeOut,
    Pulse,
    Rainbow,
    Interactive,
}

fn plain_command(command_type: CommandType) -> (c: LightCommand)
    ensures
        c.command_type == command_type,
        c.brightness is None,
        c.temperature is None,
        c.scene is None,
{
    LightCommand { command_type, brightness: None, temperature: None, scene: None }
}

/// The light command a control choice sends, with its parameter; the
/// interactive mode sends none.
pub fn light_command(command: ControlCommand) -> (r: Option<LightCommand>)
    ensures
        command is Interactive <==> r is None,
        r matches Some(c) ==> match command {
            ControlCommand::On => c.command_type == CommandType::TurnOn && c.brightness is None
                && c.temperature is None && c.scene is None,
            ControlCommand::Off => c.command_type == CommandType::TurnOff && c.brightness is None
                && c.temperature is None && c.scene is None,
            ControlCommand::Toggle => c.command_type == CommandType::Toggle && c.brightness is None
                && c.temperature is None && c.scene is None,
            ControlCommand::Brightness { value } => c.command_type == CommandType::SetBrightness
                && c.brightness == Some(value as u64) && c.temperature is None && c.scene is None,
            ControlCommand::Temperature { value } => c.command_type == CommandType::SetTemperature
                && c.temperature == Some(value as u64) && c.brightness is None && c.scene is None,
            ControlCommand::Scene { name } => c.command_type == CommandType::SetScene && (c.scene matches Some(
                s,
            ) && s@ == name@) && c.brightness is None && c.temperature is None,
            ControlCommand::FadeIn => c.command_type == CommandType::FadeIn && c.brightness is None
                && c.temperature is None && c.scene is None,
            ControlCommand::FadeOut => c.command_type == CommandType::FadeOut && c.brightness is None
                && c.temperature is None && c.scene is None,
            ControlCommand::Pulse => c.command_type == CommandType::Pulse && c.brightness is None
                && c.temperature is None && c.scene is None,
            ControlCommand::Rainbow => c.command_type == CommandType::Rainbow && c.brightness is None
                && c.temperature is None && c.scene is None,
            ControlCommand::Interactive => false,
        },
{
    match command {
        ControlCommand::On => Some(plain_command(CommandType::TurnOn)),
        ControlCommand::Off => Some(plain_command(CommandType::TurnOff)),
        ControlCommand::Toggle => Some(plain_command(CommandType::Toggle)),
        ControlCommand::Brightness { value } => Some(
            LightCommand {
                command_type: CommandType::SetBrightness,
                brightness: Some(value as u64),
                temperature: None,
                scene: None,
            },
        ),
        ControlCommand::Temperature { value } => Some(
            LightCommand {
                command_type: CommandType::SetTemperature,
                brightness: None,
                temperature: Some(value as u64),
                scene: None,
            },
        ),
        ControlCommand::Scene { name } => Some(
            LightCommand {
                command_type: CommandType::SetScene,
                brightness: None,
                temperature: None,
                scene: Some(name),
            },
        ),
        ControlCommand::FadeIn => Some(plain_command(CommandType::FadeIn)),
        ControlCommand::FadeOut => Some(plain_command(CommandType::FadeOut)),
        ControlCommand::Pulse => Some(plain_command(CommandType::Pulse)),
        ControlCommand::Rainbow => Some(plain_command(CommandType::Rainbow)),
        ControlCommand::Interactive => None,
    }
}

/// The commands of the control test, in order: off, on, brightness 50,
/// coolest temperature (143), warmest temperature (344).
pub fn test_commands() -> (r: Vec<LightCommand>)
    ensures
        r@.len() == 5,
        r@[0].command_type == CommandType::TurnOff,
        r@[1].command_type == CommandType::TurnOn,
        r@[2].command_type == CommandType::SetBrightness && r@[2].brightness == Some(50u64),
        r@[3].command_type == CommandType::SetTemperature && r@[3].temperature == Some(143u64),
        r@[4].command_type == CommandType::SetTemperature && r@[4].temperature == Some(344u64),
{
    let mut r: Vec<LightCommand> = Vec::new();
    r.push(plain_command(CommandType::TurnOff));
    r.push(plain_command(CommandType::TurnOn));
    r.push(
        LightCommand {
            command_type: CommandType::SetBrightness,
            brightness: Some(50),
            temperature: None,
            scene: None,
        },
    );
    r.push(
        LightCommand {
            command_type: CommandType::SetTemperature,
            brightness: None,
            temperature: Some(143),
            scene: None,
        },
    );
    r.push(
        LightCommand {
            command_type: CommandType::SetTemperature,
            brightness: None,
            temperature: Some(344),
            scene: None,
        },
    );
    r
}

} // verus!

verus! {

/// The two states of the light test, from the light's state before it:
/// first off, then on at 50 %, both with the first light's other values.
pub fn test_states(original: &ElgatoLightState) -> (r: (ElgatoLightState, ElgatoLightState))
    requires
        original.lights@.len() > 0,
    ensures
        r.0.number_of_lights == 1,
        r.0.lights@ == seq![ElgatoLight { on: 0, ..original.lights@[0] }],
        r.1.number_of_lights == 1,
        r.1.lights@ == seq![ElgatoLight { on: 1, brightness: 50, ..original.lights@[0] }],
{
    let first = original.lights[0];
    let mut off: Vec<ElgatoLight> = Vec::new();
    off.push(ElgatoLight { on: 0, ..first });
    let mut half: Vec<ElgatoLight> = Vec::new();
    half.push(ElgatoLight { on: 1, brightness: 50, ..first });
    (
        ElgatoLightState { number_of_lights: 1, lights: off },
        ElgatoLightState { number_of_lights: 1, lights: half },
    )
}

/// Changes the first light of a state, the others kept.
pub fn edit_first_light(state: &mut ElgatoLightState, e: LightEdit)
    requires
        old(state).lights@.len() > 0,
    ensures
        final(state).number_of_lights == old(state).number_of_lights,
        final(state).lights@ == old(state).lights@.update(0, edit_light(old(state).lights@[0], e)),
{
    let l = edit_one(state.lights[0], e);
    state.lights.set(0, l);
}

/// The brightness set from the control menu: at most 100.
pub fn menu_brightness(b: u8) -> (r: u8)
    ensures
        r == (if b < 100 { b } else { 100 }),
{
    if b < 100 {
        b
    } else {
        100
    }
}

/// A network as listed in a menu: its SSID and signal.
pub open spec fn network_label(n: WiFiNetwork) -> Seq<char> {
    n.ssid@ + " ("@ + signed_decimal(n.signal_strength as int) + "dBm)"@
}

/// The target networks offered by the provisioning wizard: the first ten
/// scanned, then the choice to type one in.
pub fn network_menu(networks: &Vec<WiFiNetwork>) -> (r: Vec<String>)
    ensures
        ({
            let k = if networks@.len() < 10 { networks@.len() as int } else { 10 };
            &&& r@.len() == k + 1
            &&& forall|i: int| 0 <= i < k ==> #[trigger] r@[i]@ == network_label(networks@[i])
            &&& r@[k]@ == "Enter manually..."@
        }),
{
    let k: usize = if networks.len() < 10 { networks.len() } else { 10 };
    let mut r: Vec<String> = Vec::new();
    let mut i: usize = 0;
    while i < k
        invariant
            k <= networks@.len(),
            k <= 10,
            i <= k,
            r@.len() == i,
            forall|j: int| 0 <= j < i ==> #[trigger] r@[j]@ == network_label(networks@[j]),
        decreases k - i,
    {
        let n = &networks[i];
        let mut label = n.ssid.clone();
        push_str(&mut label, " (");
        push_signed_decimal(&mut label, n.signal_strength as i64);
        push_str(&mut label, "dBm)");
        r.push(label);
        i += 1;
    }
    r.push("Enter manually...".to_owned());
    r
}

/// The network picked from that menu: the scanned network at that place,
/// or none when the place lies past the scan (the SSID is then typed in).
pub fn picked_network(networks: &Vec<WiFiNetwork>, selection: usize) -> (r: Option<String>)
    ensures
        selection < networks@.len() ==> (r matches Some(s) && s@ == networks@[selection as int].ssid@),
        selection >= networks@.len() ==> r is None,
{
    if selection < networks.len() {
        Some(networks[selection].ssid.clone())
    } else {
        None
    }
}

} // verus!
