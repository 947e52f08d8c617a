//! The decisions of the desktop light service: a cache of the lights'
//! state that answers status queries at once, is updated before a command
//! is sent, and says which request to send to the device.
use crate::config::ActiveLight;
use crate::models::{AccessoryInfo, LightResponse, LightState, Settings, api_to_kelvin_spec, kelvin_to_api_spec};
use crate::text::{blank, is_blank, push_decimal, push_str, decimal};
use vstd::prelude::*;

verus! {

/// Why the service refused a request.
#[derive(Debug, Clone, PartialEq, Eq)]
pub enum ServiceError {
    NoActiveLight,
    InvalidBrightness,
    InvalidTemperature,
    LightIndexOutOfRange(u8),
    UnknownScene(String),
    EmptyIp,
}

/// The request the service sends to the light after updating its cache.
#[derive(Debug, Clone, Copy, PartialEq, Eq, Structural)]
pub enum LightAction {
    /// Turn every light on (read-modify-write of the first light).
    TurnOnAll,
    /// Turn every light off.
    TurnOffAll,
    /// Turn the light with this index on.
    TurnOnLight(u8),
    /// Turn the light with this index off.
    TurnOffLight(u8),
    /// Write this state.
    SetLights(LightState),
    /// Write these settings.
    SetSettings(Settings),
    /// Make the light flash.
    Identify,
    /// Send nothing.
    Nothing,
}

/// What the service holds, as mathematical values.
#[verifier::ext_equal]
pub struct ServiceView {
    pub active: Option<(Seq<char>, u16)>,
    pub is_on: Seq<bool>,
    pub brightness: Seq<u8>,
    pub temperature: Seq<u16>,
    pub num_lights: u8,
    pub settings: Option<Settings>,
    pub has_accessory_info: bool,
}

/// The service: the light it talks to and the cached state of its lights.
pub struct LightService {
    pub active: Option<ActiveLight>,
    pub is_on: Vec<bool>,
    pub brightness: Vec<u8>,
    pub temperature: Vec<u16>,
    pub accessory_info: Option<AccessoryInfo>,
    pub settings: Option<Settings>,
    pub num_lights: u8,
}

/// The scene presets of the service, as (brightness %, Kelvin).
pub open spec fn scene_spec(name: Seq<char>) -> Option<(u8, u32)> {
    if name == "daylight"@ {
        Some((80, 5600))
    } else if name == "warm"@ {
        Some((60, 3200))
    } else if name == "cool"@ {
        Some((70, 6500))
    } else if name == "reading"@ {
        Some((90, 4500))
    } else if name == "video"@ {
        Some((75, 5000))
    } else if name == "relax"@ {
        Some((40, 2900))
    } else {
        None
    }
}

/// Looks up a scene preset by its exact name.
pub fn scene_preset(name: &str) -> (r: Option<(u8, u32)>)
    ensures
        r == scene_spec(name@),
{
    proof {
        reveal_strlit("daylight");
        reveal_strlit("warm");
        reveal_strlit("cool");
        reveal_strlit("reading");
        reveal_strlit("video");
        reveal_strlit("relax");
    }
    if str_eq(name, "daylight") {
        Some((80, 5600))
    } else if str_eq(name, "warm") {
        Some((60, 3200))
    } else if str_eq(name, "cool") {
        Some((70, 6500))
    } else if str_eq(name, "reading") {
        Some((90, 4500))
    } else if str_eq(name, "video") {
        Some((75, 5000))
    } else if str_eq(name, "relax") {
        Some((40, 2900))
    } else {
        None
    }
}

/// Whether two strings are equal, character by character.
pub fn str_eq(a: &str, b: &str) -> (r: bool)
    ensures
        r == (a@ == b@),
{
    let n = a.unicode_len();
    let m = b.unicode_len();
    if n != m {
        return false;
    }
    let mut i: usize = 0;
    while i < n
        invariant
            n == a@.len(),
            m == b@.len(),
            n == m,
            i <= n,
            forall|j: int| 0 <= j < i ==> a@[j] == b@[j],
        decreases n - i,
    {
        if a.get_char(i) != b.get_char(i) {
            return false;
        }
        i += 1;
    }
    assert(a@ =~= b@);
    true
}

/// All `true`, `len` times.
pub open spec fn all_true(len: nat) -> Seq<bool> {
    Seq::new(len, |i: int| true)
}

/// All `false`, `len` times.
pub open spec fn all_false(len: nat) -> Seq<bool> {
    Seq::new(len, |i: int| false)
}

/// `len` copies of `v`.
pub open spec fn repeat<T>(v: T, len: nat) -> Seq<T> {
    Seq::new(len, |i: int| v)
}

/// The cache after switching one light (`Some(index)`) or all lights.
pub open spec fn switched(is_on: Seq<bool>, index: Option<u8>, on: bool) -> Seq<bool> {
    match index {
        Some(i) => if i < is_on.len() {
            is_on.update(i as int, on)
        } else {
            is_on
        },
        None => Seq::new(is_on.len(), |j: int| on),
    }
}

/// The cached state a service starts from: one light, off, 50 %, value 213.
pub open spec fn initial_cache(v: ServiceView) -> bool {
    &&& v.is_on == seq![false]
    &&& v.brightness == seq![50u8]
    &&& v.temperature == seq![213u16]
    &&& v.num_lights == 1
    &&& v.settings is None
    &&& !v.has_accessory_info
}

impl ServiceError {
    /// The message shown to the caller.
    pub fn message(&self) -> (m: String)
        ensures
            m@ == error_message(*self),
    {
        let mut m = String::new();
        match self {
            ServiceError::NoActiveLight => {
                push_str(&mut m, "no active light \u{2014} call Discover then SetActiveLight");
            },
            ServiceError::InvalidBrightness => {
                push_str(&mut m, "Brightness must be 0-100");
            },
            ServiceError::InvalidTemperature => {
                push_str(&mut m, "Temperature must be 2900-7000K");
            },
            ServiceError::LightIndexOutOfRange(i) => {
                push_str(&mut m, "Light index ");
                push_decimal(&mut m, *i as u64);
                push_str(&mut m, " out of range");
            },
            ServiceError::UnknownScene(s) => {
                push_str(&mut m, "Unknown scene: ");
                push_str(&mut m, s.as_str());
            },
            ServiceError::EmptyIp => {
                push_str(&mut m, "IP must not be empty");
            },
        }
        assert(m@ =~= error_message(*self));
        m
    }
}

/// The message of each refusal.
pub open spec fn error_message(e: ServiceError) -> Seq<char> {
    match e {
        ServiceError::NoActiveLight => "no active light \u{2014} call Discover then SetActiveLight"@,
        ServiceError::InvalidBrightness => "Brightness must be 0-100"@,
        ServiceError::InvalidTemperature => "Temperature must be 2900-7000K"@,
        ServiceError::LightIndexOutOfRange(i) => "Light index "@ + decimal(i as nat)
            + " out of range"@,
        ServiceError::UnknownScene(s) => "Unknown scene: "@ + s@,
        ServiceError::EmptyIp => "IP must not be empty"@,
    }
}

} // verus!

verus! {

pub open spec fn active_of(a: Option<ActiveLight>) -> Option<(Seq<char>, u16)> {
    match a {
        Some(a) => Some((a.ip@, a.port)),
        None => None,
    }
}

impl LightService {
    pub open spec fn view(&self) -> ServiceView {
        ServiceView {
            active: active_of(self.active),
            is_on: self.is_on@,
            brightness: self.brightness@,
            temperature: self.temperature@,
            num_lights: self.num_lights,
            settings: self.settings,
            has_accessory_info: self.accessory_info is Some,
        }
    }

    /// The three per-light caches always have one entry per light.
    pub open spec fn wf(&self) -> bool {
        &&& self.is_on@.len() == self.brightness@.len()
        &&& self.is_on@.len() == self.temperature@.len()
    }

    /// A service for `initial` (or for no light yet) with the default cache.
    pub fn new(initial: Option<ActiveLight>) -> (s: Self)
        ensures
            s.wf(),
            s.view().active == active_of(initial),
            initial_cache(s.view()),
    {
        let s = LightService {
            active: initial,
            is_on: vec![false],
            brightness: vec![50],
            temperature: vec![213],
            accessory_info: None,
            settings: None,
            num_lights: 1,
        };
        assert(s.is_on@ =~= seq![false]);
        assert(s.brightness@ =~= seq![50u8]);
        assert(s.temperature@ =~= seq![213u16]);
        s
    }

    /// The light the service talks to, or `("", 0)` when there is none.
    pub fn get_active_light(&self) -> (r: (String, u16))
        ensures
            match self.view().active {
                Some((ip, port)) => r.0@ == ip && r.1 == port,
                None => r.0@ == Seq::<char>::empty() && r.1 == 0,
            },
    {
        match &self.active {
            Some(a) => (a.ip.clone(), a.port),
            None => (String::new(), 0),
        }
    }

    /// Switches to another light; refused for an address that is empty or
    /// only white space. The cache is kept until it is refreshed.
    pub fn set_active_light(&mut self, ip: String, port: u16) -> (r: Result<bool, ServiceError>)
        requires
            old(self).wf(),
        ensures
            final(self).accessory_info == old(self).accessory_info,
            final(self).wf(),
            is_blank(ip@) ==> r == Err::<bool, ServiceError>(ServiceError::EmptyIp)
                && final(self).view() == old(self).view(),
            !is_blank(ip@) ==> r == Ok::<bool, ServiceError>(true) && final(self).view()
                == (ServiceView { active: Some((ip@, port)), ..old(self).view() }),
    {
        if blank(ip.as_str()) {
            return Err(ServiceError::EmptyIp);
        }
        self.active = Some(ActiveLight { ip, port });
        Ok(true)
    }

    fn require_active(&self) -> (r: Result<(), ServiceError>)
        ensures
            r is Ok <==> self.active is Some,
            r is Err ==> r == Err::<(), ServiceError>(ServiceError::NoActiveLight),
    {
        if self.active.is_none() {
            Err(ServiceError::NoActiveLight)
        } else {
            Ok(())
        }
    }

    fn set_all_on(&mut self, on: bool)
        requires
            old(self).wf(),
        ensures
            final(self).accessory_info == old(self).accessory_info,
            final(self).wf(),
            final(self).view() == (ServiceView {
                is_on: Seq::new(old(self).is_on@.len(), |j: int| on),
                ..old(self).view()
            }),
    {
        let n = self.is_on.len();
        let mut i: usize = 0;
        while i < n
            invariant
                n == self.is_on@.len(),
                i <= n,
                self.wf(),
                forall|j: int| 0 <= j < i ==> self.is_on@[j] == on,
                self.view() == (ServiceView { is_on: self.is_on@, ..old(self).view() }),
                self.is_on@.len() == old(self).is_on@.len(),
                self.accessory_info == old(self).accessory_info,
            decreases n - i,
        {
            self.is_on.set(i, on);
            i += 1;
        }
        assert(self.is_on@ =~= Seq::new(old(self).is_on@.len(), |j: int| on));
    }

    /// Turns one light (`Some(index)`) or all lights on or off. The cache is
    /// updated at once; an index past the cache leaves it as it is.
    pub fn switch_light(&mut self, index: Option<u8>, on: bool) -> (r: Result<
        LightAction,
        ServiceError,
    >)
        requires
            old(self).wf(),
        ensures
            final(self).accessory_info == old(self).accessory_info,
            final(self).wf(),
            old(self).active is None ==> r == Err::<LightAction, ServiceError>(
                ServiceError::NoActiveLight,
            ) && final(self).view() == old(self).view(),
            old(self).active is Some ==> final(self).view() == (ServiceView {
                is_on: switched(old(self).is_on@, index, on),
                ..old(self).view()
            }) && r == Ok::<LightAction, ServiceError>(
                match index {
                    Some(i) => if on {
                        LightAction::TurnOnLight(i)
                    } else {
                        LightAction::TurnOffLight(i)
                    },
                    None => if on {
                        LightAction::TurnOnAll
                    } else {
                        LightAction::TurnOffAll
                    },
                },
            ),
    {
        self.require_active()?;
        match index {
            Some(i) => {
                if (i as usize) < self.is_on.len() {
                    self.is_on.set(i as usize, on);
                }
                assert(self.is_on@ =~= switched(old(self).is_on@, index, on));
                Ok(if on { LightAction::TurnOnLight(i) } else { LightAction::TurnOffLight(i) })
            },
            None => {
                self.set_all_on(on);
                Ok(if on { LightAction::TurnOnAll } else { LightAction::TurnOffAll })
            },
        }
    }

    /// Turns one light or all lights on.
    pub fn turn_on_light(&mut self, index: Option<u8>) -> (r: Result<LightAction, ServiceError>)
        requires
            old(self).wf(),
        ensures
            final(self).accessory_info == old(self).accessory_info,
            final(self).wf(),
            old(self).active is None ==> r == Err::<LightAction, ServiceError>(
                ServiceError::NoActiveLight,
            ) && final(self).view() == old(self).view(),
            old(self).active is Some ==> final(self).view() == (ServiceView {
                is_on: switched(old(self).is_on@, index, true),
                ..old(self).view()
            }) && r == Ok::<LightAction, ServiceError>(
                match index {
                    Some(i) => LightAction::TurnOnLight(i),
                    None => LightAction::TurnOnAll,
                },
            ),
    {
        self.switch_light(index, true)
    }

    /// Turns one light or all lights off.
    pub fn turn_off_light(&mut self, index: Option<u8>) -> (r: Result<LightAction, ServiceError>)
        requires
            old(self).wf(),
        ensures
            final(self).accessory_info == old(self).accessory_info,
            final(self).wf(),
            old(self).active is None ==> r == Err::<LightAction, ServiceError>(
                ServiceError::NoActiveLight,
            ) && final(self).view() == old(self).view(),
            old(self).active is Some ==> final(self).view() == (ServiceView {
                is_on: switched(old(self).is_on@, index, false),
                ..old(self).view()
            }) && r == Ok::<LightAction, ServiceError>(
                match index {
                    Some(i) => LightAction::TurnOffLight(i),
                    None => LightAction::TurnOffAll,
                },
            ),
    {
        self.switch_light(index, false)
    }

    /// Turns every light on.
    pub fn turn_on(&mut self) -> (r: Result<LightAction, ServiceError>)
        requires
            old(self).wf(),
        ensures
            final(self).accessory_info == old(self).accessory_info,
            final(self).wf(),
            old(self).active is None ==> r == Err::<LightAction, ServiceError>(
                ServiceError::NoActiveLight,
            ) && final(self).view() == old(self).view(),
            old(self).active is Some ==> final(self).view() == (ServiceView {
                is_on: all_true(old(self).is_on@.len()),
                ..old(self).view()
            }) && r == Ok::<LightAction, ServiceError>(LightAction::TurnOnAll),
    {
        let r = self.switch_light(None, true);
        assert(switched(old(self).is_on@, None, true) =~= all_true(old(self).is_on@.len()));
        r
    }

    /// Turns every light off.
    pub fn turn_off(&mut self) -> (r: Result<LightAction, ServiceError>)
        requires
            old(self).wf(),
        ensures
            final(self).accessory_info == old(self).accessory_info,
            final(self).wf(),
            old(self).active is None ==> r == Err::<LightAction, ServiceError>(
                ServiceError::NoActiveLight,
            ) && final(self).view() == old(self).view(),
            old(self).active is Some ==> final(self).view() == (ServiceView {
                is_on: all_false(old(self).is_on@.len()),
                ..old(self).view()
            }) && r == Ok::<LightAction, ServiceError>(LightAction::TurnOffAll),
    {
        let r = self.switch_light(None, false);
        assert(switched(old(self).is_on@, None, false) =~= all_false(old(self).is_on@.len()));
        r
    }

    fn any_on(&self) -> (b: bool)
        ensures
            b == exists|j: int| 0 <= j < self.is_on@.len() && #[trigger] self.is_on@[j],
    {
        let n = self.is_on.len();
        let mut i: usize = 0;
        while i < n
            invariant
                n == self.is_on@.len(),
                i <= n,
                forall|j: int| 0 <= j < i ==> !#[trigger] self.is_on@[j],
            decreases n - i,
        {
            if self.is_on[i] {
                return true;
            }
            i += 1;
        }
        false
    }

    /// Turns everything off when any cached light is on, else everything on.
    pub fn toggle(&mut self) -> (r: Result<LightAction, ServiceError>)
        requires
            old(self).wf(),
        ensures
            final(self).accessory_info == old(self).accessory_info,
            final(self).wf(),
            ({
                let any = exists|j: int|
                    0 <= j < old(self).is_on@.len() && #[trigger] old(self).is_on@[j];
                &&& old(self).active is None ==> r == Err::<LightAction, ServiceError>(
                    ServiceError::NoActiveLight,
                ) && final(self).view() == old(self).view()
                &&& old(self).active is Some ==> final(self).view() == (ServiceView {
                    is_on: if any {
                        all_false(old(self).is_on@.len())
                    } else {
                        all_true(old(self).is_on@.len())
                    },
                    ..old(self).view()
                }) && r == Ok::<LightAction, ServiceError>(
                    if any {
                        LightAction::TurnOffAll
                    } else {
                        LightAction::TurnOnAll
                    },
                )
            }),
    {
        if self.any_on() {
            self.turn_off()
        } else {
            self.turn_on()
        }
    }

    /// Toggles one light by its cached state (an unknown light counts as off).
    pub fn toggle_light(&mut self, index: u8) -> (r: Result<LightAction, ServiceError>)
        requires
            old(self).wf(),
        ensures
            final(self).accessory_info == old(self).accessory_info,
            final(self).wf(),
            ({
                let was_on = index < old(self).is_on@.len() && old(self).is_on@[index as int];
                &&& old(self).active is None ==> r == Err::<LightAction, ServiceError>(
                    ServiceError::NoActiveLight,
                ) && final(self).view() == old(self).view()
                &&& old(self).active is Some ==> final(self).view() == (ServiceView {
                    is_on: switched(old(self).is_on@, Some(index), !was_on),
                    ..old(self).view()
                }) && r == Ok::<LightAction, ServiceError>(
                    if was_on {
                        LightAction::TurnOffLight(index)
                    } else {
                        LightAction::TurnOnLight(index)
                    },
                )
            }),
    {
        let was_on = if (index as usize) < self.is_on.len() {
            self.is_on[index as usize]
        } else {
            false
        };
        self.switch_light(Some(index), !was_on)
    }
}

} // verus!

verus! {

/// The first element of a sequence, or `d` for an empty one.
pub open spec fn first_or<T>(s: Seq<T>, d: T) -> T {
    if s.len() > 0 {
        s[0]
    } else {
        d
    }
}

/// The element at `i`, or `d` past the end.
pub open spec fn get_or<T>(s: Seq<T>, i: int, d: T) -> T {
    if 0 <= i < s.len() {
        s[i]
    } else {
        d
    }
}

/// The cache after a brightness change of one light or of all lights.
pub open spec fn brightness_set(v: ServiceView, b: u8, index: Option<u8>) -> ServiceView {
    match index {
        Some(i) => if i < v.brightness.len() {
            ServiceView {
                brightness: v.brightness.update(i as int, b),
                is_on: v.is_on.update(i as int, true),
                ..v
            }
        } else {
            v
        },
        None => ServiceView {
            brightness: repeat(b, v.brightness.len()),
            is_on: all_true(v.is_on.len()),
            ..v
        },
    }
}

/// What is sent after a brightness change: the cached temperature is kept.
pub open spec fn brightness_action(v: ServiceView, b: u8, index: Option<u8>) -> LightAction {
    match index {
        Some(i) => if i < v.temperature.len() {
            LightAction::SetLights(LightState { on: 1, brightness: b, temperature: v.temperature[i as int] })
        } else {
            LightAction::Nothing
        },
        None => LightAction::SetLights(
            LightState { on: 1, brightness: b, temperature: first_or(v.temperature, 213u16) },
        ),
    }
}

/// The cache after a temperature change (device value `t`).
pub open spec fn temperature_set(v: ServiceView, t: u16, index: Option<u8>) -> ServiceView {
    match index {
        Some(i) => if i < v.temperature.len() {
            ServiceView {
                temperature: v.temperature.update(i as int, t),
                is_on: v.is_on.update(i as int, true),
                ..v
            }
        } else {
            v
        },
        None => ServiceView {
            temperature: repeat(t, v.temperature.len()),
            is_on: all_true(v.is_on.len()),
            ..v
        },
    }
}

/// What is sent after a temperature change: the cached brightness is kept.
pub open spec fn temperature_action(v: ServiceView, t: u16, index: Option<u8>) -> LightAction {
    match index {
        Some(i) => if i < v.brightness.len() {
            LightAction::SetLights(LightState { on: 1, brightness: v.brightness[i as int], temperature: t })
        } else {
            LightAction::Nothing
        },
        None => LightAction::SetLights(
            LightState { on: 1, brightness: first_or(v.brightness, 50u8), temperature: t },
        ),
    }
}

/// The cached state of light `i`.
pub open spec fn cached_light(v: ServiceView, i: int) -> LightState {
    LightState {
        on: if v.is_on[i] {
            1
        } else {
            0
        },
        brightness: v.brightness[i],
        temperature: v.temperature[i],
    }
}

/// Whether a state that is sent is what the cache `v` holds for the light
/// it is about: light `i` for `Some(i)`, the first light for `None` (where
/// there is one).
pub open spec fn sent_is_cached(r: Result<LightAction, ServiceError>, v: ServiceView, index: Option<
    u8,
>) -> bool {
    match r {
        Ok(LightAction::SetLights(st)) => match index {
            Some(i) => (i as int) < v.is_on.len() && st == cached_light(v, i as int),
            None => v.is_on.len() > 0 ==> st == cached_light(v, 0),
        },
        _ => true,
    }
}

/// The cache after a scene: every light on with the scene's values.
pub open spec fn scene_set(v: ServiceView, b: u8, t: u16) -> ServiceView {
    ServiceView {
        is_on: all_true(v.is_on.len()),
        brightness: repeat(b, v.is_on.len()),
        temperature: repeat(t, v.is_on.len()),
        ..v
    }
}

/// The status of the first light: (on, brightness %, Kelvin), with the
/// defaults of a fresh light where the cache is empty.
pub open spec fn status_of(v: ServiceView) -> (bool, u8, int) {
    (
        first_or(v.is_on, false),
        first_or(v.brightness, 50u8),
        api_to_kelvin_spec(first_or(v.temperature, 213u16) as int),
    )
}

/// Settings as reported: the power-on temperature in Kelvin.
pub open spec fn settings_report_spec(s: Settings) -> (u8, u8, int, u32, u32, u32) {
    (
        s.power_on_behavior,
        s.power_on_brightness,
        api_to_kelvin_spec(s.power_on_temperature as int),
        s.switch_on_duration_ms,
        s.switch_off_duration_ms,
        s.color_change_duration_ms,
    )
}

/// Settings as written from a Kelvin power-on temperature.
pub open spec fn settings_from_kelvin(
    behavior: u8,
    brightness: u8,
    kelvin: u32,
    on_ms: u32,
    off_ms: u32,
    color_ms: u32,
) -> Settings {
    Settings {
        power_on_behavior: behavior,
        power_on_brightness: brightness,
        power_on_temperature: kelvin_to_api_spec(kelvin as int) as u16,
        switch_on_duration_ms: on_ms,
        switch_off_duration_ms: off_ms,
        color_change_duration_ms: color_ms,
    }
}

/// The settings tuple that is reported for cached or fetched settings.
pub fn settings_report(s: &Settings) -> (r: (u8, u8, u32, u32, u32, u32))
    ensures
        (r.0, r.1, r.2 as int, r.3, r.4, r.5) == settings_report_spec(*s),
{
    (
        s.power_on_behavior,
        s.power_on_brightness,
        LightState::api_to_kelvin(s.power_on_temperature),
        s.switch_on_duration_ms,
        s.switch_off_duration_ms,
        s.color_change_duration_ms,
    )
}

impl LightService {
    fn set_all_brightness(&mut self, b: u8)
        requires
            old(self).wf(),
        ensures
            final(self).accessory_info == old(self).accessory_info,
            final(self).wf(),
            final(self).view() == brightness_set(old(self).view(), b, None),
    {
        let n = self.brightness.len();
        let mut i: usize = 0;
        while i < n
            invariant
                n == self.brightness@.len(),
                i <= n,
                self.wf(),
                forall|j: int| 0 <= j < i ==> self.brightness@[j] == b,
                forall|j: int| 0 <= j < i ==> self.is_on@[j],
                self.view() == (ServiceView {
                    brightness: self.brightness@,
                    is_on: self.is_on@,
                    ..old(self).view()
                }),
                self.brightness@.len() == old(self).brightness@.len(),
                self.accessory_info == old(self).accessory_info,
            decreases n - i,
        {
            self.brightness.set(i, b);
            self.is_on.set(i, true);
            i += 1;
        }
        assert(self.brightness@ =~= repeat(b, old(self).brightness@.len()));
        assert(self.is_on@ =~= all_true(old(self).is_on@.len()));
    }

    fn set_all_temperature(&mut self, t: u16)
        requires
            old(self).wf(),
        ensures
            final(self).accessory_info == old(self).accessory_info,
            final(self).wf(),
            final(self).view() == temperature_set(old(self).view(), t, None),
    {
        let n = self.temperature.len();
        let mut i: usize = 0;
        while i < n
            invariant
                n == self.temperature@.len(),
                i <= n,
                self.wf(),
                forall|j: int| 0 <= j < i ==> self.temperature@[j] == t,
                forall|j: int| 0 <= j < i ==> self.is_on@[j],
                self.view() == (ServiceView {
                    temperature: self.temperature@,
                    is_on: self.is_on@,
                    ..old(self).view()
                }),
                self.temperature@.len() == old(self).temperature@.len(),
                self.accessory_info == old(self).accessory_info,
            decreases n - i,
        {
            self.temperature.set(i, t);
            self.is_on.set(i, true);
            i += 1;
        }
        assert(self.temperature@ =~= repeat(t, old(self).temperature@.len()));
        assert(self.is_on@ =~= all_true(old(self).is_on@.len()));
    }

    /// Sets the brightness (0–100) of one light or of all lights; the light is
    /// also marked on. Out-of-range values are refused first, then a missing
    /// active light.
    pub fn set_brightness_light(&mut self, brightness: u8, index: Option<u8>) -> (r: Result<
        LightAction,
        ServiceError,
    >)
        requires
            old(self).wf(),
        ensures
            final(self).accessory_info == old(self).accessory_info,
            final(self).wf(),
            brightness > 100 ==> r == Err::<LightAction, ServiceError>(
                ServiceError::InvalidBrightness,
            ) && final(self).view() == old(self).view(),
            brightness <= 100 && old(self).active is None ==> r == Err::<LightAction, ServiceError>(
                ServiceError::NoActiveLight,
            ) && final(self).view() == old(self).view(),
            brightness <= 100 && old(self).active is Some ==> final(self).view() == brightness_set(
                old(self).view(),
                brightness,
                index,
            ) && r == Ok::<LightAction, ServiceError>(
                brightness_action(old(self).view(), brightness, index),
            ),
            sent_is_cached(r, final(self).view(), index),
    {
        if brightness > 100 {
            return Err(ServiceError::InvalidBrightness);
        }
        self.require_active()?;
        match index {
            Some(i) => {
                let iu = i as usize;
                if iu < self.brightness.len() {
                    self.brightness.set(iu, brightness);
                    self.is_on.set(iu, true);
                    Ok(
                        LightAction::SetLights(
                            LightState {
                                on: 1,
                                brightness,
                                temperature: self.temperature[iu],
                            },
                        ),
                    )
                } else {
                    Ok(LightAction::Nothing)
                }
            },
            None => {
                self.set_all_brightness(brightness);
                let t = if self.temperature.len() > 0 {
                    self.temperature[0]
                } else {
                    213
                };
                Ok(LightAction::SetLights(LightState { on: 1, brightness, temperature: t }))
            },
        }
    }

    /// Sets the brightness of all lights.
    pub fn set_brightness(&mut self, brightness: u8) -> (r: Result<LightAction, ServiceError>)
        requires
            old(self).wf(),
        ensures
            final(self).accessory_info == old(self).accessory_info,
            final(self).wf(),
            brightness > 100 ==> r == Err::<LightAction, ServiceError>(
                ServiceError::InvalidBrightness,
            ) && final(self).view() == old(self).view(),
            brightness <= 100 && old(self).active is None ==> r == Err::<LightAction, ServiceError>(
                ServiceError::NoActiveLight,
            ) && final(self).view() == old(self).view(),
            brightness <= 100 && old(self).active is Some ==> final(self).view() == brightness_set(
                old(self).view(),
                brightness,
                None,
            ) && r == Ok::<LightAction, ServiceError>(
                brightness_action(old(self).view(), brightness, None),
            ),
            sent_is_cached(r, final(self).view(), None),
    {
        self.set_brightness_light(brightness, None)
    }

    /// Sets the colour temperature (2900–7000 K) of one light or of all
    /// lights; the light is also marked on.
    pub fn set_temperature_light(&mut self, kelvin: u32, index: Option<u8>) -> (r: Result<
        LightAction,
        ServiceError,
    >)
        requires
            old(self).wf(),
        ensures
            final(self).accessory_info == old(self).accessory_info,
            final(self).wf(),
            !(2900 <= kelvin <= 7000) ==> r == Err::<LightAction, ServiceError>(
                ServiceError::InvalidTemperature,
            ) && final(self).view() == old(self).view(),
            2900 <= kelvin <= 7000 && old(self).active is None ==> r == Err::<
                LightAction,
                ServiceError,
            >(ServiceError::NoActiveLight) && final(self).view() == old(self).view(),
            2900 <= kelvin <= 7000 && old(self).active is Some ==> ({
                let t = kelvin_to_api_spec(kelvin as int) as u16;
                final(self).view() == temperature_set(old(self).view(), t, index) && r == Ok::<
                    LightAction,
                    ServiceError,
                >(temperature_action(old(self).view(), t, index))
            }),
            sent_is_cached(r, final(self).view(), index),
    {
        if !(2900 <= kelvin && kelvin <= 7000) {
            return Err(ServiceError::InvalidTemperature);
        }
        self.require_active()?;
        let t = LightState::kelvin_to_api(kelvin);
        match index {
            Some(i) => {
                let iu = i as usize;
                if iu < self.temperature.len() {
                    self.temperature.set(iu, t);
                    self.is_on.set(iu, true);
                    Ok(
                        LightAction::SetLights(
                            LightState { on: 1, brightness: self.brightness[iu], temperature: t },
                        ),
                    )
                } else {
                    Ok(LightAction::Nothing)
                }
            },
            None => {
                self.set_all_temperature(t);
                let b = if self.brightness.len() > 0 {
                    self.brightness[0]
                } else {
                    50
                };
                Ok(LightAction::SetLights(LightState { on: 1, brightness: b, temperature: t }))
            },
        }
    }

    /// Sets the colour temperature of all lights.
    pub fn set_temperature(&mut self, kelvin: u32) -> (r: Result<LightAction, ServiceError>)
        requires
            old(self).wf(),
        ensures
            final(self).accessory_info == old(self).accessory_info,
            final(self).wf(),
            !(2900 <= kelvin <= 7000) ==> r == Err::<LightAction, ServiceError>(
                ServiceError::InvalidTemperature,
            ) && final(self).view() == old(self).view(),
            2900 <= kelvin <= 7000 && old(self).active is None ==> r == Err::<
                LightAction,
                ServiceError,
            >(ServiceError::NoActiveLight) && final(self).view() == old(self).view(),
            2900 <= kelvin <= 7000 && old(self).active is Some ==> ({
                let t = kelvin_to_api_spec(kelvin as int) as u16;
                final(self).view() == temperature_set(old(self).view(), t, None) && r == Ok::<
                    LightAction,
                    ServiceError,
                >(temperature_action(old(self).view(), t, None))
            }),
            sent_is_cached(r, final(self).view(), None),
    {
        self.set_temperature_light(kelvin, None)
    }
}

} // verus!

verus! {

impl LightService {
    /// Applies a scene preset to every cached light. Unknown scene names are
    /// refused first, then a missing active light.
    pub fn apply_scene(&mut self, scene: &str) -> (r: Result<LightAction, ServiceError>)
        requires
            old(self).wf(),
        ensures
            final(self).accessory_info == old(self).accessory_info,
            final(self).wf(),
            scene_spec(scene@) is None ==> (r matches Err(ServiceError::UnknownScene(s))
                && s@ == scene@) && final(self).view() == old(self).view(),
            scene_spec(scene@) is Some && old(self).active is None ==> r == Err::<
                LightAction,
                ServiceError,
            >(ServiceError::NoActiveLight) && final(self).view() == old(self).view(),
            scene_spec(scene@) is Some && old(self).active is Some ==> ({
                let (b, k) = scene_spec(scene@)->0;
                let t = kelvin_to_api_spec(k as int) as u16;
                final(self).view() == scene_set(old(self).view(), b, t) && r == Ok::<
                    LightAction,
                    ServiceError,
                >(LightAction::SetLights(LightState { on: 1, brightness: b, temperature: t }))
            }),
            sent_is_cached(r, final(self).view(), None),
    {
        let (b, k) = match scene_preset(scene) {
            Some(p) => p,
            None => {
                return Err(ServiceError::UnknownScene(scene.to_owned()));
            },
        };
        self.require_active()?;
        let t = LightState::kelvin_to_api(k);
        let n = self.is_on.len();
        let mut i: usize = 0;
        while i < n
            invariant
                n == self.is_on@.len(),
                i <= n,
                self.wf(),
                forall|j: int| 0 <= j < i ==> self.is_on@[j],
                forall|j: int| 0 <= j < i ==> self.brightness@[j] == b,
                forall|j: int| 0 <= j < i ==> self.temperature@[j] == t,
                self.view() == (ServiceView {
                    is_on: self.is_on@,
                    brightness: self.brightness@,
                    temperature: self.temperature@,
                    ..old(self).view()
                }),
                self.is_on@.len() == old(self).is_on@.len(),
                self.accessory_info == old(self).accessory_info,
            decreases n - i,
        {
            self.is_on.set(i, true);
            self.brightness.set(i, b);
            self.temperature.set(i, t);
            i += 1;
        }
        assert(self.is_on@ =~= all_true(old(self).is_on@.len()));
        assert(self.brightness@ =~= repeat(b, old(self).is_on@.len()));
        assert(self.temperature@ =~= repeat(t, old(self).is_on@.len()));
        Ok(LightAction::SetLights(LightState { on: 1, brightness: b, temperature: t }))
    }

    /// The cached status of the first light: (on, brightness, Kelvin).
    pub fn get_status(&self) -> (r: (bool, u8, u32))
        ensures
            (r.0, r.1, r.2 as int) == status_of(self.view()),
    {
        let on = if self.is_on.len() > 0 {
            self.is_on[0]
        } else {
            false
        };
        let b = if self.brightness.len() > 0 {
            self.brightness[0]
        } else {
            50
        };
        let t = if self.temperature.len() > 0 {
            self.temperature[0]
        } else {
            213
        };
        (on, b, LightState::api_to_kelvin(t))
    }

    /// The number of lights the device reported last.
    pub fn get_num_lights(&self) -> (n: u8)
        ensures
            n == self.num_lights,
    {
        self.num_lights
    }

    /// The cached status of every light, temperatures in Kelvin.
    pub fn get_all_lights_status(&self) -> (r: (Vec<bool>, Vec<u8>, Vec<u32>))
        ensures
            r.0@ == self.is_on@,
            r.1@ == self.brightness@,
            r.2@.len() == self.temperature@.len(),
            forall|i: int|
                0 <= i < r.2@.len() ==> #[trigger] r.2@[i] == api_to_kelvin_spec(
                    self.temperature@[i] as int,
                ),
    {
        let mut kelvins: Vec<u32> = Vec::new();
        let n = self.temperature.len();
        let mut i: usize = 0;
        while i < n
            invariant
                n == self.temperature@.len(),
                i <= n,
                kelvins@.len() == i,
                forall|j: int|
                    0 <= j < i ==> #[trigger] kelvins@[j] == api_to_kelvin_spec(
                        self.temperature@[j] as int,
                    ),
            decreases n - i,
        {
            kelvins.push(LightState::api_to_kelvin(self.temperature[i]));
            i += 1;
        }
        (self.is_on.clone(), self.brightness.clone(), kelvins)
    }

    /// The cached status of one light; refused past the reported number of
    /// lights. Missing cache entries read as the defaults of a fresh light.
    pub fn get_light_status(&self, index: u8) -> (r: Result<(bool, u8, u32), ServiceError>)
        ensures
            index >= self.num_lights ==> r == Err::<(bool, u8, u32), ServiceError>(
                ServiceError::LightIndexOutOfRange(index),
            ),
            index < self.num_lights ==> (r matches Ok((on, b, k)) && on == get_or(
                self.is_on@,
                index as int,
                false,
            ) && b == get_or(self.brightness@, index as int, 50u8) && k == api_to_kelvin_spec(
                get_or(self.temperature@, index as int, 213u16) as int,
            )),
    {
        if index >= self.num_lights {
            return Err(ServiceError::LightIndexOutOfRange(index));
        }
        let i = index as usize;
        let on = if i < self.is_on.len() {
            self.is_on[i]
        } else {
            false
        };
        let b = if i < self.brightness.len() {
            self.brightness[i]
        } else {
            50
        };
        let t = if i < self.temperature.len() {
            self.temperature[i]
        } else {
            213
        };
        Ok((on, b, LightState::api_to_kelvin(t)))
    }

    /// The cached accessory information; refused without an active light.
    /// `Ok(None)` means it has to be fetched (and then stored).
    pub fn cached_accessory_info(&self) -> (r: Result<&Option<AccessoryInfo>, ServiceError>)
        ensures
            self.active is None ==> r is Err && r == Err::<&Option<AccessoryInfo>, ServiceError>(
                ServiceError::NoActiveLight,
            ),
            self.active is Some ==> (r matches Ok(a) && *a == self.accessory_info),
    {
        self.require_active()?;
        Ok(&self.accessory_info)
    }

    /// Stores fetched accessory information.
    pub fn store_accessory_info(&mut self, info: AccessoryInfo)
        requires
            old(self).wf(),
        ensures
            final(self).wf(),
            final(self).accessory_info == Some(info),
            final(self).view() == (ServiceView { has_accessory_info: true, ..old(self).view() }),
    {
        self.accessory_info = Some(info);
    }

    /// The cached settings; refused without an active light. `Ok(None)` means
    /// they have to be fetched (and then stored).
    pub fn cached_settings(&self) -> (r: Result<Option<Settings>, ServiceError>)
        ensures
            self.active is None ==> r == Err::<Option<Settings>, ServiceError>(
                ServiceError::NoActiveLight,
            ),
            self.active is Some ==> r == Ok::<Option<Settings>, ServiceError>(self.settings),
    {
        self.require_active()?;
        Ok(self.settings)
    }

    /// Stores fetched settings.
    pub fn store_settings(&mut self, settings: Settings)
        requires
            old(self).wf(),
        ensures
            final(self).accessory_info == old(self).accessory_info,
            final(self).wf(),
            final(self).view() == (ServiceView { settings: Some(settings), ..old(self).view() }),
    {
        self.settings = Some(settings);
    }

    /// Writes all settings, the power-on temperature given in Kelvin; the
    /// cache is updated at once.
    pub fn set_settings(
        &mut self,
        power_on_behavior: u8,
        power_on_brightness: u8,
        power_on_kelvin: u32,
        switch_on_ms: u32,
        switch_off_ms: u32,
        color_change_ms: u32,
    ) -> (r: Result<LightAction, ServiceError>)
        requires
            old(self).wf(),
        ensures
            final(self).wf(),
            old(self).active is None ==> r == Err::<LightAction, ServiceError>(
                ServiceError::NoActiveLight,
            ) && final(self).view() == old(self).view(),
            old(self).active is Some ==> ({
                let s = settings_from_kelvin(
                    power_on_behavior,
                    power_on_brightness,
                    power_on_kelvin,
                    switch_on_ms,
                    switch_off_ms,
                    color_change_ms,
                );
                final(self).view() == (ServiceView { settings: Some(s), ..old(self).view() })
                    && r == Ok::<LightAction, ServiceError>(LightAction::SetSettings(s))
            }),
    {
        self.require_active()?;
        let settings = Settings {
            power_on_behavior,
            power_on_brightness,
            power_on_temperature: LightState::kelvin_to_api(power_on_kelvin),
            switch_on_duration_ms: switch_on_ms,
            switch_off_duration_ms: switch_off_ms,
            color_change_duration_ms: color_change_ms,
        };
        self.settings = Some(settings);
        Ok(LightAction::SetSettings(settings))
    }

    /// Makes the light flash; refused without an active light.
    pub fn identify(&self) -> (r: Result<LightAction, ServiceError>)
        ensures
            self.active is None ==> r == Err::<LightAction, ServiceError>(
                ServiceError::NoActiveLight,
            ),
            self.active is Some ==> r == Ok::<LightAction, ServiceError>(LightAction::Identify),
    {
        self.require_active()?;
        Ok(LightAction::Identify)
    }

    /// Replaces the cache with what the device reported.
    pub fn refresh(&mut self, response: &LightResponse)
        requires
            old(self).wf(),
        ensures
            final(self).accessory_info == old(self).accessory_info,
            final(self).wf(),
            final(self).num_lights == response.number_of_lights,
            final(self).is_on@.len() == response.lights@.len(),
            forall|i: int|
                0 <= i < response.lights@.len() ==> {
                    &&& #[trigger] final(self).is_on@[i] == (response.lights@[i].on == 1)
                    &&& final(self).brightness@[i] == response.lights@[i].brightness
                    &&& final(self).temperature@[i] == response.lights@[i].temperature
                },
            final(self).view().active == old(self).view().active,
            final(self).view().settings == old(self).view().settings,
            final(self).view().has_accessory_info == old(self).view().has_accessory_info,
    {
        self.num_lights = response.number_of_lights;
        let mut is_on: Vec<bool> = Vec::new();
        let mut brightness: Vec<u8> = Vec::new();
        let mut temperature: Vec<u16> = Vec::new();
        let n = response.lights.len();
        let mut i: usize = 0;
        while i < n
            invariant
                n == response.lights@.len(),
                i <= n,
                is_on@.len() == i,
                brightness@.len() == i,
                temperature@.len() == i,
                forall|j: int|
                    0 <= j < i ==> {
                        &&& #[trigger] is_on@[j] == (response.lights@[j].on == 1)
                        &&& brightness@[j] == response.lights@[j].brightness
                        &&& temperature@[j] == response.lights@[j].temperature
                    },
            decreases n - i,
        {
            let light = response.lights[i];
            is_on.push(light.is_on());
            brightness.push(light.brightness);
            temperature.push(light.temperature);
            i += 1;
        }
        self.is_on = is_on;
        self.brightness = brightness;
        self.temperature = temperature;
    }
}

/// After setting the brightness of all lights, the status reports the
/// first light on at that brightness.
pub proof fn law_status_after_brightness(v: ServiceView, b: u8)
    requires
        v.is_on.len() > 0,
        v.is_on.len() == v.brightness.len(),
    ensures
        status_of(brightness_set(v, b, None)).0,
        status_of(brightness_set(v, b, None)).1 == b,
{
}

/// After setting a temperature in range for all lights, the status reports
/// the first light on at that temperature, to within 10 K.
pub proof fn law_status_after_temperature(v: ServiceView, kelvin: u32)
    requires
        v.is_on.len() > 0,
        v.is_on.len() == v.temperature.len(),
        2900 <= kelvin <= 7000,
    ensures
        status_of(temperature_set(v, kelvin_to_api_spec(kelvin as int) as u16, None)).0,
        -10 <= status_of(temperature_set(v, kelvin_to_api_spec(kelvin as int) as u16, None)).2
            - kelvin <= 10,
{
    crate::models::lemma_kelvin_to_api_in_range(kelvin as int);
    crate::models::lemma_kelvin_api_round_trip_error(kelvin as int);
}

/// After a scene, the status reports the first light on with the scene's
/// brightness and, to within 10 K, its temperature.
pub proof fn law_status_after_scene(v: ServiceView, name: Seq<char>)
    requires
        v.is_on.len() > 0,
        scene_spec(name) is Some,
    ensures
        ({
            let (b, k) = scene_spec(name)->0;
            let s = status_of(scene_set(v, b, kelvin_to_api_spec(k as int) as u16));
            s.0 && s.1 == b && -10 <= s.2 - k <= 10
        }),
{
    let (b, k) = scene_spec(name)->0;
    crate::models::lemma_kelvin_to_api_in_range(k as int);
    crate::models::lemma_kelvin_api_round_trip_error(k as int);
}

} // verus!

verus! {

/// How long a discovery listens, in seconds: the requested time, at least
/// 1 and at most 30.
pub fn discover_timeout(timeout_secs: u32) -> (t: u64)
    ensures
        t == (if timeout_secs < 1 {
            1
        } else if timeout_secs > 30 {
            30
        } else {
            timeout_secs
        }),
{
    if timeout_secs < 1 {
        1
    } else if timeout_secs > 30 {
        30
    } else {
        timeout_secs as u64
    }
}

impl LightService {
    /// Writes the power-on settings (temperature in Kelvin) and keeps the
    /// transition durations of `current`.
    pub fn set_power_on_settings(
        &mut self,
        behavior: u8,
        brightness: u8,
        kelvin: u32,
        current: &Settings,
    ) -> (r: Result<LightAction, ServiceError>)
        requires
            old(self).wf(),
        ensures
            final(self).wf(),
            old(self).active is None ==> r == Err::<LightAction, ServiceError>(
                ServiceError::NoActiveLight,
            ) && final(self).view() == old(self).view(),
            old(self).active is Some ==> ({
                let s = settings_from_kelvin(
                    behavior,
                    brightness,
                    kelvin,
                    current.switch_on_duration_ms,
                    current.switch_off_duration_ms,
                    current.color_change_duration_ms,
                );
                final(self).view() == (ServiceView { settings: Some(s), ..old(self).view() })
                    && r == Ok::<LightAction, ServiceError>(LightAction::SetSettings(s))
            }),
    {
        self.set_settings(
            behavior,
            brightness,
            kelvin,
            current.switch_on_duration_ms,
            current.switch_off_duration_ms,
            current.color_change_duration_ms,
        )
    }
}

/// The state sent to the light after a brightness, temperature or scene
/// change is the state the cache holds afterwards for the light concerned:
/// a change keeps the other value of the light, so a dimmed light keeps its
/// colour temperature and a recoloured one keeps its brightness, and the
/// service's status then reports what the light was told.
pub proof fn law_sent_state_is_cached(v: ServiceView, b: u8, t: u16, index: Option<u8>)
    requires
        v.is_on.len() == v.brightness.len(),
        v.is_on.len() == v.temperature.len(),
    ensures
        sent_is_cached(
            Ok::<LightAction, ServiceError>(brightness_action(v, b, index)),
            brightness_set(v, b, index),
            index,
        ),
        sent_is_cached(
            Ok::<LightAction, ServiceError>(temperature_action(v, t, index)),
            temperature_set(v, t, index),
            index,
        ),
        sent_is_cached(
            Ok::<LightAction, ServiceError>(
                LightAction::SetLights(LightState { on: 1, brightness: b, temperature: t }),
            ),
            scene_set(v, b, t),
            None,
        ),
        v.is_on.len() > 0 ==> (brightness_action(v, b, None) matches LightAction::SetLights(st)
            && st.temperature == v.temperature[0] && status_of(brightness_set(v, b, None)).2
            == api_to_kelvin_spec(st.temperature as int)),
        v.is_on.len() > 0 ==> (temperature_action(v, t, None) matches LightAction::SetLights(st)
            && st.brightness == v.brightness[0] && status_of(temperature_set(v, t, None)).1
            == st.brightness),
{
}

/// The service's scenes, by name: daylight (80 %, 5600 K), warm (60 %,
/// 3200 K), cool (70 %, 6500 K), reading (90 %, 4500 K), video (75 %,
/// 5000 K) and relax (40 %, 2900 K); no other name is a scene. Every scene
/// is within the ranges the service accepts (0–100 %, 2900–7000 K), relax
/// is the warmest and cool the coolest.
pub proof fn law_service_scene_presets(name: Seq<char>)
    ensures
        scene_spec(name) matches Some((b, k)) ==> b <= 100 && 2900 <= k <= 7000 && k <= 6500,
        scene_spec(seq!['d', 'a', 'y', 'l', 'i', 'g', 'h', 't']) == Some((80u8, 5600u32)),
        scene_spec(seq!['w', 'a', 'r', 'm']) == Some((60u8, 3200u32)),
        scene_spec(seq!['c', 'o', 'o', 'l']) == Some((70u8, 6500u32)),
        scene_spec(seq!['r', 'e', 'a', 'd', 'i', 'n', 'g']) == Some((90u8, 4500u32)),
        scene_spec(seq!['v', 'i', 'd', 'e', 'o']) == Some((75u8, 5000u32)),
        scene_spec(seq!['r', 'e', 'l', 'a', 'x']) == Some((40u8, 2900u32)),
        scene_spec(name) is Some <==> (name == seq!['d', 'a', 'y', 'l', 'i', 'g', 'h', 't'] || name
            == seq!['w', 'a', 'r', 'm'] || name == seq!['c', 'o', 'o', 'l'] || name == seq![
            'r',
            'e',
            'a',
            'd',
            'i',
            'n',
            'g',
        ] || name == seq!['v', 'i', 'd', 'e', 'o'] || name == seq!['r', 'e', 'l', 'a', 'x']),
{
    reveal_strlit("daylight");
    reveal_strlit("reading");
    reveal_strlit("video");
    reveal_strlit("relax");
    reveal_strlit("warm");
    reveal_strlit("cool");
    assert("daylight"@ =~= seq!['d', 'a', 'y', 'l', 'i', 'g', 'h', 't']);
    assert("reading"@ =~= seq!['r', 'e', 'a', 'd', 'i', 'n', 'g']);
    assert("video"@ =~= seq!['v', 'i', 'd', 'e', 'o']);
    assert("relax"@ =~= seq!['r', 'e', 'l', 'a', 'x']);
    assert("warm"@ =~= seq!['w', 'a', 'r', 'm']);
    assert("cool"@ =~= seq!['c', 'o', 'o', 'l']);
    assert(seq!['v', 'i', 'd', 'e', 'o'][0] != seq!['r', 'e', 'l', 'a', 'x'][0]);
    assert(seq!['w', 'a', 'r', 'm'][0] != seq!['c', 'o', 'o', 'l'][0]);
}

} // verus!


