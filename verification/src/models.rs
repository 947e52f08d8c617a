//! Data model of a light and the conversion between Kelvin and the
//! device's colour-temperature scale (143 = 7000 K … 344 = 2900 K).
use vstd::prelude::*;

verus! {

/// Coolest colour temperature the device accepts, in Kelvin.
pub const KELVIN_COOLEST: u32 = 7000;
/// Warmest colour temperature the device accepts, in Kelvin.
pub const KELVIN_WARMEST: u32 = 2900;
/// Device scale value of the coolest temperature.
pub const API_COOLEST: u16 = 143;
/// Device scale value of the warmest temperature.
pub const API_WARMEST: u16 = 344;

/// `num / den` rounded to the nearest integer, halves rounded up.
pub open spec fn round_half_up(num: int, den: int) -> int
    recommends
        den > 0,
{
    (2 * num + den) / (2 * den)
}

/// The device value of a temperature in Kelvin: clamped to the device range,
/// and linear in between (7000 K ↦ 143, 2900 K ↦ 344), rounded to nearest.
pub open spec fn kelvin_to_api_spec(kelvin: int) -> int {
    if kelvin >= 7000 {
        143
    } else if kelvin <= 2900 {
        344
    } else {
        // 143 + (7000 - kelvin) * 201 / 4100
        round_half_up(143 * 4100 + (7000 - kelvin) * 201, 4100)
    }
}

/// The temperature in Kelvin of a device value: clamped to the device range,
/// and linear in between (143 ↦ 7000 K, 344 ↦ 2900 K), rounded to nearest.
pub open spec fn api_to_kelvin_spec(api: int) -> int {
    if api <= 143 {
        7000
    } else if api >= 344 {
        2900
    } else {
        // 7000 - (api - 143) * 4100 / 201
        round_half_up(7000 * 201 - (api - 143) * 4100, 201)
    }
}

/// State of one light as the device reports and accepts it.
#[derive(Debug, Clone, Copy, PartialEq, Eq, Structural)]
pub struct LightState {
    pub on: u8,
    pub brightness: u8,
    pub temperature: u16,
}

/// The body of `GET/PUT /elgato/lights`.
#[derive(Debug, Clone)]
pub struct LightResponse {
    pub number_of_lights: u8,
    pub lights: Vec<LightState>,
}

/// The body of `GET /elgato/accessory-info`.
#[derive(Debug, Clone)]
pub struct AccessoryInfo {
    pub product_name: String,
    pub hardware_board_type: u32,
    pub firmware_build_number: u32,
    pub firmware_version: String,
    pub serial_number: String,
    pub display_name: String,
    pub features: Vec<String>,
}

/// The body of `GET/PUT /elgato/settings`.
#[derive(Debug, Clone, Copy, PartialEq, Eq, Structural)]
pub struct Settings {
    pub power_on_behavior: u8,
    pub power_on_brightness: u8,
    pub power_on_temperature: u16,
    pub switch_on_duration_ms: u32,
    pub switch_off_duration_ms: u32,
    pub color_change_duration_ms: u32,
}

/// A light found on the network.
#[derive(Debug, Clone)]
pub struct LightInfo {
    pub ip: String,
    pub port: u16,
    pub name: String,
    pub state: Option<LightState>,
    pub accessory_info: Option<AccessoryInfo>,
}

/// The state a fresh light starts from: off, 50 % brightness, value 213.
pub open spec fn default_light_state() -> LightState {
    LightState { on: 0, brightness: 50, temperature: 213 }
}

impl LightState {
    pub fn new() -> (s: Self)
        ensures
            s == default_light_state(),
    {
        LightState { on: 0, brightness: 50, temperature: 213 }
    }

    pub fn is_on(&self) -> (b: bool)
        ensures
            b == (self.on == 1),
    {
        self.on == 1
    }

    pub fn set_on(&mut self, on: bool)
        ensures
            final(self).on == (if on { 1u8 } else { 0u8 }),
            final(self).brightness == old(self).brightness,
            final(self).temperature == old(self).temperature,
    {
        self.on = if on { 1 } else { 0 };
    }

    /// Converts Kelvin to the device scale.
    pub fn kelvin_to_api(kelvin: u32) -> (api: u16)
        ensures
            api == kelvin_to_api_spec(kelvin as int),
    {
        if kelvin >= 7000 {
            143
        } else if kelvin <= 2900 {
            344
        } else {
            let d: u32 = 7000 - kelvin;
            assert(d * 201 <= 4099 * 201) by (nonlinear_arith)
                requires
                    d <= 4099,
            ;
            let num: u32 = 143 * 4100 + d * 201;
            let r: u32 = (2 * num + 4100) / 8200;
            assert(r <= 344);
            r as u16
        }
    }

    /// Converts the device scale to Kelvin.
    pub fn api_to_kelvin(api: u16) -> (kelvin: u32)
        ensures
            kelvin == api_to_kelvin_spec(api as int),
    {
        if api <= 143 {
            7000
        } else if api >= 344 {
            2900
        } else {
            let e: u32 = (api - 143) as u32;
            assert(e * 4100 <= 200 * 4100) by (nonlinear_arith)
                requires
                    e <= 200,
            ;
            let num: u32 = 7000 * 201 - e * 4100;
            (2 * num + 201) / 402
        }
    }
}

proof fn lemma_div_bounds(n: int, d: int)
    requires
        d > 0,
    ensures
        d * (n / d) <= n < d * (n / d) + d,
{
    vstd::arithmetic::div_mod::lemma_fundamental_div_mod(n, d);
    vstd::arithmetic::div_mod::lemma_mod_bound(n, d);
}

/// Bounds that pin down the conversion to the device scale.
proof fn lemma_kelvin_to_api_bounds(kelvin: int)
    requires
        2900 < kelvin < 7000,
    ensures
        8200 * kelvin_to_api_spec(kelvin) <= 2 * (143 * 4100 + (7000 - kelvin) * 201) + 4100
            < 8200 * kelvin_to_api_spec(kelvin) + 8200,
{
    lemma_div_bounds(2 * (143 * 4100 + (7000 - kelvin) * 201) + 4100, 8200);
}

/// Bounds that pin down the conversion to Kelvin.
proof fn lemma_api_to_kelvin_bounds(api: int)
    requires
        143 < api < 344,
    ensures
        402 * api_to_kelvin_spec(api) <= 2 * (7000 * 201 - (api - 143) * 4100) + 201
            < 402 * api_to_kelvin_spec(api) + 402,
{
    lemma_div_bounds(2 * (7000 * 201 - (api - 143) * 4100) + 201, 402);
}

/// Every Kelvin value maps into the device range 143..=344.
pub proof fn lemma_kelvin_to_api_in_range(kelvin: int)
    ensures
        143 <= kelvin_to_api_spec(kelvin) <= 344,
{
    if 2900 < kelvin < 7000 {
        lemma_kelvin_to_api_bounds(kelvin);
    }
}

/// Every device value maps into 2900..=7000 K.
pub proof fn lemma_api_to_kelvin_in_range(api: int)
    ensures
        2900 <= api_to_kelvin_spec(api) <= 7000,
{
    if 143 < api < 344 {
        lemma_api_to_kelvin_bounds(api);
    }
}

/// A warmer (lower) Kelvin value never gives a cooler (lower) device value.
pub proof fn lemma_kelvin_to_api_antitone(k1: int, k2: int)
    requires
        k1 <= k2,
    ensures
        kelvin_to_api_spec(k1) >= kelvin_to_api_spec(k2),
{
    lemma_kelvin_to_api_in_range(k1);
    lemma_kelvin_to_api_in_range(k2);
    if 2900 < k1 < 7000 && 2900 < k2 < 7000 {
        lemma_kelvin_to_api_bounds(k1);
        lemma_kelvin_to_api_bounds(k2);
    }
}

/// A larger device value never gives a higher Kelvin value.
pub proof fn lemma_api_to_kelvin_antitone(a1: int, a2: int)
    requires
        a1 <= a2,
    ensures
        api_to_kelvin_spec(a1) >= api_to_kelvin_spec(a2),
{
    lemma_api_to_kelvin_in_range(a1);
    lemma_api_to_kelvin_in_range(a2);
    if 143 < a1 < 344 && 143 < a2 < 344 {
        lemma_api_to_kelvin_bounds(a1);
        lemma_api_to_kelvin_bounds(a2);
    }
}

/// The conversion to Kelvin is a rounding to nearest of the linear map.
pub proof fn lemma_api_to_kelvin_nearest(api: int)
    requires
        143 <= api <= 344,
    ensures
        -201 <= 402 * api_to_kelvin_spec(api) - 2 * (7000 * 201 - (api - 143) * 4100) < 201,
{
    if 143 < api < 344 {
        lemma_api_to_kelvin_bounds(api);
    }
}

/// The conversion to the device scale is a rounding to nearest of the linear
/// map, halves rounded up.
pub proof fn lemma_kelvin_to_api_nearest(kelvin: int)
    requires
        2900 <= kelvin <= 7000,
    ensures
        -4100 < 8200 * kelvin_to_api_spec(kelvin) - 2 * (143 * 4100 + (7000 - kelvin) * 201)
            <= 4100,
{
    if 2900 < kelvin < 7000 {
        lemma_kelvin_to_api_bounds(kelvin);
    }
}

/// Converting a device value to Kelvin and back gives the same value.
pub proof fn lemma_api_kelvin_round_trip(api: int)
    requires
        143 <= api <= 344,
    ensures
        kelvin_to_api_spec(api_to_kelvin_spec(api)) == api,
{
    if 143 < api < 344 {
        lemma_api_to_kelvin_bounds(api);
        let k = api_to_kelvin_spec(api);
        if 2900 < k < 7000 {
            lemma_kelvin_to_api_bounds(k);
        }
    }
}

/// Converting Kelvin to the device scale and back is off by at most 10 K.
pub proof fn lemma_kelvin_api_round_trip_error(kelvin: int)
    requires
        2900 <= kelvin <= 7000,
    ensures
        -10 <= api_to_kelvin_spec(kelvin_to_api_spec(kelvin)) - kelvin <= 10,
{
    let a = kelvin_to_api_spec(kelvin);
    lemma_kelvin_to_api_in_range(kelvin);
    if 2900 < kelvin < 7000 {
        lemma_kelvin_to_api_bounds(kelvin);
    }
    if 143 < a < 344 {
        lemma_api_to_kelvin_bounds(a);
    }
}

} // verus!
