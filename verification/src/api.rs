//! The HTTP conversation with a light: where each request goes, what it
//! carries, and how the answer is judged. The requests themselves are sent
//! by the caller.
use crate::error::HolikeyzError;
use crate::models::{default_light_state, LightResponse, LightState};
use crate::text::{decimal, push_decimal, push_str};
use vstd::prelude::*;

verus! {

/// The base address of a light's API.
pub open spec fn base_url_of(ip: Seq<char>, port: u16) -> Seq<char> {
    "http://"@ + ip + ":"@ + decimal(port as nat) + "/elgato"@
}

/// The state a request starts from: the first light the device reported,
/// or a fresh state when it reported none.
pub open spec fn first_light_or_default(current: Seq<LightState>) -> LightState {
    if current.len() > 0 {
        current[0]
    } else {
        default_light_state()
    }
}

/// A light's API, reached at `base_url`.
pub struct RingLightClient {
    pub base_url: String,
}

impl RingLightClient {
    /// The API of the light at `ip` and `port`: `http://ip:port/elgato`.
    pub fn new(ip: &str, port: u16) -> (c: Self)
        ensures
            c.base_url@ == base_url_of(ip@, port),
    {
        let mut base_url = String::new();
        push_str(&mut base_url, "http://");
        push_str(&mut base_url, ip);
        push_str(&mut base_url, ":");
        push_decimal(&mut base_url, port as u64);
        push_str(&mut base_url, "/elgato");
        assert(base_url@ =~= base_url_of(ip@, port));
        RingLightClient { base_url }
    }

    fn endpoint(&self, path: &str) -> (url: String)
        ensures
            url@ == self.base_url@ + path@,
    {
        let mut url = self.base_url.clone();
        push_str(&mut url, path);
        url
    }

    /// Where the lights' state is read and written.
    pub fn lights_url(&self) -> (url: String)
        ensures
            url@ == self.base_url@ + "/lights"@,
    {
        self.endpoint("/lights")
    }

    /// Where the accessory information is read.
    pub fn accessory_info_url(&self) -> (url: String)
        ensures
            url@ == self.base_url@ + "/accessory-info"@,
    {
        self.endpoint("/accessory-info")
    }

    /// Where the settings are read and written.
    pub fn settings_url(&self) -> (url: String)
        ensures
            url@ == self.base_url@ + "/settings"@,
    {
        self.endpoint("/settings")
    }

    /// Where the light is asked to flash.
    pub fn identify_url(&self) -> (url: String)
        ensures
            url@ == self.base_url@ + "/identify"@,
    {
        self.endpoint("/identify")
    }

    /// Judges the HTTP status of an answer: anything but 200 means the
    /// device was not found at this address.
    pub fn check_status(&self, status: u16) -> (r: Result<(), HolikeyzError>)
        ensures
            r is Ok <==> status == 200,
            r matches Err(HolikeyzError::DeviceNotFound(u)) ==> u@ == self.base_url@,
            r is Err ==> r->Err_0 is DeviceNotFound,
    {
        if status == 200 {
            Ok(())
        } else {
            Err(HolikeyzError::DeviceNotFound(self.base_url.clone()))
        }
    }
}

/// The body that sets the light: one light in the given state.
pub fn lights_body(state: LightState) -> (body: LightResponse)
    ensures
        body.number_of_lights == 1,
        body.lights@ == seq![state],
{
    let mut lights: Vec<LightState> = Vec::new();
    lights.push(state);
    LightResponse { number_of_lights: 1, lights }
}

/// The state that switches the light on or off: the first reported light
/// (or a fresh state) with its power flag set, other fields kept.
pub fn power_state(current: &LightResponse, on: bool) -> (s: LightState)
    ensures
        s == (LightState { on: if on { 1u8 } else { 0u8 }, ..first_light_or_default(current.lights@) }),
{
    let mut state = if current.lights.len() > 0 {
        current.lights[0]
    } else {
        LightState::new()
    };
    state.set_on(on);
    state
}

/// The state that sets a brightness: on, at that brightness and the middle
/// temperature value 213; above 100 the brightness is refused.
pub fn brightness_state(brightness: u8) -> (r: Result<LightState, HolikeyzError>)
    ensures
        brightness <= 100 ==> r == Ok::<LightState, HolikeyzError>(
            LightState { on: 1, brightness, temperature: 213 },
        ),
        brightness > 100 ==> r == Err::<LightState, HolikeyzError>(
            HolikeyzError::InvalidBrightness(brightness),
        ),
{
    if brightness > 100 {
        return Err(HolikeyzError::InvalidBrightness(brightness));
    }
    let mut state = LightState::new();
    state.set_on(true);
    state.brightness = brightness;
    state.temperature = 213;
    Ok(state)
}

/// Checks a temperature value before it is sent: it must lie in 143..=344.
pub fn check_temperature(temperature: u16) -> (r: Result<(), HolikeyzError>)
    ensures
        143 <= temperature <= 344 ==> r == Ok::<(), HolikeyzError>(()),
        !(143 <= temperature <= 344) ==> r == Err::<(), HolikeyzError>(
            HolikeyzError::InvalidTemperature(temperature),
        ),
{
    if temperature < 143 || temperature > 344 {
        Err(HolikeyzError::InvalidTemperature(temperature))
    } else {
        Ok(())
    }
}

/// The state that sets a temperature value: the first reported light (or a
/// fresh state) with that temperature, other fields kept.
pub fn temperature_state(current: &LightResponse, temperature: u16) -> (s: LightState)
    ensures
        s == (LightState { temperature, ..first_light_or_default(current.lights@) }),
{
    let mut state = if current.lights.len() > 0 {
        current.lights[0]
    } else {
        LightState::new()
    };
    state.temperature = temperature;
    state
}

/// The device value sent for a temperature in Kelvin; it always passes
/// `check_temperature`.
pub fn kelvin_request(kelvin: u32) -> (t: u16)
    ensures
        t == crate::models::kelvin_to_api_spec(kelvin as int),
        143 <= t <= 344,
{
    proof {
        crate::models::lemma_kelvin_to_api_in_range(kelvin as int);
    }
    LightState::kelvin_to_api(kelvin)
}

} // verus!
