//! The light's own provisioning protocol: its data, the AES key derived
//! from its firmware and board numbers, and the encrypted Wi-Fi payload.
use crate::provisioning::device_provisioner::device_url_of;
use crate::provisioning::enhanced_manager::opt_text;
use crate::provisioning::wifi_manager::WiFiManager;
use crate::provisioning::{
    DeviceInfo, ProvisioningResponse, ProvisioningStatus, SecurityType, WiFiCredentials, WiFiNetwork,
};
use crate::text::{
    has_prefix, hex_digit, hex_digit_char, json_escaped, json_string, lemma_json_escaped_plain, push_char, push_ipv4, push_json_string, push_str,
    starts_with,
};
use cbc::cipher::{BlockEncryptMut, KeyIvInit};
use rand::RngCore;
use vstd::prelude::*;
use vstd::utf8::encode_utf8;

verus! {

/// Port of the light's HTTP interface.
pub const ELGATO_PORT: u16 = 9123;

/// Address of a light in setup mode, on its own access point.
pub open spec fn elgato_default_ip() -> [u8; 4] {
    [192, 168, 62, 1]
}

/// Wi-Fi details a light reports.
#[derive(Debug, Clone)]
pub struct ElgatoWifiInfo {
    pub ssid: String,
    pub frequency_mhz: u32,
    pub rssi: i32,
}

/// What a light reports in `/elgato/accessory-info` (the hardware revision,
/// a floating-point number, is not used by the library and is left out).
#[derive(Debug, Clone)]
pub struct ElgatoDeviceInfo {
    pub product_name: String,
    pub hardware_board_type: u32,
    pub mac_address: String,
    pub firmware_build_number: u32,
    pub firmware_version: String,
    pub serial_number: String,
    pub display_name: String,
    pub features: Vec<String>,
    pub wifi_info: Option<ElgatoWifiInfo>,
}

/// The lights of a device as `/elgato/lights` reports them.
#[derive(Debug, Clone)]
pub struct ElgatoLightState {
    pub number_of_lights: u32,
    pub lights: Vec<ElgatoLight>,
}

/// One light.
#[derive(Debug, Clone, Copy, PartialEq, Eq, Structural)]
pub struct ElgatoLight {
    pub on: u8,
    pub brightness: u8,
    pub temperature: u16,
}

/// A hexadecimal decoding error (as the `hex` crate reports it).
#[derive(Debug, Clone, Copy, PartialEq, Eq, Structural)]
pub enum HexError {
    InvalidHexCharacter { c: char, index: usize },
    OddLength,
    InvalidStringLength,
}

/// Why the Wi-Fi payload could not be built.
#[derive(Debug, Clone, Copy, PartialEq, Eq, Structural)]
pub enum ElgatoError {
    /// Enterprise networks are not supported by the device.
    EnterpriseNotSupported,
    /// The key or IV text is not hexadecimal.
    Hex(HexError),
    /// The key is not 32 bytes long (the length it has).
    InvalidKeyLength(usize),
    /// The IV is not 16 bytes long (the length it has).
    InvalidIvLength(usize),
}

/// The value of an ASCII hexadecimal digit.
pub open spec fn hex_value(b: u8) -> Option<u8> {
    if 48 <= b <= 57 {
        Some((b - 48) as u8)
    } else if 65 <= b <= 70 {
        Some((b - 55) as u8)
    } else if 97 <= b <= 102 {
        Some((b - 87) as u8)
    } else {
        None
    }
}

/// Hexadecimal text decoded two digits to a byte, or the error the `hex`
/// crate reports: an odd length, or the first byte that is not a digit.
pub open spec fn hex_decode_spec(text: Seq<u8>) -> Result<Seq<u8>, HexError> {
    if text.len() % 2 == 1 {
        Err(HexError::OddLength)
    } else if exists|i: int| 0 <= i < text.len() && hex_value(#[trigger] text[i]) is None {
        let i = choose|i: int|
            0 <= i < text.len() && hex_value(#[trigger] text[i]) is None && forall|j: int|
                0 <= j < i ==> hex_value(text[j]) is Some;
        Err(HexError::InvalidHexCharacter { c: text[i] as char, index: i as usize })
    } else {
        Ok(
            Seq::new(
                text.len() / 2,
                |k: int| (hex_value(text[2 * k])->0 * 16 + hex_value(text[2 * k + 1])->0) as u8,
            ),
        )
    }
}

/// `hex::decode`: the bytes of hexadecimal text, as `hex_decode_spec` says.
#[verifier::external_body]
fn hex_decode(text: &str) -> (r: Result<Vec<u8>, HexError>)
    ensures
        match r {
            Ok(v) => hex_decode_spec(encode_utf8(text@)) == Ok::<Seq<u8>, HexError>(v@),
            Err(e) => hex_decode_spec(encode_utf8(text@)) == Err::<Seq<u8>, HexError>(e),
        },
{
    match hex::decode(text) {
        Ok(v) => Ok(v),
        Err(hex::FromHexError::InvalidHexCharacter { c, index }) => Err(
            HexError::InvalidHexCharacter { c, index },
        ),
        Err(hex::FromHexError::OddLength) => Err(HexError::OddLength),
        Err(hex::FromHexError::InvalidStringLength) => Err(HexError::InvalidStringLength),
    }
}

/// AES-256 in CBC mode, without padding, of `data` under `key` and `iv`.
pub uninterp spec fn aes256_cbc_encrypt(key: Seq<u8>, iv: Seq<u8>, data: Seq<u8>) -> Seq<u8>;

/// `cbc::Encryptor::<aes::Aes256>::new_from_slices(key, iv)` and
/// `encrypt_padded_vec_mut::<NoPadding>(data)`: the ciphertext named
/// `aes256_cbc_encrypt`. With a 32-byte key and a 16-byte IV the cipher is
/// always built; `data` is whole blocks, so without padding the ciphertext
/// is exactly as long as `data`.
#[verifier::external_body]
pub(crate) fn aes256_cbc(key: &[u8], iv: &[u8], data: &[u8]) -> (r: Option<Vec<u8>>)
    requires
        key@.len() == 32,
        iv@.len() == 16,
        data@.len() % 16 == 0,
    ensures
        bytes_option(r) == Some(aes256_cbc_encrypt(key@, iv@, data@)),
        r matches Some(c) ==> c@.len() == data@.len(),
{
    match cbc::Encryptor::<aes::Aes256>::new_from_slices(key, iv) {
        Ok(c) => Some(c.encrypt_padded_vec_mut::<cbc::cipher::block_padding::NoPadding>(data)),
        Err(_) => None,
    }
}

/// `rand::rngs::OsRng.fill_bytes` on 16 bytes: 16 random bytes.
#[verifier::external_body]
pub(crate) fn random_block() -> (r: Vec<u8>)
    ensures
        r@.len() == 16,
{
    let mut b = vec![0u8; 16];
    rand::rngs::OsRng.fill_bytes(&mut b);
    b
}

pub open spec fn bytes_option(r: Option<Vec<u8>>) -> Option<Seq<u8>> {
    match r {
        Some(v) => Some(v@),
        None => None,
    }
}

} // verus!

verus! {

/// Lower-case hexadecimal text of a number, without leading zeros.
pub open spec fn hex_lower(n: nat) -> Seq<char>
    decreases n,
{
    if n < 16 {
        seq![hex_digit_char(n as int)]
    } else {
        hex_lower(n / 16).push(hex_digit_char((n % 16) as int))
    }
}

/// `format!("{:04x}", n)`: at least four lower-case hexadecimal digits.
pub open spec fn hex4(n: nat) -> Seq<char> {
    let h = hex_lower(n);
    if h.len() < 4 {
        Seq::new((4 - h.len()) as nat, |i: int| '0') + h
    } else {
        h
    }
}

/// The first two characters moved to the end (the byte swap of a 16-bit
/// hexadecimal number).
pub open spec fn swap_halves(h: Seq<char>) -> Seq<char> {
    h.skip(2) + h.take(2)
}

/// The device's AES key text: `4CB4btbtB0EADDEEEB2A038A31fwfw56` with
/// `btbt` replaced by the byte-swapped board type and `fwfw` by the
/// byte-swapped firmware build, each as `{:04x}`.
pub open spec fn encryption_key_spec(board: u32, firmware: u32) -> Seq<char> {
    "4CB4"@ + swap_halves(hex4(board as nat)) + "B0EADDEEEB2A038A31"@ + swap_halves(
        hex4(firmware as nat),
    ) + "56"@
}

fn push_hex(s: &mut String, n: u32)
    ensures
        final(s)@ == old(s)@ + hex_lower(n as nat),
    decreases n,
{
    if n >= 16 {
        push_hex(s, n / 16);
    }
    push_char(s, hex_digit(n % 16));
    assert(s@ =~= old(s)@ + hex_lower(n as nat));
}

proof fn lemma_hex_lower_len(n: nat)
    ensures
        hex_lower(n).len() >= 1,
        n < 65536 ==> hex_lower(n).len() <= 4,
        n < 4096 ==> hex_lower(n).len() <= 3,
        n < 256 ==> hex_lower(n).len() <= 2,
        n < 16 ==> hex_lower(n).len() == 1,
        n >= 16 ==> hex_lower(n).len() >= 2,
        n >= 256 ==> hex_lower(n).len() >= 3,
        n >= 4096 ==> hex_lower(n).len() >= 4,
    decreases n,
{
    if n >= 16 {
        lemma_hex_lower_len(n / 16);
    }
}

/// `format!("{:04x}", n)`.
fn hex4_string(n: u32) -> (s: String)
    ensures
        s@ == hex4(n as nat),
        s@.len() >= 4,
{
    let mut h = String::new();
    push_hex(&mut h, n);
    proof {
        lemma_hex_lower_len(n as nat);
    }
    let len = h.as_str().unicode_len();
    if len >= 4 {
        assert(h@ =~= hex4(n as nat));
        return h;
    }
    let mut s = String::new();
    let mut i: usize = len;
    while i < 4
        invariant
            len <= i <= 4,
            len == h@.len(),
            s@ == Seq::new((i - len) as nat, |k: int| '0'),
        decreases 4 - i,
    {
        push_char(&mut s, '0');
        assert(s@ =~= Seq::new((i + 1 - len) as nat, |k: int| '0'));
        i += 1;
    }
    push_str(&mut s, h.as_str());
    assert(s@ =~= hex4(n as nat));
    s
}

/// The byte-swapped `{:04x}` text of `n`.
fn swapped_hex4(n: u32) -> (s: String)
    ensures
        s@ == swap_halves(hex4(n as nat)),
{
    let h = hex4_string(n);
    let len = h.as_str().unicode_len();
    let mut s = String::new();
    push_str(&mut s, h.as_str().substring_char(2, len));
    push_str(&mut s, h.as_str().substring_char(0, 2));
    assert(s@ =~= swap_halves(hex4(n as nat)));
    s
}

/// The AES key text the device expects, derived from its board type and
/// firmware build.
pub fn generate_encryption_key(device_info: &ElgatoDeviceInfo) -> (key: String)
    ensures
        key@ == encryption_key_spec(
            device_info.hardware_board_type,
            device_info.firmware_build_number,
        ),
{
    let mut key = String::new();
    push_str(&mut key, "4CB4");
    let hw = swapped_hex4(device_info.hardware_board_type);
    push_str(&mut key, hw.as_str());
    push_str(&mut key, "B0EADDEEEB2A038A31");
    let fw = swapped_hex4(device_info.firmware_build_number);
    push_str(&mut key, fw.as_str());
    push_str(&mut key, "56");
    assert(key@ =~= encryption_key_spec(
        device_info.hardware_board_type,
        device_info.firmware_build_number,
    ));
    key
}

} // verus!

verus! {

/// The device's code for a security type (`None` for Enterprise, which the
/// device does not support).
pub open spec fn elgato_security_code(t: SecurityType) -> Option<Seq<char>> {
    match t {
        SecurityType::Open => Some("0"@),
        SecurityType::WEP => Some("1"@),
        SecurityType::WPA | SecurityType::WPA2 | SecurityType::WPA3 => Some("2"@),
        SecurityType::Enterprise => None,
    }
}

/// The JSON text of the Wi-Fi payload, as `serde_json::to_string` writes
/// `{SSID, Passphrase, SecurityType}`.
pub open spec fn wifi_payload_json(ssid: Seq<char>, passphrase: Seq<char>, code: Seq<char>) -> Seq<
    char,
> {
    "{\"SSID\":"@ + json_string(ssid) + ",\"Passphrase\":"@ + json_string(passphrase)
        + ",\"SecurityType\":"@ + json_string(code) + "}"@
}

/// `bytes` padded to whole 16-byte blocks: `p` bytes of value `p` added,
/// where `p` is 1 to 16.
pub open spec fn block_padded(bytes: Seq<u8>) -> Seq<u8> {
    let p = 16 - bytes.len() % 16;
    bytes + Seq::new(p as nat, |i: int| p as u8)
}

/// The fixed IV text of the protocol.
pub open spec fn fixed_iv_text() -> Seq<char> {
    "049F6F1149C6F84B1B14913C71E9CDBE"@
}

/// The plaintext of the Wi-Fi payload: the 16-byte `prefix`, then the JSON
/// padded to whole blocks.
pub open spec fn payload_plaintext(
    ssid: Seq<char>,
    passphrase: Seq<char>,
    code: Seq<char>,
    prefix: Seq<u8>,
) -> Seq<u8> {
    prefix + block_padded(encode_utf8(wifi_payload_json(ssid, passphrase, code)))
}

/// The encrypted Wi-Fi payload for `credentials` under the key bytes `k`,
/// with the 16-byte random `prefix` before the padded JSON.
pub open spec fn encrypted_with_key_spec(
    ssid: Seq<char>,
    passphrase: Seq<char>,
    security: SecurityType,
    k: Seq<u8>,
    prefix: Seq<u8>,
) -> Result<Seq<u8>, ElgatoError> {
    match elgato_security_code(security) {
        None => Err(ElgatoError::EnterpriseNotSupported),
        Some(code) => match hex_decode_spec(encode_utf8(fixed_iv_text())) {
            Err(e) => Err(ElgatoError::Hex(e)),
            Ok(iv) => if k.len() != 32 {
                Err(ElgatoError::InvalidKeyLength(k.len() as usize))
            } else if iv.len() != 16 {
                Err(ElgatoError::InvalidIvLength(iv.len() as usize))
            } else {
                Ok(aes256_cbc_encrypt(k, iv, payload_plaintext(ssid, passphrase, code, prefix)))
            },
        },
    }
}

/// The encrypted Wi-Fi payload for `credentials` under the hexadecimal key
/// text `key`, with the 16-byte random `prefix` before the padded JSON.
pub open spec fn encrypted_payload_spec(
    ssid: Seq<char>,
    passphrase: Seq<char>,
    security: SecurityType,
    key: Seq<char>,
    prefix: Seq<u8>,
) -> Result<Seq<u8>, ElgatoError> {
    match elgato_security_code(security) {
        None => Err(ElgatoError::EnterpriseNotSupported),
        Some(code) => match hex_decode_spec(encode_utf8(key)) {
            Err(e) => Err(ElgatoError::Hex(e)),
            Ok(k) => encrypted_with_key_spec(ssid, passphrase, security, k, prefix),
        },
    }
}

pub open spec fn password_text(p: Option<String>) -> Seq<char> {
    match p {
        Some(s) => s@,
        None => Seq::empty(),
    }
}

/// The JSON payload text, or `None` for Enterprise networks.
fn wifi_payload(credentials: &WiFiCredentials) -> (r: Option<String>)
    ensures
        match elgato_security_code(credentials.security_type) {
            None => r is None,
            Some(code) => r matches Some(s) && s@ == wifi_payload_json(
                credentials.ssid@,
                password_text(credentials.password),
                code,
            ),
        },
{
    let code = match credentials.security_type {
        SecurityType::Open => "0",
        SecurityType::WEP => "1",
        SecurityType::WPA | SecurityType::WPA2 | SecurityType::WPA3 => "2",
        SecurityType::Enterprise => {
            return None;
        },
    };
    let mut s = String::new();
    push_str(&mut s, "{\"SSID\":");
    push_json_string(&mut s, credentials.ssid.as_str());
    push_str(&mut s, ",\"Passphrase\":");
    match &credentials.password {
        Some(p) => push_json_string(&mut s, p.as_str()),
        None => push_json_string(&mut s, ""),
    }
    push_str(&mut s, ",\"SecurityType\":");
    push_json_string(&mut s, code);
    push_str(&mut s, "}");
    proof {
        reveal_strlit("");
    }
    assert(s@ =~= wifi_payload_json(
        credentials.ssid@,
        password_text(credentials.password),
        elgato_security_code(credentials.security_type)->0,
    ));
    Some(s)
}

/// The payload bytes padded to whole blocks.
pub(crate) fn pad_blocks(bytes: Vec<u8>) -> (r: Vec<u8>)
    ensures
        r@ == block_padded(bytes@),
        r@.len() % 16 == 0,
{
    let mut r = bytes;
    let p: usize = 16 - r.len() % 16;
    let mut i: usize = 0;
    while i < p
        invariant
            p == 16 - bytes@.len() % 16,
            i <= p,
            r@ == bytes@ + Seq::new(i as nat, |k: int| p as u8),
        decreases p - i,
    {
        r.push(p as u8);
        assert(r@ =~= bytes@ + Seq::new((i + 1) as nat, |k: int| p as u8));
        i += 1;
    }
    r
}

/// Encrypts the Wi-Fi credentials for the device under the key bytes
/// `key_bytes`, with `prefix` as the random first block; the ciphertext is
/// as long as the plaintext.
fn encrypt_with_key_bytes(
    credentials: &WiFiCredentials,
    json: String,
    key_bytes: &[u8],
    prefix: &[u8],
) -> (r: Result<Vec<u8>, ElgatoError>)
    requires
        prefix@.len() == 16,
        elgato_security_code(credentials.security_type) is Some,
        json@ == wifi_payload_json(
            credentials.ssid@,
            password_text(credentials.password),
            elgato_security_code(credentials.security_type)->0,
        ),
    ensures
        match r {
            Ok(v) => encrypted_with_key_spec(
                credentials.ssid@,
                password_text(credentials.password),
                credentials.security_type,
                key_bytes@,
                prefix@,
            ) == Ok::<Seq<u8>, ElgatoError>(v@),
            Err(e) => encrypted_with_key_spec(
                credentials.ssid@,
                password_text(credentials.password),
                credentials.security_type,
                key_bytes@,
                prefix@,
            ) == Err::<Seq<u8>, ElgatoError>(e),
        },
        r matches Ok(v) ==> v@.len() == payload_plaintext(
            credentials.ssid@,
            password_text(credentials.password),
            elgato_security_code(credentials.security_type)->0,
            prefix@,
        ).len(),
{
    let json_bytes = vstd::slice::slice_to_vec(json.as_str().as_bytes());
    let mut padded = pad_blocks(json_bytes);
    let mut data = vstd::slice::slice_to_vec(prefix);
    let ghost padded_view = padded@;
    data.append(&mut padded);
    assert(data@ =~= prefix@ + padded_view);
    let iv_text = "049F6F1149C6F84B1B14913C71E9CDBE";
    let iv_bytes = match hex_decode(iv_text) {
        Ok(v) => v,
        Err(e) => {
            return Err(ElgatoError::Hex(e));
        },
    };
    if key_bytes.len() != 32 {
        return Err(ElgatoError::InvalidKeyLength(key_bytes.len()));
    }
    if iv_bytes.len() != 16 {
        return Err(ElgatoError::InvalidIvLength(iv_bytes.len()));
    }
    match aes256_cbc(key_bytes, iv_bytes.as_slice(), data.as_slice()) {
        Some(c) => Ok(c),
        None => Err(ElgatoError::InvalidKeyLength(key_bytes.len())),
    }
}

/// Encrypts the Wi-Fi credentials for the device under the key text `key`,
/// with `prefix` as the random first block.
pub fn encrypt_wifi_credentials_with(
    credentials: &WiFiCredentials,
    key: &str,
    prefix: &[u8],
) -> (r: Result<Vec<u8>, ElgatoError>)
    requires
        prefix@.len() == 16,
    ensures
        match r {
            Ok(v) => encrypted_payload_spec(
                credentials.ssid@,
                password_text(credentials.password),
                credentials.security_type,
                key@,
                prefix@,
            ) == Ok::<Seq<u8>, ElgatoError>(v@),
            Err(e) => encrypted_payload_spec(
                credentials.ssid@,
                password_text(credentials.password),
                credentials.security_type,
                key@,
                prefix@,
            ) == Err::<Seq<u8>, ElgatoError>(e),
        },
        r matches Ok(v) ==> v@.len() == payload_plaintext(
            credentials.ssid@,
            password_text(credentials.password),
            elgato_security_code(credentials.security_type)->0,
            prefix@,
        ).len(),
{
    let json = match wifi_payload(credentials) {
        Some(j) => j,
        None => {
            return Err(ElgatoError::EnterpriseNotSupported);
        },
    };
    let key_bytes = match hex_decode(key) {
        Ok(k) => k,
        Err(e) => {
            return Err(ElgatoError::Hex(e));
        },
    };
    encrypt_with_key_bytes(credentials, json, key_bytes.as_slice(), prefix)
}

/// Encrypts the Wi-Fi credentials for the device under the key text `key`,
/// with a fresh random first block.
pub fn encrypt_wifi_credentials(credentials: &WiFiCredentials, key: &str) -> (r: Result<
    Vec<u8>,
    ElgatoError,
>)
    ensures
        exists|prefix: Seq<u8>|
            prefix.len() == 16 && match r {
                Ok(v) => encrypted_payload_spec(
                    credentials.ssid@,
                    password_text(credentials.password),
                    credentials.security_type,
                    key@,
                    prefix,
                ) == Ok::<Seq<u8>, ElgatoError>(v@) && v@.len() == payload_plaintext(
                    credentials.ssid@,
                    password_text(credentials.password),
                    elgato_security_code(credentials.security_type)->0,
                    prefix,
                ).len(),
                Err(e) => encrypted_payload_spec(
                    credentials.ssid@,
                    password_text(credentials.password),
                    credentials.security_type,
                    key@,
                    prefix,
                ) == Err::<Seq<u8>, ElgatoError>(e),
            },
{
    let prefix = random_block();
    encrypt_wifi_credentials_with(credentials, key, prefix.as_slice())
}

/// The security code the light is sent: `0` exactly for an open network,
/// `1` exactly for WEP, `2` exactly for the WPA kinds (WPA, WPA2 and WPA3),
/// and none for Enterprise, which the light does not support; the payload
/// is the JSON object of the SSID, the passphrase and that code, in that
/// order, each as a JSON string.
pub proof fn law_wifi_payload_fields(t: SecurityType, ssid: Seq<char>, passphrase: Seq<char>)
    ensures
        elgato_security_code(t) == Some(seq!['0']) <==> t == SecurityType::Open,
        elgato_security_code(t) == Some(seq!['1']) <==> t == SecurityType::WEP,
        elgato_security_code(t) == Some(seq!['2']) <==> (t == SecurityType::WPA || t
            == SecurityType::WPA2 || t == SecurityType::WPA3),
        elgato_security_code(t) is None <==> t == SecurityType::Enterprise,
        elgato_security_code(t) matches Some(code) ==> wifi_payload_json(ssid, passphrase, code)
            == seq!['{'] + json_string(seq!['S', 'S', 'I', 'D']) + seq![':'] + json_string(ssid)
            + seq![','] + json_string(seq!['P', 'a', 's', 's', 'p', 'h', 'r', 'a', 's', 'e'])
            + seq![':'] + json_string(passphrase) + seq![','] + json_string(
            seq!['S', 'e', 'c', 'u', 'r', 'i', 't', 'y', 'T', 'y', 'p', 'e'],
        ) + seq![':'] + json_string(code) + seq!['}'],
{
    reveal_strlit("0");
    reveal_strlit("1");
    reveal_strlit("2");
    reveal_strlit("{\"SSID\":");
    reveal_strlit(",\"Passphrase\":");
    reveal_strlit(",\"SecurityType\":");
    reveal_strlit("}");
    assert(seq!['0'] != seq!['1'] && seq!['0'] != seq!['2'] && seq!['1'] != seq!['2']) by {
        assert(seq!['0'][0] != seq!['1'][0]);
        assert(seq!['0'][0] != seq!['2'][0]);
        assert(seq!['1'][0] != seq!['2'][0]);
    }
    assert("0"@ =~= seq!['0']);
    assert("1"@ =~= seq!['1']);
    assert("2"@ =~= seq!['2']);
    if let Some(code) = elgato_security_code(t) {
        assert(json_escaped(seq!['S', 'S', 'I', 'D']) =~= seq!['S', 'S', 'I', 'D']) by {
            lemma_json_escaped_plain(seq!['S', 'S', 'I', 'D']);
        }
        assert(json_escaped(seq!['P', 'a', 's', 's', 'p', 'h', 'r', 'a', 's', 'e']) =~= seq![
            'P', 'a', 's', 's', 'p', 'h', 'r', 'a', 's', 'e',
        ]) by {
            lemma_json_escaped_plain(seq!['P', 'a', 's', 's', 'p', 'h', 'r', 'a', 's', 'e']);
        }
        assert(json_escaped(seq!['S', 'e', 'c', 'u', 'r', 'i', 't', 'y', 'T', 'y', 'p', 'e'])
            =~= seq!['S', 'e', 'c', 'u', 'r', 'i', 't', 'y', 'T', 'y', 'p', 'e']) by {
            lemma_json_escaped_plain(seq!['S', 'e', 'c', 'u', 'r', 'i', 't', 'y', 'T', 'y', 'p', 'e']);
        }
        assert(wifi_payload_json(ssid, passphrase, code) =~= seq!['{'] + json_string(
            seq!['S', 'S', 'I', 'D'],
        ) + seq![':'] + json_string(ssid) + seq![','] + json_string(
            seq!['P', 'a', 's', 's', 'p', 'h', 'r', 'a', 's', 'e'],
        ) + seq![':'] + json_string(passphrase) + seq![','] + json_string(
            seq!['S', 'e', 'c', 'u', 'r', 'i', 't', 'y', 'T', 'y', 'p', 'e'],
        ) + seq![':'] + json_string(code) + seq!['}']);
    }
}

} // verus!


verus! {

pub open spec fn is_hex_char(c: char) -> bool {
    let u = c as u32;
    (48 <= u <= 57) || (65 <= u <= 70) || (97 <= u <= 102)
}

pub open spec fn is_hex_text(t: Seq<char>) -> bool {
    forall|i: int| 0 <= i < t.len() ==> is_hex_char(#[trigger] t[i])
}

/// The UTF-8 encoding of ASCII text is its characters as bytes.
pub proof fn lemma_ascii_encode(t: Seq<char>)
    requires
        forall|i: int| 0 <= i < t.len() ==> (#[trigger] t[i] as u32) < 128,
    ensures
        encode_utf8(t).len() == t.len(),
        forall|i: int| 0 <= i < t.len() ==> #[trigger] encode_utf8(t)[i] as u32 == t[i] as u32,
    decreases t.len(),
{
    if t.len() > 0 {
        let c0 = t[0] as u32;
        assert(c0 < 128);
        assert(vstd::utf8::leading_byte_width_1(c0) as u32 == c0) by (bit_vector)
            requires
                c0 < 128,
        ;
        lemma_ascii_encode(t.drop_first());
        let b = encode_utf8(t);
        assert forall|i: int| 0 <= i < t.len() implies #[trigger] b[i] as u32 == t[i] as u32 by {
            if i > 0 {
                assert(b[i] == encode_utf8(t.drop_first())[i - 1]);
                assert(t[i] == t.drop_first()[i - 1]);
            }
        }
    }
}

/// Hexadecimal text of even length decodes to half as many bytes.
pub proof fn lemma_hex_text_decodes(t: Seq<char>)
    requires
        is_hex_text(t),
        t.len() % 2 == 0,
    ensures
        hex_decode_spec(encode_utf8(t)) is Ok,
        hex_decode_spec(encode_utf8(t))->Ok_0.len() == t.len() / 2,
{
    assert forall|i: int| 0 <= i < t.len() implies (#[trigger] t[i] as u32) < 128 by {
        assert(is_hex_char(t[i]));
    }
    lemma_ascii_encode(t);
    let b = encode_utf8(t);
    assert forall|i: int| 0 <= i < b.len() implies hex_value(#[trigger] b[i]) is Some by {
        assert(b[i] as u32 == t[i] as u32);
        assert(is_hex_char(t[i]));
    }
}

proof fn lemma_hex_lower_is_hex(n: nat)
    ensures
        is_hex_text(hex_lower(n)),
    decreases n,
{
    if n >= 16 {
        lemma_hex_lower_is_hex(n / 16);
        let h = hex_lower(n);
        assert forall|i: int| 0 <= i < h.len() implies is_hex_char(#[trigger] h[i]) by {
            if i < h.len() - 1 {
                assert(h[i] == hex_lower(n / 16)[i]);
            }
        }
    }
}

proof fn lemma_swapped_hex4(n: nat)
    requires
        n < 65536,
    ensures
        is_hex_text(swap_halves(hex4(n))),
        swap_halves(hex4(n)).len() == 4,
{
    lemma_hex_lower_is_hex(n);
    lemma_hex_lower_len(n);
    let h = hex4(n);
    assert(is_hex_text(h)) by {
        assert forall|i: int| 0 <= i < h.len() implies is_hex_char(#[trigger] h[i]) by {
            let l = hex_lower(n);
            if l.len() < 4 {
                if i >= 4 - l.len() {
                    assert(h[i] == l[i - (4 - l.len())]);
                }
            }
        }
    }
    let s = swap_halves(h);
    assert forall|i: int| 0 <= i < s.len() implies is_hex_char(#[trigger] s[i]) by {
        if i < h.len() - 2 {
            assert(s[i] == h[i + 2]);
        } else {
            assert(s[i] == h[i - (h.len() - 2)]);
        }
    }
}

/// The body sent to `/elgato/wifi-info`: the credentials encrypted with
/// AES-256-CBC whose 32-byte key is the text of the key derived from the
/// device's board type and firmware build, taken byte for byte.
///
/// For every network but Enterprise, and every device whose numbers fit in
/// 16 bits, the key has 32 bytes and the body is made: a random first
/// block, then the padded JSON, all encrypted.
pub fn wifi_provisioning_body(device_info: &ElgatoDeviceInfo, credentials: &WiFiCredentials) -> (r:
    Result<Vec<u8>, ElgatoError>)
    ensures
        exists|prefix: Seq<u8>|
            prefix.len() == 16 && match r {
                Ok(v) => encrypted_with_key_spec(
                    credentials.ssid@,
                    password_text(credentials.password),
                    credentials.security_type,
                    encode_utf8(
                        encryption_key_spec(
                            device_info.hardware_board_type,
                            device_info.firmware_build_number,
                        ),
                    ),
                    prefix,
                ) == Ok::<Seq<u8>, ElgatoError>(v@) && v@.len() == payload_plaintext(
                    credentials.ssid@,
                    password_text(credentials.password),
                    elgato_security_code(credentials.security_type)->0,
                    prefix,
                ).len(),
                Err(e) => encrypted_with_key_spec(
                    credentials.ssid@,
                    password_text(credentials.password),
                    credentials.security_type,
                    encode_utf8(
                        encryption_key_spec(
                            device_info.hardware_board_type,
                            device_info.firmware_build_number,
                        ),
                    ),
                    prefix,
                ) == Err::<Seq<u8>, ElgatoError>(e),
            },
        credentials.security_type == SecurityType::Enterprise ==> r == Err::<Vec<u8>, ElgatoError>(
            ElgatoError::EnterpriseNotSupported,
        ),
        credentials.security_type != SecurityType::Enterprise && device_info.hardware_board_type
            < 65536 && device_info.firmware_build_number < 65536 ==> r is Ok,
{
    let json = match wifi_payload(credentials) {
        Some(j) => j,
        None => {
            proof {
                let witness = Seq::new(16, |i: int| 0u8);
                assert(witness.len() == 16);
            }
            return Err(ElgatoError::EnterpriseNotSupported);
        },
    };
    let key = generate_encryption_key(device_info);
    proof {
        let hw = device_info.hardware_board_type;
        let fw = device_info.firmware_build_number;
        if hw < 65536 && fw < 65536 {
            reveal_strlit("4CB4");
            reveal_strlit("B0EADDEEEB2A038A31");
            reveal_strlit("56");
            lemma_swapped_hex4(hw as nat);
            lemma_swapped_hex4(fw as nat);
            let k = encryption_key_spec(hw, fw);
            assert(k.len() == 32);
            assert(is_hex_text(k)) by {
                let a = "4CB4"@;
                let b = swap_halves(hex4(hw as nat));
                let c = "B0EADDEEEB2A038A31"@;
                let d = swap_halves(hex4(fw as nat));
                let e = "56"@;
                assert(is_hex_text(a));
                assert(is_hex_text(c));
                assert(is_hex_text(e));
                assert forall|i: int| 0 <= i < k.len() implies is_hex_char(#[trigger] k[i]) by {
                    if i < 4 {
                        assert(k[i] == a[i]);
                    } else if i < 8 {
                        assert(k[i] == b[i - 4]);
                    } else if i < 26 {
                        assert(k[i] == c[i - 8]);
                    } else if i < 30 {
                        assert(k[i] == d[i - 26]);
                    } else {
                        assert(k[i] == e[i - 30]);
                    }
                }
            }
            assert forall|i: int| 0 <= i < k.len() implies (#[trigger] k[i] as u32) < 128 by {
                assert(is_hex_char(k[i]));
            }
            lemma_ascii_encode(k);
            assert(encode_utf8(k).len() == 32);
        }
        reveal_strlit("049F6F1149C6F84B1B14913C71E9CDBE");
        assert(is_hex_text(fixed_iv_text()));
        lemma_hex_text_decodes(fixed_iv_text());
    }
    let prefix = random_block();
    encrypt_with_key_bytes(credentials, json, key.as_str().as_bytes(), prefix.as_slice())
}

} // verus!

verus! {

/// Whether a network is a light's setup network: its SSID starts with
/// `Elgato Ring Light` or `Elgato Key Light`.
pub open spec fn is_light_network(n: WiFiNetwork) -> bool {
    has_prefix(n.ssid@, "Elgato Ring Light"@) || has_prefix(n.ssid@, "Elgato Key Light"@)
}

/// The lights' setup networks among scanned networks, in their order.
pub open spec fn light_networks(s: Seq<WiFiNetwork>) -> Seq<WiFiNetwork>
    decreases s.len(),
{
    if s.len() == 0 {
        Seq::empty()
    } else {
        light_networks(s.drop_last()) + if is_light_network(s.last()) {
            seq![s.last()]
        } else {
            Seq::empty()
        }
    }
}

/// Keeps the lights' setup networks of a scan, in their order.
pub fn filter_light_networks(networks: Vec<WiFiNetwork>) -> (r: Vec<WiFiNetwork>)
    ensures
        r@ == light_networks(networks@),
{
    let ghost all = networks@;
    let mut rest = networks;
    let mut kept: Vec<WiFiNetwork> = Vec::new();
    let mut i: usize = 0;
    let n = rest.len();
    while rest.len() > 0
        invariant
            all.len() == n,
            i + rest@.len() == n,
            rest@ == all.skip(i as int),
            kept@ == light_networks(all.take(i as int)),
        decreases rest@.len(),
    {
        let net = rest.remove(0);
        assert(all.take(i + 1).drop_last() =~= all.take(i as int));
        assert(all.take(i + 1).last() == net);
        if starts_with(net.ssid.as_str(), "Elgato Ring Light") || starts_with(
            net.ssid.as_str(),
            "Elgato Key Light",
        ) {
            kept.push(net);
        }
        assert(rest@ =~= all.skip(i + 1));
        i += 1;
        assert(kept@ =~= light_networks(all.take(i as int)));
    }
    assert(all.take(n as int) =~= all);
    kept
}

/// Talking to a light in setup mode over its own access point.
pub struct ElgatoProvisioner {
    pub wifi_manager: WiFiManager,
    pub device_ip: [u8; 4],
    pub original_network: Option<String>,
}

impl ElgatoProvisioner {
    /// Works on `wlan0` and expects the light at 192.168.62.1.
    pub fn new() -> (p: Self)
        ensures
            p.wifi_manager.interface@ == "wlan0"@,
            p.device_ip == elgato_default_ip(),
            p.original_network is None,
    {
        ElgatoProvisioner {
            wifi_manager: WiFiManager::new("wlan0".to_owned()),
            device_ip: [192, 168, 62, 1],
            original_network: None,
        }
    }

    /// The addresses where a light is looked for after joining its access
    /// point, in order: 192.168.62.1, 192.168.4.1, 10.123.45.1, 172.16.0.1.
    pub fn probe_addresses() -> (r: Vec<[u8; 4]>)
        ensures
            r@ == seq![
                elgato_default_ip(),
                [192u8, 168, 4, 1],
                [10u8, 123, 45, 1],
                [172u8, 16, 0, 1],
            ],
    {
        let mut r: Vec<[u8; 4]> = Vec::new();
        r.push([192, 168, 62, 1]);
        r.push([192, 168, 4, 1]);
        r.push([10, 123, 45, 1]);
        r.push([172, 16, 0, 1]);
        r
    }

    /// The URL of a path on the light at `ip`.
    pub fn url_at(ip: [u8; 4], path: &str) -> (url: String)
        ensures
            url@ == device_url_of(ip, path@),
    {
        let mut url = String::new();
        push_str(&mut url, "http://");
        push_ipv4(&mut url, ip);
        push_str(&mut url, ":9123");
        push_str(&mut url, path);
        url
    }

    /// Where the light's information is read, at `ip`.
    pub fn accessory_info_url_at(ip: [u8; 4]) -> (url: String)
        ensures
            url@ == device_url_of(ip, "/elgato/accessory-info"@),
    {
        Self::url_at(ip, "/elgato/accessory-info")
    }

    /// Where the light's state is read and written.
    pub fn lights_url(&self) -> (url: String)
        ensures
            url@ == device_url_of(self.device_ip, "/elgato/lights"@),
    {
        Self::url_at(self.device_ip, "/elgato/lights")
    }

    /// Where the encrypted Wi-Fi settings are sent.
    pub fn wifi_info_url(&self) -> (url: String)
        ensures
            url@ == device_url_of(self.device_ip, "/elgato/wifi-info"@),
    {
        Self::url_at(self.device_ip, "/elgato/wifi-info")
    }

    /// The device information a light gives the provisioning service: its
    /// serial number as id, `Ring Light` by `Elgato`, and its product
    /// name, firmware version, MAC address and features.
    pub fn service_device_info(info: ElgatoDeviceInfo) -> (d: DeviceInfo)
        ensures
            d.device_id@ == info.serial_number@,
            d.device_type@ == "Ring Light"@,
            d.manufacturer@ == "Elgato"@,
            d.model@ == info.product_name@,
            d.firmware_version@ == info.firmware_version@,
            d.mac_address@ == info.mac_address@,
            d.capabilities == info.features,
    {
        DeviceInfo {
            device_id: info.serial_number,
            device_type: "Ring Light".to_owned(),
            manufacturer: "Elgato".to_owned(),
            model: info.product_name,
            firmware_version: info.firmware_version,
            mac_address: info.mac_address,
            capabilities: info.features,
        }
    }

    /// The answer once the encrypted settings were accepted.
    pub fn provisioned_response(session_id: String) -> (r: ProvisioningResponse)
        ensures
            r.session_id@ == session_id@,
            r.status == ProvisioningStatus::Success,
            opt_text(r.message) == Some("Device provisioned successfully"@),
            r.device_info is None,
    {
        ProvisioningResponse {
            session_id,
            status: ProvisioningStatus::Success,
            message: Some("Device provisioned successfully".to_owned()),
            device_info: None,
        }
    }
}

} // verus!
