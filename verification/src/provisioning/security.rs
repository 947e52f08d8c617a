//! Signed session tokens, encrypted and signed credential payloads, device
//! challenges and provisioning certificates, all signed with HMAC-SHA256
//! under the manager's secret key and carried as standard Base64. Credentials
//! are encrypted with AES-256-CBC under a key derived from the secret key.
//!
//! Times are nanoseconds since the Unix epoch; the text that is signed
//! holds whole seconds.
use crate::text::{
    hex_digit_char, after_first, lemma_after_first_concat, lemma_signed_decimal_free_of, push_signed_decimal_wide,
    push_str, signed_decimal, split_after,
};
use crate::light_service::str_eq;
use crate::provisioning::elgato::{aes256_cbc, aes256_cbc_encrypt, block_padded, pad_blocks, random_block};
use base64::Engine;
use cbc::cipher::{BlockDecryptMut, KeyIvInit};
use hmac::Mac;
use vstd::prelude::*;
use vstd::utf8::{decode_utf8, encode_utf8, valid_utf8};

verus! {

/// HMAC-SHA256 of `data` under `key` (RFC 2104 with SHA-256).
pub uninterp spec fn hmac_sha256(key: Seq<u8>, data: Seq<u8>) -> Seq<u8>;

/// The character of a 6-bit value in the standard Base64 alphabet
/// (RFC 4648): `A`-`Z`, `a`-`z`, `0`-`9`, `+`, `/`.
pub open spec fn base64_char(v: int) -> char {
    if v < 26 {
        ((65 + v) as u8) as char
    } else if v < 52 {
        ((71 + v) as u8) as char
    } else if v < 62 {
        ((v - 4) as u8) as char
    } else if v == 62 {
        '+'
    } else {
        '/'
    }
}

/// Standard Base64 (RFC 4648, with `=` padding) of `data`: each group of
/// three bytes becomes four characters of six bits each; a last group of
/// one or two bytes is padded with `=` to four characters.
pub open spec fn base64_standard(data: Seq<u8>) -> Seq<char>
    decreases data.len(),
{
    if data.len() == 0 {
        Seq::empty()
    } else if data.len() == 1 {
        let a = data[0] as int;
        seq![base64_char(a / 4), base64_char((a % 4) * 16), '=', '=']
    } else if data.len() == 2 {
        let (a, b) = (data[0] as int, data[1] as int);
        seq![base64_char(a / 4), base64_char((a % 4) * 16 + b / 16), base64_char((b % 16) * 4), '=']
    } else {
        let (a, b, c) = (data[0] as int, data[1] as int, data[2] as int);
        seq![
            base64_char(a / 4),
            base64_char((a % 4) * 16 + b / 16),
            base64_char((b % 16) * 4 + c / 64),
            base64_char(c % 64),
        ] + base64_standard(data.skip(3))
    }
}

/// What standard Base64 decoding gives for `text`.
pub uninterp spec fn base64_standard_decoded(text: Seq<u8>) -> Option<Seq<u8>>;

/// Two lower-case hexadecimal digits per byte.
pub open spec fn hex_pairs(bytes: Seq<u8>) -> Seq<char>
    decreases bytes.len(),
{
    if bytes.len() == 0 {
        Seq::empty()
    } else {
        hex_pairs(bytes.drop_last()) + seq![
            hex_digit_char(bytes.last() as int / 16),
            hex_digit_char(bytes.last() as int % 16),
        ]
    }
}

/// The hyphenated lower-case text of the UUID with these 16 bytes: groups
/// of 4, 2, 2, 2 and 6 bytes in hexadecimal, joined by `-`.
pub open spec fn uuid_text(bytes: Seq<u8>) -> Seq<char> {
    hex_pairs(bytes.subrange(0, 4)) + "-"@ + hex_pairs(bytes.subrange(4, 6)) + "-"@ + hex_pairs(
        bytes.subrange(6, 8),
    ) + "-"@ + hex_pairs(bytes.subrange(8, 10)) + "-"@ + hex_pairs(bytes.subrange(10, 16))
}

/// `hmac::Hmac::<sha2::Sha256>`: `new_from_slice`, `update`, `finalize`.
/// The result is the MAC named `hmac_sha256` of the key and the data, 32
/// bytes long (the SHA-256 output size); the crate accepts keys of any
/// length, so a MAC always comes back.
#[verifier::external_body]
fn hmac_sha256_mac(key: &[u8], data: &[u8]) -> (r: Option<Vec<u8>>)
    ensures
        bytes_view(r) == Some(hmac_sha256(key@, data@)),
        r matches Some(m) ==> m@.len() == 32,
{
    match hmac::Hmac::<sha2::Sha256>::new_from_slice(key) {
        Ok(mut mac) => {
            mac.update(data);
            Some(mac.finalize().into_bytes().to_vec())
        },
        Err(_) => None,
    }
}

/// `base64::engine::general_purpose::STANDARD.encode`: the standard Base64
/// text of the bytes, as `base64_standard` spells it out.
#[verifier::external_body]
fn base64_encode(data: &[u8]) -> (s: String)
    ensures
        s@ == base64_standard(data@),
{
    base64::engine::general_purpose::STANDARD.encode(data)
}

pub open spec fn bytes_view(r: Option<Vec<u8>>) -> Option<Seq<u8>> {
    match r {
        Some(v) => Some(v@),
        None => None,
    }
}

/// `base64::engine::general_purpose::STANDARD.decode`: the result named
/// `base64_standard_decoded` of the input bytes (`None` for a decode error).
/// Decoding the UTF-8 bytes of an encoding gives back the encoded bytes.
#[verifier::external_body]
fn base64_decode(text: &str) -> (r: Option<Vec<u8>>)
    ensures
        bytes_view(r) == base64_standard_decoded(encode_utf8(text@)),
        forall|x: Seq<u8>| text@ == base64_standard(x) ==> bytes_view(r) == Some(x),
{
    base64::engine::general_purpose::STANDARD.decode(text.as_bytes()).ok()
}

/// What AES-256-CBC decryption of `data` under `key` and `iv` gives once its
/// PKCS#7 padding is removed; `None` where `data` is not whole blocks or the
/// padding is malformed.
pub uninterp spec fn aes256_cbc_pkcs7_decrypted(key: Seq<u8>, iv: Seq<u8>, data: Seq<u8>) -> Option<
    Seq<u8>,
>;

/// `cbc::Decryptor::<aes::Aes256>::new_from_slices(key, iv)` and
/// `decrypt_padded_vec_mut::<Pkcs7>(data)`: the plaintext named
/// `aes256_cbc_pkcs7_decrypted` (`None` for an unpadding error). With a
/// 32-byte key and a 16-byte IV the cipher is always built. Decryption undoes
/// encryption: the AES-256-CBC ciphertext of PKCS#7-padded bytes under the
/// same key and IV decrypts to those bytes.
#[verifier::external_body]
fn aes256_cbc_decrypt(key: &[u8], iv: &[u8], data: &[u8]) -> (r: Option<Vec<u8>>)
    requires
        key@.len() == 32,
        iv@.len() == 16,
    ensures
        bytes_view(r) == aes256_cbc_pkcs7_decrypted(key@, iv@, data@),
        forall|p: Seq<u8>|
            data@ == #[trigger] aes256_cbc_encrypt(key@, iv@, block_padded(p)) ==> bytes_view(r)
                == Some(p),
{
    match cbc::Decryptor::<aes::Aes256>::new_from_slices(key, iv) {
        Ok(c) => c.decrypt_padded_vec_mut::<cbc::cipher::block_padding::Pkcs7>(data).ok(),
        Err(_) => None,
    }
}

/// `String::from_utf8`: the decoded text exactly when the bytes are UTF-8.
#[verifier::external_body]
fn string_from_utf8(bytes: Vec<u8>) -> (r: Option<String>)
    ensures
        r is Some <==> valid_utf8(bytes@),
        r matches Some(s) ==> s@ == decode_utf8(bytes@),
{
    String::from_utf8(bytes).ok()
}

/// `uuid::Uuid::new_v4().as_bytes()`: 16 random bytes.
#[verifier::external_body]
pub(crate) fn new_uuid_bytes() -> (r: Vec<u8>)
    ensures
        r@.len() == 16,
{
    uuid::Uuid::new_v4().as_bytes().to_vec()
}

/// `uuid::Uuid::from_bytes(..).to_string()`: the hyphenated lower-case
/// form, as `uuid_text` spells it out.
#[verifier::external_body]
pub(crate) fn uuid_to_string(bytes: &[u8]) -> (s: String)
    requires
        bytes@.len() == 16,
    ensures
        s@ == uuid_text(bytes@),
{
    let mut b = [0u8; 16];
    b.copy_from_slice(bytes);
    uuid::Uuid::from_bytes(b).to_string()
}

/// `chrono::Utc::now()`, taken apart into `timestamp()` (whole seconds since
/// the epoch) and `timestamp_subsec_nanos()`. chrono builds it from the
/// system clock's time since the epoch (panicking on a clock set before it)
/// and refuses times past its last representable one, so the seconds lie
/// between zero and that time and the nanoseconds are under a second;
/// nothing else is known of the value.
#[verifier::external_body]
fn now_parts() -> (r: (i64, u32))
    ensures
        0 <= r.0 <= LATEST_SECONDS,
        r.1 < 1_000_000_000,
{
    let now = chrono::Utc::now();
    (now.timestamp(), now.timestamp_subsec_nanos())
}

/// The last whole second chrono can represent: 262142-12-31T23:59:59Z.
pub const LATEST_SECONDS: i64 = 8_210_266_876_799;
/// The last microsecond chrono can represent.
pub const LATEST_MICROS: i64 = 8_210_266_876_799_999_999;
/// The last nanosecond chrono can represent.
pub const LATEST_NANOS: i128 = 8_210_266_876_799_999_999_999;

/// The current time in microseconds since the epoch.
pub(crate) fn now_micros() -> (t: i64)
    ensures
        0 <= t <= LATEST_MICROS,
{
    let (secs, nanos) = now_parts();
    secs * 1_000_000 + (nanos / 1000) as i64
}

/// The current time in nanoseconds since the epoch.
pub(crate) fn now_nanos() -> (t: i128)
    ensures
        0 <= t <= LATEST_NANOS,
{
    let (secs, nanos) = now_parts();
    secs as i128 * 1_000_000_000 + nanos as i128
}

/// How long a session token is valid (one hour).
pub const SESSION_LIFETIME_NANOS: i128 = 3_600_000_000_000;
/// How old a credential payload may be (five minutes).
pub const PAYLOAD_MAX_AGE_NANOS: i128 = 300_000_000_000;
/// How long a provisioning certificate is valid (365 days).
pub const CERTIFICATE_LIFETIME_NANOS: i128 = 31_536_000_000_000_000;

/// The whole seconds of a time (rounded towards the past).
pub open spec fn seconds_of(nanos: int) -> int {
    nanos / 1_000_000_000
}

fn seconds(nanos: i128) -> (s: i128)
    ensures
        s == seconds_of(nanos as int),
{
    if nanos >= 0 {
        nanos / 1_000_000_000
    } else {
        let m: i128 = -(nanos + 1);
        -(m / 1_000_000_000) - 1
    }
}

/// Why a security operation failed.
#[derive(Debug, Clone, Copy, PartialEq, Eq, Structural)]
pub enum SecurityError {
    /// The MAC could not be keyed.
    Hmac,
    /// The signature does not match the data.
    InvalidSignature,
    /// The payload is older than five minutes.
    PayloadExpired,
    /// The payload data is not Base64.
    Base64,
    /// The decoded payload is not a 16-byte IV followed by whole cipher
    /// blocks that decrypt to correctly padded text.
    Ciphertext,
    /// The decoded payload is not UTF-8.
    Utf8,
    /// The decoded payload holds no `:`.
    InvalidPayloadFormat,
    /// The time is past what can be represented.
    TimeOutOfRange,
}

/// A signed session token.
#[derive(Debug, Clone)]
pub struct SecurityToken {
    pub session_id: String,
    pub token: String,
    pub expires_at: i128,
    pub device_id: Option<String>,
}

/// Credentials with a signature and the time they were sealed.
#[derive(Debug, Clone)]
pub struct EncryptedPayload {
    pub data: String,
    pub signature: String,
    pub timestamp: i128,
}

/// A certificate issued to a device.
#[derive(Debug, Clone)]
pub struct ProvisioningCertificate {
    pub device_id: String,
    pub public_key: String,
    pub issued_at: i128,
    pub expires_at: i128,
    pub signature: String,
}

/// Signs and checks data with a secret key.
pub struct SecurityManager {
    pub secret_key: Vec<u8>,
}

/// The signature of `data`: Base64 of its HMAC-SHA256 under `key`.
pub open spec fn sign_spec(key: Seq<u8>, data: Seq<u8>) -> Seq<char> {
    base64_standard(hmac_sha256(key, data))
}

/// The text signed for a session: the session id and `:`.
pub open spec fn session_data(session_id: Seq<char>) -> Seq<char> {
    session_id + ":"@
}

/// Whether a token is accepted at time `now`.
pub open spec fn session_token_valid(
    key: Seq<u8>,
    session_id: Seq<char>,
    token: Seq<char>,
    expires_at: int,
    now: int,
) -> bool {
    now <= expires_at && token == sign_spec(key, encode_utf8(session_data(session_id)))
}

/// The text sealed in a credential payload: the seconds of the time, `:`,
/// and the credentials.
pub open spec fn sealed_text(now: int, credentials: Seq<char>) -> Seq<char> {
    signed_decimal(seconds_of(now)) + ":"@ + credentials
}

/// The text from which the key that encrypts credentials is derived.
pub open spec fn credential_key_label() -> Seq<char> {
    "credential-key"@
}

/// The AES-256 key that encrypts credentials: the HMAC-SHA256 of the label
/// under the manager's secret key.
pub open spec fn credential_key(key: Seq<u8>) -> Seq<u8> {
    hmac_sha256(key, encode_utf8(credential_key_label()))
}

/// The bytes of a credential payload sealed at `now` with the IV `iv`: the
/// IV, then the AES-256-CBC ciphertext of the PKCS#7-padded sealed text.
pub open spec fn sealed_bytes(key: Seq<u8>, iv: Seq<u8>, now: int, credentials: Seq<char>) -> Seq<
    u8,
> {
    iv + aes256_cbc_encrypt(
        credential_key(key),
        iv,
        block_padded(encode_utf8(sealed_text(now, credentials))),
    )
}

/// The data of a credential payload sealed at `now` with the IV `iv`:
/// standard Base64 of its bytes.
pub open spec fn sealed_data(key: Seq<u8>, iv: Seq<u8>, now: int, credentials: Seq<char>) -> Seq<
    char,
> {
    base64_standard(sealed_bytes(key, iv, now, credentials))
}

/// What opening a payload gives at time `now`.
pub open spec fn open_spec(
    key: Seq<u8>,
    data: Seq<char>,
    signature: Seq<char>,
    timestamp: int,
    now: int,
) -> Result<Seq<char>, SecurityError> {
    if sign_spec(key, encode_utf8(data)) != signature {
        Err(SecurityError::InvalidSignature)
    } else if now - timestamp > PAYLOAD_MAX_AGE_NANOS {
        Err(SecurityError::PayloadExpired)
    } else {
        match base64_standard_decoded(encode_utf8(data)) {
            None => Err(SecurityError::Base64),
            Some(raw) => if raw.len() < 16 {
                Err(SecurityError::Ciphertext)
            } else {
                match aes256_cbc_pkcs7_decrypted(
                    credential_key(key),
                    raw.subrange(0, 16),
                    raw.subrange(16, raw.len() as int),
                ) {
                    None => Err(SecurityError::Ciphertext),
                    Some(bytes) => if !valid_utf8(bytes) {
                        Err(SecurityError::Utf8)
                    } else {
                        match after_first(decode_utf8(bytes), ':') {
                            Some(rest) => Ok(rest),
                            None => Err(SecurityError::InvalidPayloadFormat),
                        }
                    },
                }
            },
        }
    }
}

/// The text a device signs in answer to a challenge.
pub open spec fn response_data(challenge: Seq<char>, device_id: Seq<char>) -> Seq<char> {
    challenge + ":"@ + device_id
}

/// The answer a device gives to a challenge.
pub open spec fn device_response_spec(key: Seq<u8>, challenge: Seq<char>, device_id: Seq<char>) -> Seq<char> {
    sign_spec(key, encode_utf8(response_data(challenge, device_id)))
}

/// Whether `response` answers the challenge for the device.
pub open spec fn device_response_valid(
    key: Seq<u8>,
    challenge: Seq<char>,
    response: Seq<char>,
    device_id: Seq<char>,
) -> bool {
    response == device_response_spec(key, challenge, device_id)
}

/// The text signed in a certificate.
pub open spec fn certificate_data(
    device_id: Seq<char>,
    public_key: Seq<char>,
    issued_at: int,
    expires_at: int,
) -> Seq<char> {
    device_id + ":"@ + public_key + ":"@ + signed_decimal(seconds_of(issued_at)) + ":"@
        + signed_decimal(seconds_of(expires_at))
}

/// Whether a certificate is accepted at time `now`.
pub open spec fn certificate_valid(
    key: Seq<u8>,
    device_id: Seq<char>,
    public_key: Seq<char>,
    issued_at: int,
    expires_at: int,
    signature: Seq<char>,
    now: int,
) -> bool {
    now <= expires_at && signature == sign_spec(
        key,
        encode_utf8(certificate_data(device_id, public_key, issued_at, expires_at)),
    )
}

pub open spec fn opt_view(s: Option<String>) -> Option<Seq<char>> {
    match s {
        Some(s) => Some(s@),
        None => None,
    }
}

} // verus!

verus! {

pub open spec fn result_text(r: Result<String, SecurityError>) -> Result<Seq<char>, SecurityError> {
    match r {
        Ok(s) => Ok(s@),
        Err(e) => Err(e),
    }
}

impl SecurityManager {
    /// A manager with a fresh random 16-byte key.
    pub fn new() -> (m: Self)
        ensures
            m.secret_key@.len() == 16,
    {
        SecurityManager { secret_key: Self::generate_secret_key() }
    }

    /// A manager with the given key.
    pub fn with_key(secret_key: Vec<u8>) -> (m: Self)
        ensures
            m.secret_key@ == secret_key@,
    {
        SecurityManager { secret_key }
    }

    fn generate_secret_key() -> (k: Vec<u8>)
        ensures
            k@.len() == 16,
    {
        new_uuid_bytes()
    }

    /// The Base64 HMAC-SHA256 of `data` under the manager's key.
    pub fn sign_data(&self, data: &[u8]) -> (r: Result<String, SecurityError>)
        ensures
            r is Ok,
            r matches Ok(s) ==> s@ == sign_spec(self.secret_key@, data@),
    {
        match hmac_sha256_mac(self.secret_key.as_slice(), data) {
            Some(mac) => Ok(base64_encode(mac.as_slice())),
            None => Err(SecurityError::Hmac),
        }
    }

    /// Whether `signature` is the signature of `data`.
    pub fn verify_signature(&self, data: &[u8], signature: &str) -> (r: Result<bool, SecurityError>)
        ensures
            r == Ok::<bool, SecurityError>(sign_spec(self.secret_key@, data@) == signature@),
    {
        let expected = self.sign_data(data)?;
        Ok(str_eq(expected.as_str(), signature))
    }

    /// A token for `session_id` created at `now`, valid for one hour: the
    /// signature of the session id followed by `:`.
    pub fn create_session_token_at(
        &self,
        session_id: &str,
        device_id: Option<String>,
        now: i128,
    ) -> (r: Result<SecurityToken, SecurityError>)
        ensures
            now > i128::MAX - SESSION_LIFETIME_NANOS ==> r == Err::<SecurityToken, SecurityError>(
                SecurityError::TimeOutOfRange,
            ),
            now <= i128::MAX - SESSION_LIFETIME_NANOS ==> (r matches Ok(t) && t.session_id@
                == session_id@ && t.token@ == sign_spec(
                self.secret_key@,
                encode_utf8(session_data(session_id@)),
            ) && t.expires_at == now + SESSION_LIFETIME_NANOS && opt_view(t.device_id)
                == opt_view(device_id)),
    {
        if now > i128::MAX - SESSION_LIFETIME_NANOS {
            return Err(SecurityError::TimeOutOfRange);
        }
        let mut data = String::new();
        push_str(&mut data, session_id);
        push_str(&mut data, ":");
        assert(data@ =~= session_data(session_id@));
        let token = self.sign_data(data.as_str().as_bytes())?;
        Ok(
            SecurityToken {
                session_id: session_id.to_owned(),
                token,
                expires_at: now + SESSION_LIFETIME_NANOS,
                device_id,
            },
        )
    }

    /// A token for `session_id`, valid for one hour from now.
    pub fn create_session_token(&self, session_id: &str, device_id: Option<String>) -> (r: Result<
        SecurityToken,
        SecurityError,
    >)
        ensures
            r matches Ok(t) && t.session_id@ == session_id@ && t.token@ == sign_spec(
                self.secret_key@,
                encode_utf8(session_data(session_id@)),
            ) && opt_view(t.device_id) == opt_view(device_id) && 0 <= t.expires_at
                - SESSION_LIFETIME_NANOS <= LATEST_NANOS,
    {
        let now = now_nanos();
        self.create_session_token_at(session_id, device_id, now)
    }

    /// Whether a token is unexpired at `now` and carries the signature of
    /// its session.
    pub fn verify_session_token_at(&self, token: &SecurityToken, now: i128) -> (r: Result<
        bool,
        SecurityError,
    >)
        ensures
            r == Ok::<bool, SecurityError>(
                session_token_valid(
                    self.secret_key@,
                    token.session_id@,
                    token.token@,
                    token.expires_at as int,
                    now as int,
                ),
            ),
    {
        if now > token.expires_at {
            return Ok(false);
        }
        let mut data = String::new();
        push_str(&mut data, token.session_id.as_str());
        push_str(&mut data, ":");
        assert(data@ =~= session_data(token.session_id@));
        self.verify_signature(data.as_str().as_bytes(), token.token.as_str())
    }

    /// Whether a token is unexpired now and carries the signature of its
    /// session.
    /// The clock is read once; the verdict is that of
    /// `verify_session_token_at` at the time read.
    pub fn verify_session_token(&self, token: &SecurityToken) -> (r: Result<bool, SecurityError>)
        ensures
            exists|now: i128|
                0 <= now <= LATEST_NANOS && r == Ok::<bool, SecurityError>(
                    #[trigger] session_token_valid(
                        self.secret_key@,
                        token.session_id@,
                        token.token@,
                        token.expires_at as int,
                        now as int,
                    ),
                ),
            r matches Ok(b) && (b ==> token.token@ == sign_spec(
                self.secret_key@,
                encode_utf8(session_data(token.session_id@)),
            )),
            token.expires_at >= LATEST_NANOS ==> r == Ok::<bool, SecurityError>(
                token.token@ == sign_spec(
                    self.secret_key@,
                    encode_utf8(session_data(token.session_id@)),
                ),
            ),
    {
        let now = now_nanos();
        self.verify_session_token_at(token, now)
    }

    /// The key that encrypts credentials, derived from the secret key.
    fn credential_key_bytes(&self) -> (k: Vec<u8>)
        ensures
            k@ == credential_key(self.secret_key@),
            k@.len() == 32,
    {
        match hmac_sha256_mac(self.secret_key.as_slice(), "credential-key".as_bytes()) {
            Some(m) => m,
            None => Vec::new(),
        }
    }

    /// Seals credentials at time `now` with the IV `iv`: the seconds, `:` and
    /// the credentials, padded, encrypted with AES-256-CBC under the key
    /// derived from the secret key, prefixed with the IV, in Base64, signed.
    pub fn encrypt_credentials_with(&self, credentials: &str, now: i128, iv: &[u8]) -> (r: Result<
        EncryptedPayload,
        SecurityError,
    >)
        requires
            iv@.len() == 16,
        ensures
            r matches Ok(p) && p.data@ == sealed_data(self.secret_key@, iv@, now as int, credentials@)
                && p.signature@ == sign_spec(self.secret_key@, encode_utf8(p.data@)) && p.timestamp
                == now,
    {
        let mut text = String::new();
        push_signed_decimal_wide(&mut text, seconds(now));
        push_str(&mut text, ":");
        push_str(&mut text, credentials);
        assert(text@ =~= sealed_text(now as int, credentials@));
        let padded = pad_blocks(vstd::slice::slice_to_vec(text.as_str().as_bytes()));
        let key = self.credential_key_bytes();
        let mut cipher = match aes256_cbc(key.as_slice(), iv, padded.as_slice()) {
            Some(c) => c,
            None => Vec::new(),
        };
        let mut raw = vstd::slice::slice_to_vec(iv);
        let ghost cipher_view = cipher@;
        raw.append(&mut cipher);
        assert(raw@ =~= sealed_bytes(self.secret_key@, iv@, now as int, credentials@));
        let data = base64_encode(raw.as_slice());
        let signature = self.sign_data(data.as_str().as_bytes())?;
        Ok(EncryptedPayload { data, signature, timestamp: now })
    }

    /// Seals credentials at time `now` with a fresh random IV.
    pub fn encrypt_credentials_at(&self, credentials: &str, now: i128) -> (r: Result<
        EncryptedPayload,
        SecurityError,
    >)
        ensures
            exists|iv: Seq<u8>|
                iv.len() == 16 && (r matches Ok(p) && p.data@ == #[trigger] sealed_data(
                    self.secret_key@,
                    iv,
                    now as int,
                    credentials@,
                ) && p.signature@ == sign_spec(self.secret_key@, encode_utf8(p.data@))
                    && p.timestamp == now),
    {
        let iv = random_block();
        self.encrypt_credentials_with(credentials, now, iv.as_slice())
    }

    /// Seals credentials now, with a fresh random IV.
    pub fn encrypt_credentials(&self, credentials: &str) -> (r: Result<
        EncryptedPayload,
        SecurityError,
    >)
        ensures
            exists|iv: Seq<u8>, now: i128|
                iv.len() == 16 && 0 <= now <= LATEST_NANOS && (r matches Ok(p)
                    && p.timestamp == now && p.data@ == #[trigger] sealed_data(
                    self.secret_key@,
                    iv,
                    now as int,
                    credentials@,
                ) && p.signature@ == sign_spec(self.secret_key@, encode_utf8(p.data@))),
    {
        let now = now_nanos();
        self.encrypt_credentials_at(credentials, now)
    }

    /// Opens a payload at time `now`: the signature must match, the payload
    /// be at most five minutes old, the data decode from Base64 to a 16-byte
    /// IV and a ciphertext that decrypts to padded UTF-8 text with a `:`; the
    /// credentials are what follows the first `:`. A payload sealed by this
    /// key gives back the sealed credentials.
    pub fn decrypt_credentials_at(&self, payload: &EncryptedPayload, now: i128) -> (r: Result<
        String,
        SecurityError,
    >)
        ensures
            result_text(r) == open_spec(
                self.secret_key@,
                payload.data@,
                payload.signature@,
                payload.timestamp as int,
                now as int,
            ),
            forall|iv: Seq<u8>, c: Seq<char>|
                iv.len() == 16 && payload.data@ == #[trigger] sealed_data(
                    self.secret_key@,
                    iv,
                    payload.timestamp as int,
                    c,
                ) && payload.signature@ == sign_spec(self.secret_key@, encode_utf8(payload.data@))
                    && now - payload.timestamp <= PAYLOAD_MAX_AGE_NANOS ==> result_text(r) == Ok::<
                    Seq<char>,
                    SecurityError,
                >(c),
    {
        if !self.verify_signature(payload.data.as_str().as_bytes(), payload.signature.as_str())? {
            return Err(SecurityError::InvalidSignature);
        }
        let stamp = payload.timestamp;
        if stamp <= i128::MAX - PAYLOAD_MAX_AGE_NANOS && now > stamp + PAYLOAD_MAX_AGE_NANOS {
            return Err(SecurityError::PayloadExpired);
        }
        let raw = match base64_decode(payload.data.as_str()) {
            Some(d) => d,
            None => {
                return Err(SecurityError::Base64);
            },
        };
        let ghost ts = payload.timestamp as int;
        let ghost key = self.secret_key@;
        if raw.len() < 16 {
            proof {
                assert forall|iv: Seq<u8>, c: Seq<char>|
                    iv.len() == 16 && payload.data@ == #[trigger] sealed_data(key, iv, ts, c) implies false by {
                    assert(raw@ == sealed_bytes(key, iv, ts, c));
                }
            }
            return Err(SecurityError::Ciphertext);
        }
        let ck = self.credential_key_bytes();
        let iv = vstd::slice::slice_subrange(raw.as_slice(), 0, 16);
        let body = vstd::slice::slice_subrange(raw.as_slice(), 16, raw.len());
        proof {
            assert forall|v: Seq<u8>, c: Seq<char>|
                v.len() == 16 && payload.data@ == #[trigger] sealed_data(key, v, ts, c) implies iv@
                == v && body@ == aes256_cbc_encrypt(
                credential_key(key),
                v,
                block_padded(encode_utf8(sealed_text(ts, c))),
            ) by {
                assert(raw@ == sealed_bytes(key, v, ts, c));
                assert(iv@ =~= v);
                assert(body@ =~= aes256_cbc_encrypt(
                    credential_key(key),
                    v,
                    block_padded(encode_utf8(sealed_text(ts, c))),
                ));
            }
        }
        let decoded = match aes256_cbc_decrypt(ck.as_slice(), iv, body) {
            Some(d) => d,
            None => {
                return Err(SecurityError::Ciphertext);
            },
        };
        let ghost bytes = decoded@;
        proof {
            reveal_strlit(":");
            assert forall|v: Seq<u8>, c: Seq<char>|
                v.len() == 16 && payload.data@ == #[trigger] sealed_data(key, v, ts, c) implies valid_utf8(
                bytes,
            ) && bytes == encode_utf8(sealed_text(ts, c)) by {
                vstd::utf8::encode_utf8_valid_utf8(sealed_text(ts, c));
            }
        }
        let text = match string_from_utf8(decoded) {
            Some(t) => t,
            None => {
                return Err(SecurityError::Utf8);
            },
        };
        proof {
            assert forall|v: Seq<u8>, c: Seq<char>|
                v.len() == 16 && payload.data@ == #[trigger] sealed_data(key, v, ts, c) implies after_first(
                text@,
                ':',
            ) == Some(c) by {
                let t = sealed_text(ts, c);
                vstd::utf8::encode_utf8_decode_utf8(t);
                lemma_signed_decimal_free_of(seconds_of(ts), ':');
                assert(t =~= signed_decimal(seconds_of(ts)) + seq![':'] + c);
                lemma_after_first_concat(signed_decimal(seconds_of(ts)), ':', c);
            }
        }
        match split_after(text.as_str(), ':') {
            Some(rest) => Ok(rest),
            None => Err(SecurityError::InvalidPayloadFormat),
        }
    }

    /// Opens a payload now. The clock is read once; the outcome is that of
    /// `decrypt_credentials_at` at the time read.
    pub fn decrypt_credentials(&self, payload: &EncryptedPayload) -> (r: Result<
        String,
        SecurityError,
    >)
        ensures
            exists|now: i128|
                0 <= now <= LATEST_NANOS && result_text(r) == #[trigger] open_spec(
                    self.secret_key@,
                    payload.data@,
                    payload.signature@,
                    payload.timestamp as int,
                    now as int,
                ),
            sign_spec(self.secret_key@, encode_utf8(payload.data@)) != payload.signature@ ==> r
                == Err::<String, SecurityError>(SecurityError::InvalidSignature),
            payload.timestamp >= LATEST_NANOS - PAYLOAD_MAX_AGE_NANOS ==> result_text(r) == open_spec(
                self.secret_key@,
                payload.data@,
                payload.signature@,
                payload.timestamp as int,
                payload.timestamp as int,
            ),
            forall|iv: Seq<u8>, c: Seq<char>|
                iv.len() == 16 && payload.data@ == #[trigger] sealed_data(
                    self.secret_key@,
                    iv,
                    payload.timestamp as int,
                    c,
                ) && payload.signature@ == sign_spec(self.secret_key@, encode_utf8(payload.data@))
                    && payload.timestamp >= LATEST_NANOS - PAYLOAD_MAX_AGE_NANOS ==> result_text(r)
                    == Ok::<Seq<char>, SecurityError>(c),
    {
        let now = now_nanos();
        self.decrypt_credentials_at(payload, now)
    }

    /// A random challenge: Base64 of the text of a random UUID.
    pub fn generate_device_challenge(&self) -> (c: String)
        ensures
            exists|b: Seq<u8>| b.len() == 16 && c@ == base64_standard(encode_utf8(uuid_text(b))),
    {
        let bytes = new_uuid_bytes();
        let text = uuid_to_string(bytes.as_slice());
        base64_encode(text.as_str().as_bytes())
    }

    /// The answer to a challenge: the signature of the challenge, `:` and
    /// the device id.
    pub fn calculate_device_response(&self, challenge: &str, device_id: &str) -> (r: Result<
        String,
        SecurityError,
    >)
        ensures
            r matches Ok(s) && s@ == device_response_spec(self.secret_key@, challenge@, device_id@),
    {
        let mut data = String::new();
        push_str(&mut data, challenge);
        push_str(&mut data, ":");
        push_str(&mut data, device_id);
        assert(data@ =~= response_data(challenge@, device_id@));
        self.sign_data(data.as_str().as_bytes())
    }

    /// Whether `response` is the answer to the challenge for the device.
    pub fn verify_device_response(&self, challenge: &str, response: &str, device_id: &str) -> (r:
        Result<bool, SecurityError>)
        ensures
            r == Ok::<bool, SecurityError>(
                device_response_valid(self.secret_key@, challenge@, response@, device_id@),
            ),
    {
        let expected = self.calculate_device_response(challenge, device_id)?;
        Ok(str_eq(expected.as_str(), response))
    }

    /// A certificate for `device_id` issued at `now` with the public key
    /// Base64 of `key_bytes`, valid for 365 days.
    pub fn issue_provisioning_certificate_with(
        &self,
        device_id: &str,
        now: i128,
        key_bytes: &[u8],
    ) -> (r: Result<ProvisioningCertificate, SecurityError>)
        ensures
            now > i128::MAX - CERTIFICATE_LIFETIME_NANOS ==> r == Err::<
                ProvisioningCertificate,
                SecurityError,
            >(SecurityError::TimeOutOfRange),
            now <= i128::MAX - CERTIFICATE_LIFETIME_NANOS ==> (r matches Ok(c) && c.device_id@
                == device_id@ && c.public_key@ == base64_standard(key_bytes@) && c.issued_at == now
                && c.expires_at == now + CERTIFICATE_LIFETIME_NANOS && c.signature@ == sign_spec(
                self.secret_key@,
                encode_utf8(
                    certificate_data(
                        device_id@,
                        c.public_key@,
                        c.issued_at as int,
                        c.expires_at as int,
                    ),
                ),
            )),
    {
        if now > i128::MAX - CERTIFICATE_LIFETIME_NANOS {
            return Err(SecurityError::TimeOutOfRange);
        }
        let public_key = base64_encode(key_bytes);
        let expires_at = now + CERTIFICATE_LIFETIME_NANOS;
        let data = certificate_text(device_id, public_key.as_str(), now, expires_at);
        let signature = self.sign_data(data.as_str().as_bytes())?;
        Ok(
            ProvisioningCertificate {
                device_id: device_id.to_owned(),
                public_key,
                issued_at: now,
                expires_at,
                signature,
            },
        )
    }

    /// A certificate for `device_id` issued now with a random public key.
    pub fn issue_provisioning_certificate(&self, device_id: &str) -> (r: Result<
        ProvisioningCertificate,
        SecurityError,
    >)
        ensures
            r matches Ok(c) && c.device_id@ == device_id@ && 0 <= c.issued_at
                <= LATEST_NANOS && (exists|b: Seq<u8>|
                b.len() == 16 && c.public_key@ == #[trigger] base64_standard(b)) && c.expires_at
                == c.issued_at
                + CERTIFICATE_LIFETIME_NANOS && c.signature@ == sign_spec(
                self.secret_key@,
                encode_utf8(
                    certificate_data(
                        device_id@,
                        c.public_key@,
                        c.issued_at as int,
                        c.expires_at as int,
                    ),
                ),
            ),
    {
        let bytes = new_uuid_bytes();
        let now = now_nanos();
        self.issue_provisioning_certificate_with(device_id, now, bytes.as_slice())
    }

    /// Whether a certificate is unexpired at `now` and correctly signed.
    pub fn verify_provisioning_certificate_at(
        &self,
        cert: &ProvisioningCertificate,
        now: i128,
    ) -> (r: Result<bool, SecurityError>)
        ensures
            r == Ok::<bool, SecurityError>(
                certificate_valid(
                    self.secret_key@,
                    cert.device_id@,
                    cert.public_key@,
                    cert.issued_at as int,
                    cert.expires_at as int,
                    cert.signature@,
                    now as int,
                ),
            ),
    {
        if now > cert.expires_at {
            return Ok(false);
        }
        let data = certificate_text(
            cert.device_id.as_str(),
            cert.public_key.as_str(),
            cert.issued_at,
            cert.expires_at,
        );
        self.verify_signature(data.as_str().as_bytes(), cert.signature.as_str())
    }

    /// Whether a certificate is unexpired now and correctly signed.
    /// The clock is read once; the verdict is that of
    /// `verify_provisioning_certificate_at` at the time read.
    pub fn verify_provisioning_certificate(&self, cert: &ProvisioningCertificate) -> (r: Result<
        bool,
        SecurityError,
    >)
        ensures
            exists|now: i128|
                0 <= now <= LATEST_NANOS && r == Ok::<bool, SecurityError>(
                    #[trigger] certificate_valid(
                        self.secret_key@,
                        cert.device_id@,
                        cert.public_key@,
                        cert.issued_at as int,
                        cert.expires_at as int,
                        cert.signature@,
                        now as int,
                    ),
                ),
            cert.expires_at >= LATEST_NANOS ==> r == Ok::<bool, SecurityError>(
                cert.signature@ == sign_spec(
                    self.secret_key@,
                    encode_utf8(
                        certificate_data(
                            cert.device_id@,
                            cert.public_key@,
                            cert.issued_at as int,
                            cert.expires_at as int,
                        ),
                    ),
                ),
            ),
            r matches Ok(b) && (b ==> cert.signature@ == sign_spec(
                self.secret_key@,
                encode_utf8(
                    certificate_data(
                        cert.device_id@,
                        cert.public_key@,
                        cert.issued_at as int,
                        cert.expires_at as int,
                    ),
                ),
            )),
    {
        let now = now_nanos();
        self.verify_provisioning_certificate_at(cert, now)
    }
}

fn certificate_text(device_id: &str, public_key: &str, issued_at: i128, expires_at: i128) -> (s:
    String)
    ensures
        s@ == certificate_data(device_id@, public_key@, issued_at as int, expires_at as int),
{
    let mut s = String::new();
    push_str(&mut s, device_id);
    push_str(&mut s, ":");
    push_str(&mut s, public_key);
    push_str(&mut s, ":");
    push_signed_decimal_wide(&mut s, seconds(issued_at));
    push_str(&mut s, ":");
    push_signed_decimal_wide(&mut s, seconds(expires_at));
    assert(s@ =~= certificate_data(device_id@, public_key@, issued_at as int, expires_at as int));
    s
}

/// A token created at `created` is accepted at every time up to an hour
/// later.
pub proof fn law_session_token_accepted(
    key: Seq<u8>,
    session_id: Seq<char>,
    created: int,
    now: int,
)
    requires
        now <= created + SESSION_LIFETIME_NANOS,
    ensures
        session_token_valid(
            key,
            session_id,
            sign_spec(key, encode_utf8(session_data(session_id))),
            created + SESSION_LIFETIME_NANOS,
            now,
        ),
{
}

/// An expired token is refused whatever it carries.
pub proof fn law_expired_token_refused(
    key: Seq<u8>,
    session_id: Seq<char>,
    token: Seq<char>,
    expires_at: int,
    now: int,
)
    requires
        now > expires_at,
    ensures
        !session_token_valid(key, session_id, token, expires_at, now),
{
}

/// The answer computed for a challenge is accepted for that challenge and
/// device.
pub proof fn law_device_response_accepted(key: Seq<u8>, challenge: Seq<char>, device_id: Seq<char>)
    ensures
        device_response_valid(
            key,
            challenge,
            device_response_spec(key, challenge, device_id),
            device_id,
        ),
{
}

/// A certificate issued at `issued` is accepted up to its expiry.
pub proof fn law_certificate_accepted(
    key: Seq<u8>,
    device_id: Seq<char>,
    public_key: Seq<char>,
    issued: int,
    now: int,
)
    requires
        now <= issued + CERTIFICATE_LIFETIME_NANOS,
    ensures
        certificate_valid(
            key,
            device_id,
            public_key,
            issued,
            issued + CERTIFICATE_LIFETIME_NANOS,
            sign_spec(
                key,
                encode_utf8(
                    certificate_data(
                        device_id,
                        public_key,
                        issued,
                        issued + CERTIFICATE_LIFETIME_NANOS,
                    ),
                ),
            ),
            now,
        ),
{
}

/// A payload whose signature does not match is refused before anything
/// else, and a correctly signed one older than five minutes is refused as
/// expired.
pub proof fn law_payload_checks(
    key: Seq<u8>,
    data: Seq<char>,
    signature: Seq<char>,
    timestamp: int,
    now: int,
)
    ensures
        signature != sign_spec(key, encode_utf8(data)) ==> open_spec(
            key,
            data,
            signature,
            timestamp,
            now,
        ) == Err::<Seq<char>, SecurityError>(SecurityError::InvalidSignature),
        signature == sign_spec(key, encode_utf8(data)) && now - timestamp
            > PAYLOAD_MAX_AGE_NANOS ==> open_spec(key, data, signature, timestamp, now) == Err::<
            Seq<char>,
            SecurityError,
        >(SecurityError::PayloadExpired),
{
}

/// What is signed, in order: a device's answer to a challenge signs the
/// challenge, `:` and the device id; a session token signs the session id
/// and `:`; a certificate signs the device id, the public key, and the
/// whole seconds of issue and expiry, separated by `:`; a credential payload
/// seals the whole seconds of its time, `:` and the credentials.
pub proof fn law_signed_texts(
    key: Seq<u8>,
    challenge: Seq<char>,
    device_id: Seq<char>,
    session_id: Seq<char>,
    public_key: Seq<char>,
    issued_at: int,
    expires_at: int,
    credentials: Seq<char>,
)
    ensures
        device_response_spec(key, challenge, device_id) == sign_spec(
            key,
            encode_utf8(challenge + seq![':'] + device_id),
        ),
        session_data(session_id) == session_id + seq![':'],
        certificate_data(device_id, public_key, issued_at, expires_at) == device_id + seq![':']
            + public_key + seq![':'] + signed_decimal(issued_at / 1_000_000_000) + seq![':']
            + signed_decimal(expires_at / 1_000_000_000),
        sealed_text(issued_at, credentials) == signed_decimal(issued_at / 1_000_000_000) + seq![
            ':',
        ] + credentials,
{
    reveal_strlit(":");
    assert(response_data(challenge, device_id) =~= challenge + seq![':'] + device_id);
    assert(session_data(session_id) =~= session_id + seq![':']);
    assert(certificate_data(device_id, public_key, issued_at, expires_at) =~= device_id + seq![
        ':',
    ] + public_key + seq![':'] + signed_decimal(issued_at / 1_000_000_000) + seq![':']
        + signed_decimal(expires_at / 1_000_000_000));
    assert(sealed_text(issued_at, credentials) =~= signed_decimal(issued_at / 1_000_000_000)
        + seq![':'] + credentials);
}

} // verus!

