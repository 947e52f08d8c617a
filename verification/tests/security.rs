use aes::Aes256;
use base64::Engine;
use cbc::cipher::{block_padding::Pkcs7, BlockDecryptMut, KeyIvInit};
use hmac::Mac;
use holikeyz::provisioning::security::{SecurityError, SecurityManager};

#[test]
fn test_session_token() {
    let manager = SecurityManager::new();
    let token = manager.create_session_token("test-session", Some("device-123".to_string())).unwrap();

    assert!(manager.verify_session_token(&token).unwrap());
    assert_eq!(token.session_id, "test-session");
    assert_eq!(token.device_id, Some("device-123".to_string()));
}

#[test]
fn test_credential_encryption() {
    let manager = SecurityManager::new();
    let credentials = "ssid:password123";

    let encrypted = manager.encrypt_credentials(credentials).unwrap();
    let decrypted = manager.decrypt_credentials(&encrypted).unwrap();

    assert_eq!(credentials, decrypted);
}

#[test]
fn test_device_challenge() {
    let manager = SecurityManager::new();
    let challenge = manager.generate_device_challenge();
    let device_id = "device-456";

    let response = manager.calculate_device_response(&challenge, device_id).unwrap();
    assert!(manager.verify_device_response(&challenge, &response, device_id).unwrap());
}

#[test]
fn test_provisioning_certificate() {
    let manager = SecurityManager::new();
    let cert = manager.issue_provisioning_certificate("device-789").unwrap();

    assert!(manager.verify_provisioning_certificate(&cert).unwrap());
    assert_eq!(cert.device_id, "device-789");
}

#[test]
fn expired_session_token_is_refused() {
    let manager = SecurityManager::with_key(vec![7u8; 32]);
    let token = manager
        .create_session_token_at("s", None, 1_000_000)
        .unwrap();
    assert!(manager.verify_session_token_at(&token, 1_000_000).unwrap());
    assert!(!manager.verify_session_token_at(&token, token.expires_at + 1).unwrap());
}

#[test]
fn tampered_session_token_is_refused() {
    let manager = SecurityManager::with_key(vec![1u8; 32]);
    let mut token = manager.create_session_token_at("a", None, 0).unwrap();
    token.session_id = "b".to_string();
    assert!(!manager.verify_session_token_at(&token, 0).unwrap());
}

#[test]
fn other_key_does_not_verify() {
    let a = SecurityManager::with_key(vec![1u8; 32]);
    let b = SecurityManager::with_key(vec![2u8; 32]);
    let challenge = "abc";
    let response = a.calculate_device_response(challenge, "dev").unwrap();
    assert!(a.verify_device_response(challenge, &response, "dev").unwrap());
    assert!(!b.verify_device_response(challenge, &response, "dev").unwrap());
    assert!(!a.verify_device_response(challenge, &response, "other").unwrap());
}

#[test]
fn tampered_payload_is_refused() {
    let manager = SecurityManager::with_key(vec![3u8; 32]);
    let mut payload = manager.encrypt_credentials_at("net:pw", 5_000_000).unwrap();
    payload.data.push('A');
    let r = manager.decrypt_credentials_at(&payload, 5_000_000);
    assert!(matches!(r, Err(SecurityError::InvalidSignature)));
}

#[test]
fn signatures_are_base64_hmac() {
    let manager = SecurityManager::with_key(b"key".to_vec());
    let sig = manager.sign_data(b"The quick brown fox jumps over the lazy dog").unwrap();
    assert_eq!(sig, "97yD9DBThCSxMpjmqm+xQ+9NWaFJRhdZl0edvC0aPNg=");
    assert!(manager.verify_signature(b"The quick brown fox jumps over the lazy dog", &sig).unwrap());
    assert!(!manager.verify_signature(b"the quick brown fox jumps over the lazy dog", &sig).unwrap());
}

#[test]
fn credentials_are_encrypted_under_a_derived_key() {
    let manager = SecurityManager::with_key(vec![9u8; 32]);
    let iv = [5u8; 16];
    let p = manager.encrypt_credentials_with("ssid:pw", 7_000_000_000, &iv).unwrap();
    let raw = base64::engine::general_purpose::STANDARD.decode(&p.data).unwrap();
    assert_eq!(&raw[..16], &iv[..]);
    assert_eq!(raw.len(), 16 + 16);
    assert!(!String::from_utf8_lossy(&raw).contains("ssid:pw"));
    let mut mac = hmac::Hmac::<sha2::Sha256>::new_from_slice(&[9u8; 32]).unwrap();
    mac.update(b"credential-key");
    let key = mac.finalize().into_bytes();
    let plain = cbc::Decryptor::<Aes256>::new_from_slices(&key, &iv)
        .unwrap()
        .decrypt_padded_vec_mut::<Pkcs7>(&raw[16..])
        .unwrap();
    assert_eq!(plain, b"7:ssid:pw".to_vec());
    assert_eq!(manager.decrypt_credentials_at(&p, 7_000_000_000).unwrap(), "ssid:pw");
    assert_eq!(p.signature, manager.sign_data(p.data.as_bytes()).unwrap());
}

#[test]
fn payload_depends_on_the_key() {
    let a = SecurityManager::with_key(vec![1u8; 32]);
    let b = SecurityManager::with_key(vec![2u8; 32]);
    let iv = [0u8; 16];
    let pa = a.encrypt_credentials_with("net:secret", 1_000_000, &iv).unwrap();
    let pb = b.encrypt_credentials_with("net:secret", 1_000_000, &iv).unwrap();
    assert_ne!(pa.data, pb.data);
    let q = a.encrypt_credentials_at("net:secret", 1_000_000).unwrap();
    assert_ne!(q.data, pa.data);
    assert_eq!(a.decrypt_credentials_at(&q, 1_000_000).unwrap(), "net:secret");
}

#[test]
fn short_or_broken_ciphertext_is_refused() {
    let m = SecurityManager::with_key(vec![4u8; 32]);
    let enc = |bytes: &[u8]| base64::engine::general_purpose::STANDARD.encode(bytes);
    let short = enc(&[1u8; 8]);
    let p = holikeyz::provisioning::security::EncryptedPayload {
        signature: m.sign_data(short.as_bytes()).unwrap(),
        data: short,
        timestamp: 0,
    };
    assert_eq!(m.decrypt_credentials_at(&p, 0), Err(SecurityError::Ciphertext));
    let ragged = enc(&[1u8; 21]);
    let q = holikeyz::provisioning::security::EncryptedPayload {
        signature: m.sign_data(ragged.as_bytes()).unwrap(),
        data: ragged,
        timestamp: 0,
    };
    assert_eq!(m.decrypt_credentials_at(&q, 0), Err(SecurityError::Ciphertext));
}

#[test]
fn tokens_and_certificates_from_the_clock_succeed() {
    let m = SecurityManager::with_key(vec![6u8; 16]);
    let t = m.create_session_token("s", None).unwrap();
    assert!(m.verify_session_token(&t).unwrap());
    let c = m.issue_provisioning_certificate("dev").unwrap();
    assert!(m.verify_provisioning_certificate(&c).unwrap());
}

#[test]
fn lifetimes_in_nanoseconds() {
    let m = SecurityManager::with_key(vec![8u8; 16]);
    let t = m.create_session_token_at("s", None, 2_000_000_000).unwrap();
    assert_eq!(t.expires_at, 2_000_000_000 + 3_600_000_000_000);
    assert!(m.verify_session_token_at(&t, t.expires_at).unwrap());
    assert!(!m.verify_session_token_at(&t, t.expires_at + 1).unwrap());
    let p = m.encrypt_credentials_at("a:b", 0).unwrap();
    assert_eq!(m.decrypt_credentials_at(&p, 300_000_000_000).unwrap(), "a:b");
    assert_eq!(m.decrypt_credentials_at(&p, 300_000_000_001), Err(SecurityError::PayloadExpired));
    let c = m.issue_provisioning_certificate_with("dev", 1_500_000_000, &[1u8; 16]).unwrap();
    assert_eq!(c.expires_at, 1_500_000_000 + 31_536_000_000_000_000);
    assert!(m.verify_provisioning_certificate_at(&c, c.expires_at).unwrap());
    assert!(!m.verify_provisioning_certificate_at(&c, c.expires_at + 1).unwrap());
}
