use base64::Engine;
use ipa_webtool::key_manager::{KeyError, KeyManager, KEY_ROTATION_INTERVAL_MS};

fn manager_with_key() -> KeyManager {
    let mut manager = KeyManager::new();
    manager.rotate_key().unwrap();
    manager
}

#[test]
fn test_key_generation() {
    let manager = KeyManager::new();
    let key = manager.generate_new_key();
    assert_eq!(key.len(), 64);
}

#[test]
fn test_key_id_generation() {
    let manager = KeyManager::new();
    let key_id = manager.generate_key_id();
    assert!(key_id.starts_with("key-"));
}

#[test]
fn generated_key_is_lowercase_hex() {
    let manager = KeyManager::new();
    let key = manager.generate_new_key();
    assert!(key.chars().all(|c| c.is_ascii_hexdigit() && !c.is_ascii_uppercase()));
}

#[test]
fn key_id_joins_time_and_suffix() {
    let id = KeyManager::key_id_for(255, &[0xde, 0xad, 0xbe, 0xef]);
    assert_eq!(id, "key-ff-deadbeef");
    let id = KeyManager::key_id_for(-5, &[0x01]);
    assert_eq!(id, "key-0-01");
}

#[test]
fn round_trip_under_current_key() {
    let manager = manager_with_key();
    for plaintext in ["", "hunter2", "密码 with ünïcode", "a much longer secret value 0123456789"] {
        let blob = manager.encrypt(plaintext).unwrap();
        assert_ne!(blob, plaintext);
        assert_eq!(manager.decrypt(&blob).unwrap(), plaintext);
    }
}

#[test]
fn blob_is_nonce_ciphertext_and_tag() {
    let manager = manager_with_key();
    let blob = manager.encrypt("secret").unwrap();
    let raw = base64::engine::general_purpose::STANDARD.decode(&blob).unwrap();
    assert_eq!(raw.len(), 12 + "secret".len() + 16);
}

#[test]
fn fresh_nonce_per_encryption() {
    let manager = manager_with_key();
    let a = manager.encrypt("same").unwrap();
    let b = manager.encrypt("same").unwrap();
    assert_ne!(a, b);
}

#[test]
fn decrypt_after_rotation() {
    let mut manager = manager_with_key();
    let blob = manager.encrypt("before rotation").unwrap();
    manager.rotate_key().unwrap();
    assert_eq!(manager.decrypt(&blob).unwrap(), "before rotation");
    manager.manual_rotate().unwrap();
    assert_eq!(manager.decrypt(&blob).unwrap(), "before rotation");
}

#[test]
fn decrypt_with_fixed_keys_across_rotation() {
    let mut manager = KeyManager::new();
    manager.rotate_with("k1".to_string(), vec![7u8; 32], 1_000).unwrap();
    let blob = manager.encrypt("p@ss").unwrap();
    manager.rotate_with("k2".to_string(), vec![9u8; 32], 2_000).unwrap();
    assert_eq!(manager.get_current_key_id().unwrap(), "k2");
    assert_eq!(manager.decrypt(&blob).unwrap(), "p@ss");
}

#[test]
fn corrupted_tag_fails_for_every_key() {
    let mut manager = manager_with_key();
    let blob = manager.encrypt("tamper me").unwrap();
    manager.rotate_key().unwrap();
    let engine = base64::engine::general_purpose::STANDARD;
    let mut raw = engine.decode(&blob).unwrap();
    let last = raw.len() - 1;
    raw[last] ^= 0x01;
    let corrupted = engine.encode(&raw);
    assert_eq!(manager.decrypt(&corrupted), Err(KeyError::DecryptionFailed));
}

#[test]
fn unknown_key_cannot_decrypt() {
    let a = manager_with_key();
    let b = manager_with_key();
    let blob = a.encrypt("private").unwrap();
    assert_eq!(b.decrypt(&blob), Err(KeyError::DecryptionFailed));
}

#[test]
fn malformed_blobs_fail() {
    let manager = manager_with_key();
    assert_eq!(manager.decrypt("not base64!!"), Err(KeyError::DecryptionFailed));
    let short = base64::engine::general_purpose::STANDARD.encode([1u8, 2, 3, 4, 5]);
    assert_eq!(manager.decrypt(&short), Err(KeyError::DecryptionFailed));
}

#[test]
fn operations_without_key() {
    let manager = KeyManager::new();
    assert_eq!(manager.encrypt("x"), Err(KeyError::KeyNotInitialized));
    assert_eq!(manager.get_current_key(), Err(KeyError::KeyNotInitialized));
    assert_eq!(manager.get_current_key_id(), Err(KeyError::KeyNotInitialized));
    let blob = manager_with_key().encrypt("x").unwrap();
    assert_eq!(manager.decrypt(&blob), Err(KeyError::DecryptionFailed));
    assert!(manager.needs_rotation());
    let info = manager.get_key_info();
    assert_eq!(info.key_id, "");
    assert_eq!(info.key, "");
    assert_eq!(info.last_rotation, 0);
    assert_eq!(info.next_rotation, 0);
}

#[test]
fn rotation_schedule() {
    let mut manager = KeyManager::new();
    let info = manager.rotate_with("k1".to_string(), vec![0xab; 32], 1_000).unwrap();
    assert_eq!(info.key_id, "k1");
    assert_eq!(info.key, "ab".repeat(32));
    assert_eq!(info.last_rotation, 1_000);
    assert_eq!(info.next_rotation, 1_000 + 2_592_000_000);
    assert_eq!(KEY_ROTATION_INTERVAL_MS, 2_592_000_000);
    assert_eq!(manager.get_current_key().unwrap(), "ab".repeat(32));
    assert!(!manager.needs_rotation_at(1_000 + KEY_ROTATION_INTERVAL_MS));
    assert!(manager.needs_rotation_at(1_001 + KEY_ROTATION_INTERVAL_MS));
    let info = manager.get_key_info();
    assert_eq!(info.next_rotation, 1_000 + KEY_ROTATION_INTERVAL_MS);
}

#[test]
fn rotation_refused_when_clock_too_large() {
    let mut manager = KeyManager::new();
    let r = manager.rotate_with("k".to_string(), vec![0; 32], i64::MAX - 10);
    assert!(matches!(r, Err(KeyError::ClockOutOfRange)));
    assert_eq!(manager.get_current_key_id(), Err(KeyError::KeyNotInitialized));
}

#[test]
fn init_creates_first_key_once() {
    let mut manager = KeyManager::new();
    manager.init().unwrap();
    let first = manager.get_current_key_id().unwrap();
    manager.init().unwrap();
    assert_eq!(manager.get_current_key_id().unwrap(), first);
    assert!(!manager.needs_rotation());
}

#[test]
fn key_ids_in_decryption_order() {
    let mut manager = KeyManager::new();
    assert!(manager.key_ids_newest_first().is_empty());
    manager.rotate_with("k1".to_string(), vec![1u8; 32], 10).unwrap();
    manager.rotate_with("k2".to_string(), vec![2u8; 32], 20).unwrap();
    manager.rotate_with("k3".to_string(), vec![3u8; 32], 30).unwrap();
    assert_eq!(manager.key_ids_newest_first(), vec!["k3", "k2", "k1"]);
}

#[test]
fn blob_without_room_for_tag_fails() {
    let manager = manager_with_key();
    let engine = base64::engine::general_purpose::STANDARD;
    for len in [12usize, 20, 27] {
        let blob = engine.encode(vec![0u8; len]);
        assert_eq!(manager.decrypt(&blob), Err(KeyError::DecryptionFailed));
    }
}

#[test]
fn rotated_key_id_has_time_and_suffix() {
    let mut manager = KeyManager::new();
    let info = manager.rotate_key().unwrap();
    let parts: Vec<&str> = info.key_id.split('-').collect();
    assert_eq!(parts.len(), 3);
    assert_eq!(parts[0], "key");
    assert!(u64::from_str_radix(parts[1], 16).is_ok());
    assert_eq!(parts[2].len(), 8);
    assert!(parts[2].chars().all(|c| c.is_ascii_hexdigit()));
    assert_eq!(info.key.len(), 64);
}
