use aes_gcm::aead::Aead;
use aes_gcm::{Aes256Gcm, Key, KeyInit, Nonce};
use web3_wallet::errors::{KeyError, VaultError, WalletError};
use web3_wallet::kdf::{KdfParams, MAX_MEMORY_KIB, MAX_PARALLELISM};
use web3_wallet::key::KeyMaterial;
use web3_wallet::vault::{lock, lock_with, unlock, EncryptedKeyBlob};

const SAMPLE: &str = "4c0883a69102937d6231471b5dbb6204fe5129617082792ae468d01a3f362318";
const SALT: [u8; 16] = [1, 2, 3, 4, 5, 6, 7, 8, 9, 10, 11, 12, 13, 14, 15, 16];
const NONCE: [u8; 12] = [21, 22, 23, 24, 25, 26, 27, 28, 29, 30, 31, 32];

fn light() -> KdfParams {
    KdfParams { time_cost: 1, memory_kib: 8, parallelism: 1 }
}

fn sample_key() -> KeyMaterial {
    KeyMaterial::import_from_encoded(SAMPLE).unwrap()
}

fn vault_error(made: Result<KeyMaterial, VaultError>) -> VaultError {
    match made {
        Ok(_) => panic!("the blob was unlocked"),
        Err(e) => e,
    }
}

#[test]
fn unlock_gives_the_locked_key_back() {
    let key = sample_key();
    let blob = lock(&key, "pw123", light()).unwrap();
    let back = unlock(&blob, "pw123").unwrap();
    assert!(back.same_key(&key));
    assert_eq!(back.to_hex(), SAMPLE);
}

#[test]
fn unlock_under_another_password_is_refused() {
    let key = sample_key();
    let blob = lock(&key, "pw123", light()).unwrap();
    assert_eq!(vault_error(unlock(&blob, "pw124")), VaultError::WrongPassword);
    assert_eq!(vault_error(unlock(&blob, "")), VaultError::WrongPassword);
    assert_eq!(vault_error(unlock(&blob, "pw123 ")), VaultError::WrongPassword);
}

#[test]
fn the_empty_password_locks_and_unlocks() {
    let key = sample_key();
    let blob = lock(&key, "", light()).unwrap();
    assert!(unlock(&blob, "").unwrap().same_key(&key));
    assert_eq!(vault_error(unlock(&blob, "x")), VaultError::WrongPassword);
}

#[test]
fn two_locks_draw_different_salts_and_nonces() {
    let key = sample_key();
    let a = lock(&key, "pw123", light()).unwrap();
    let b = lock(&key, "pw123", light()).unwrap();
    assert_ne!(a.salt(), b.salt());
    assert_ne!(a.nonce(), b.nonce());
    assert_ne!(a.ciphertext(), b.ciphertext());
    assert_ne!(a.encode(), b.encode());
}

#[test]
fn a_blob_has_the_sizes_of_the_layout() {
    let blob = lock(&sample_key(), "pw123", light()).unwrap();
    assert_eq!(blob.salt().len(), 16);
    assert_eq!(blob.nonce().len(), 12);
    assert_eq!(blob.ciphertext().len(), 48);
    assert_eq!(blob.kdf_params(), light());
}

#[test]
fn lock_with_keeps_salt_nonce_and_parameters() {
    let blob = lock_with(&sample_key(), "pw123", light(), &SALT, &NONCE).unwrap();
    assert_eq!(blob.salt(), &SALT.to_vec());
    assert_eq!(blob.nonce(), &NONCE.to_vec());
    assert_eq!(blob.kdf_params(), light());
}

#[test]
fn lock_with_is_the_cipher_under_the_derived_key() {
    let params = KdfParams { time_cost: 2, memory_kib: 32, parallelism: 2 };
    let blob = lock_with(&sample_key(), "pw123", params, &SALT, &NONCE).unwrap();
    let config = argon2::Config {
        variant: argon2::Variant::Argon2id,
        version: argon2::Version::Version13,
        time_cost: 2,
        mem_cost: 32,
        lanes: 2,
        hash_length: 32,
        secret: &[],
        ad: &[],
    };
    let derived = argon2::hash_raw(b"pw123", &SALT, &config).unwrap();
    let cipher = Aes256Gcm::new(Key::<Aes256Gcm>::from_slice(&derived));
    let plain = web3_wallet::hex::decode_hex(SAMPLE.as_bytes()).unwrap();
    let expected = cipher.encrypt(Nonce::from_slice(&NONCE), plain.as_slice()).unwrap();
    assert_eq!(blob.ciphertext(), &expected);
}

#[test]
fn lock_with_gives_the_same_blob_for_the_same_inputs() {
    let a = lock_with(&sample_key(), "pw123", light(), &SALT, &NONCE).unwrap();
    let b = lock_with(&sample_key(), "pw123", light(), &SALT, &NONCE).unwrap();
    assert_eq!(a.encode(), b.encode());
}

#[test]
fn the_ciphertext_depends_on_every_input() {
    let base = lock_with(&sample_key(), "pw123", light(), &SALT, &NONCE).unwrap();
    let other_password = lock_with(&sample_key(), "pw124", light(), &SALT, &NONCE).unwrap();
    let mut salt = SALT;
    salt[0] ^= 1;
    let other_salt = lock_with(&sample_key(), "pw123", light(), &salt, &NONCE).unwrap();
    let mut nonce = NONCE;
    nonce[11] ^= 1;
    let other_nonce = lock_with(&sample_key(), "pw123", light(), &SALT, &nonce).unwrap();
    let heavier = KdfParams { time_cost: 2, memory_kib: 8, parallelism: 1 };
    let other_cost = lock_with(&sample_key(), "pw123", heavier, &SALT, &NONCE).unwrap();
    let other_key = KeyMaterial::from_bytes(&[7u8; 32]).unwrap();
    let other_plain = lock_with(&other_key, "pw123", light(), &SALT, &NONCE).unwrap();
    assert_ne!(base.ciphertext(), other_password.ciphertext());
    assert_ne!(base.ciphertext(), other_salt.ciphertext());
    assert_ne!(base.ciphertext(), other_nonce.ciphertext());
    assert_ne!(base.ciphertext(), other_cost.ciphertext());
    assert_ne!(base.ciphertext(), other_plain.ciphertext());
}

#[test]
fn the_ciphertext_does_not_hold_the_key() {
    let blob = lock_with(&sample_key(), "pw123", light(), &SALT, &NONCE).unwrap();
    let plain = web3_wallet::hex::decode_hex(SAMPLE.as_bytes()).unwrap();
    assert_ne!(&blob.ciphertext()[..32], plain.as_slice());
    assert!(!blob.encode().contains(SAMPLE));
}

#[test]
fn lock_with_refuses_other_sizes() {
    let made = lock_with(&sample_key(), "pw123", light(), &SALT[..15], &NONCE);
    assert_eq!(made.unwrap_err(), VaultError::MalformedBlob);
    let made = lock_with(&sample_key(), "pw123", light(), &[0u8; 17], &NONCE);
    assert_eq!(made.unwrap_err(), VaultError::MalformedBlob);
    let made = lock_with(&sample_key(), "pw123", light(), &SALT, &NONCE[..11]);
    assert_eq!(made.unwrap_err(), VaultError::MalformedBlob);
    let made = lock_with(&sample_key(), "pw123", light(), &SALT, &[0u8; 13]);
    assert_eq!(made.unwrap_err(), VaultError::MalformedBlob);
}

#[test]
fn sizes_are_checked_before_parameters() {
    let bad = KdfParams { time_cost: 0, memory_kib: 8, parallelism: 1 };
    let made = lock_with(&sample_key(), "pw123", bad, &SALT[..15], &NONCE);
    assert_eq!(made.unwrap_err(), VaultError::MalformedBlob);
}

#[test]
fn parameters_out_of_range_are_refused() {
    let cases = [
        KdfParams { time_cost: 0, memory_kib: 8, parallelism: 1 },
        KdfParams { time_cost: 1, memory_kib: 7, parallelism: 1 },
        KdfParams { time_cost: 1, memory_kib: 0, parallelism: 1 },
        KdfParams { time_cost: 1, memory_kib: 15, parallelism: 2 },
        KdfParams { time_cost: 1, memory_kib: 8, parallelism: 0 },
        KdfParams { time_cost: 1, memory_kib: MAX_MEMORY_KIB + 1, parallelism: 1 },
        KdfParams { time_cost: 1, memory_kib: u32::MAX, parallelism: 1 },
        KdfParams { time_cost: 1, memory_kib: MAX_MEMORY_KIB, parallelism: MAX_PARALLELISM + 1 },
        KdfParams { time_cost: 1, memory_kib: MAX_MEMORY_KIB, parallelism: u32::MAX },
    ];
    for params in cases {
        assert!(!params.is_valid());
        let made = lock_with(&sample_key(), "pw123", params, &SALT, &NONCE);
        assert_eq!(made.unwrap_err(), VaultError::KdfFailure);
        let made = lock(&sample_key(), "pw123", params);
        assert_eq!(made.unwrap_err(), WalletError::Vault(VaultError::KdfFailure));
    }
}

#[test]
fn parameters_at_the_limits_are_valid() {
    assert!(KdfParams { time_cost: 1, memory_kib: 8, parallelism: 1 }.is_valid());
    assert!(KdfParams { time_cost: u32::MAX, memory_kib: 8, parallelism: 1 }.is_valid());
    assert!(KdfParams { time_cost: 1, memory_kib: 16, parallelism: 2 }.is_valid());
    assert!(KdfParams { time_cost: 1, memory_kib: MAX_MEMORY_KIB, parallelism: 1 }.is_valid());
    assert!(KdfParams { time_cost: 1, memory_kib: MAX_MEMORY_KIB, parallelism: 262_144 }
        .is_valid());
    assert!(!KdfParams { time_cost: 1, memory_kib: MAX_MEMORY_KIB, parallelism: 262_145 }
        .is_valid());
    let recommended = KdfParams::recommended();
    assert_eq!(recommended, KdfParams { time_cost: 2, memory_kib: 19_456, parallelism: 1 });
    assert!(recommended.is_valid());
}

#[test]
fn unlock_of_a_blob_with_bad_parameters_is_a_kdf_failure() {
    let good = lock_with(&sample_key(), "pw123", light(), &SALT, &NONCE).unwrap();
    let bad = KdfParams { time_cost: 0, memory_kib: 8, parallelism: 1 };
    let blob = EncryptedKeyBlob::from_parts(
        good.salt().clone(),
        good.nonce().clone(),
        bad,
        good.ciphertext().clone(),
    )
    .unwrap();
    assert_eq!(vault_error(unlock(&blob, "pw123")), VaultError::KdfFailure);
}

#[test]
fn unlock_of_a_changed_blob_is_refused() {
    let good = lock_with(&sample_key(), "pw123", light(), &SALT, &NONCE).unwrap();
    for position in [0usize, 17, 31, 32, 47] {
        let mut ciphertext = good.ciphertext().clone();
        ciphertext[position] ^= 0x01;
        let blob = EncryptedKeyBlob::from_parts(
            good.salt().clone(),
            good.nonce().clone(),
            good.kdf_params(),
            ciphertext,
        )
        .unwrap();
        assert_eq!(vault_error(unlock(&blob, "pw123")), VaultError::WrongPassword);
    }
    let mut salt = good.salt().clone();
    salt[3] ^= 0x80;
    let blob = EncryptedKeyBlob::from_parts(
        salt,
        good.nonce().clone(),
        good.kdf_params(),
        good.ciphertext().clone(),
    )
    .unwrap();
    assert_eq!(vault_error(unlock(&blob, "pw123")), VaultError::WrongPassword);
    let mut nonce = good.nonce().clone();
    nonce[0] ^= 0x80;
    let blob = EncryptedKeyBlob::from_parts(
        good.salt().clone(),
        nonce,
        good.kdf_params(),
        good.ciphertext().clone(),
    )
    .unwrap();
    assert_eq!(vault_error(unlock(&blob, "pw123")), VaultError::WrongPassword);
    let other = KdfParams { time_cost: 2, memory_kib: 8, parallelism: 1 };
    let blob = EncryptedKeyBlob::from_parts(
        good.salt().clone(),
        good.nonce().clone(),
        other,
        good.ciphertext().clone(),
    )
    .unwrap();
    assert_eq!(vault_error(unlock(&blob, "pw123")), VaultError::WrongPassword);
}

#[test]
fn unlock_of_a_sealed_value_that_is_no_key_is_refused() {
    let config = argon2::Config {
        time_cost: 1,
        mem_cost: 8,
        lanes: 1,
        ..argon2::Config::default()
    };
    let derived = argon2::hash_raw(b"pw123", &SALT, &config).unwrap();
    let cipher = Aes256Gcm::new(Key::<Aes256Gcm>::from_slice(&derived));
    let sealed = cipher.encrypt(Nonce::from_slice(&NONCE), [0u8; 32].as_slice()).unwrap();
    let blob =
        EncryptedKeyBlob::from_parts(SALT.to_vec(), NONCE.to_vec(), light(), sealed).unwrap();
    assert_eq!(vault_error(unlock(&blob, "pw123")), VaultError::WrongPassword);
}

#[test]
fn unlock_opens_what_the_cipher_sealed() {
    let config = argon2::Config {
        time_cost: 1,
        mem_cost: 8,
        lanes: 1,
        ..argon2::Config::default()
    };
    let derived = argon2::hash_raw(b"pw123", &SALT, &config).unwrap();
    let cipher = Aes256Gcm::new(Key::<Aes256Gcm>::from_slice(&derived));
    let sealed = cipher.encrypt(Nonce::from_slice(&NONCE), [9u8; 32].as_slice()).unwrap();
    let blob =
        EncryptedKeyBlob::from_parts(SALT.to_vec(), NONCE.to_vec(), light(), sealed).unwrap();
    let key = unlock(&blob, "pw123").unwrap();
    assert_eq!(key.to_hex(), "09".repeat(32));
}

#[test]
fn from_parts_checks_the_sizes() {
    let ok = EncryptedKeyBlob::from_parts(vec![0; 16], vec![0; 12], light(), vec![0; 48]);
    assert!(ok.is_ok());
    let cases = [
        (15usize, 12usize, 48usize),
        (17, 12, 48),
        (16, 11, 48),
        (16, 13, 48),
        (16, 12, 47),
        (16, 12, 49),
        (0, 0, 0),
    ];
    for (salt, nonce, ciphertext) in cases {
        let made = EncryptedKeyBlob::from_parts(
            vec![0; salt],
            vec![0; nonce],
            light(),
            vec![0; ciphertext],
        );
        assert_eq!(made.unwrap_err(), VaultError::MalformedBlob);
    }
}

#[test]
fn the_text_form_is_the_layout_in_hexadecimal() {
    let params = KdfParams { time_cost: 2, memory_kib: 19_456, parallelism: 1 };
    let blob =
        EncryptedKeyBlob::from_parts(vec![0xaa; 16], vec![0xbb; 12], params, vec![0xcc; 48])
            .unwrap();
    let expected = format!(
        "{}{}{}{}{}{}",
        "00000002",
        "00004c00",
        "00000001",
        "aa".repeat(16),
        "bb".repeat(12),
        "cc".repeat(48)
    );
    assert_eq!(blob.encode(), expected);
    assert_eq!(blob.encode().len(), 176);
}

#[test]
fn all_four_fields_survive_the_text_form() {
    let params = KdfParams { time_cost: u32::MAX, memory_kib: 0x0102_0304, parallelism: 0 };
    let salt: Vec<u8> = (0..16).collect();
    let nonce: Vec<u8> = (100..112).collect();
    let ciphertext: Vec<u8> = (200..248).collect();
    let blob =
        EncryptedKeyBlob::from_parts(salt.clone(), nonce.clone(), params, ciphertext.clone())
            .unwrap();
    let back = EncryptedKeyBlob::decode(&blob.encode()).unwrap();
    assert_eq!(back.salt(), &salt);
    assert_eq!(back.nonce(), &nonce);
    assert_eq!(back.kdf_params(), params);
    assert_eq!(back.ciphertext(), &ciphertext);
}

#[test]
fn decode_reads_upper_case() {
    let blob = lock_with(&sample_key(), "pw123", light(), &SALT, &NONCE).unwrap();
    let back = EncryptedKeyBlob::decode(&blob.encode().to_uppercase()).unwrap();
    assert_eq!(back.encode(), blob.encode());
}

#[test]
fn decode_refuses_what_is_no_text_form() {
    let text = lock_with(&sample_key(), "pw123", light(), &SALT, &NONCE).unwrap().encode();
    let cases = [
        String::new(),
        text[..174].to_string(),
        text[..175].to_string(),
        format!("{}00", text),
        format!("0x{}", &text[..174]),
        format!("{}zz", &text[..174]),
        format!("{} ", &text[..175]),
    ];
    for case in cases {
        assert_eq!(EncryptedKeyBlob::decode(&case).unwrap_err(), VaultError::MalformedBlob);
    }
}

#[test]
fn a_blob_read_from_text_unlocks() {
    let key = sample_key();
    let text = lock(&key, "pw123", light()).unwrap().encode();
    let blob = EncryptedKeyBlob::decode(&text).unwrap();
    assert!(unlock(&blob, "pw123").unwrap().same_key(&key));
    assert_eq!(vault_error(unlock(&blob, "other")), VaultError::WrongPassword);
}

#[test]
fn lock_reports_only_vault_and_entropy_failures() {
    let made = lock(&sample_key(), "pw123", light());
    match made {
        Ok(_) => {}
        Err(e) => assert_eq!(e, WalletError::Key(KeyError::EntropyUnavailable)),
    }
}
