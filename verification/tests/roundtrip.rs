//! Round-trip, tamper-detection and wrong-key behaviour of the three
//! envelope variants, on real cipher and derivation calls.

use secureenc::envelope::{
    gcm_password_decrypt, gcm_password_encrypt, gcm_password_encrypt_with, keyed_decrypt,
    keyed_encrypt, keyed_encrypt_with, salted_password_decrypt, salted_password_encrypt,
    salted_password_encrypt_with,
};
use secureenc::errors::CryptoError;
use secureenc::kdf::KdfParams;

fn quick_params() -> KdfParams {
    KdfParams { mem_kib: 8192, iterations: 1, parallelism: 1 }
}

#[test]
fn gcm_round_trip() {
    let params = quick_params();
    let plaintext: Vec<u8> = b"attack at dawn".to_vec();
    let password: Vec<u8> = b"correct horse".to_vec();
    let data = gcm_password_encrypt(&plaintext, &password, &params).unwrap();
    let back = gcm_password_decrypt(&data, &password, &params).unwrap();
    assert_eq!(back, plaintext);
}

#[test]
fn salted_round_trip() {
    let params = quick_params();
    let plaintext: Vec<u8> = b"meet me at the bridge".to_vec();
    let password: Vec<u8> = b"hunter2".to_vec();
    let data = salted_password_encrypt(&plaintext, &password, &params).unwrap();
    let back = salted_password_decrypt(&data, &password, &params).unwrap();
    assert_eq!(back, plaintext);
}

#[test]
fn keyed_round_trip() {
    let key: Vec<u8> = (0u8..32).collect();
    let plaintext: Vec<u8> = b"the cargo arrives tuesday".to_vec();
    let data = keyed_encrypt(&plaintext, &key);
    let back = keyed_decrypt(&data, &key).unwrap();
    assert_eq!(back, plaintext);
}

#[test]
fn gcm_tamper_any_bit_fails() {
    let params = quick_params();
    let plaintext: Vec<u8> = b"x".to_vec();
    let password: Vec<u8> = b"pw".to_vec();
    let salt: Vec<u8> = vec![7u8; 16];
    let nonce: Vec<u8> = vec![9u8; 12];
    let data =
        gcm_password_encrypt_with(&plaintext, &password, &salt, &nonce, &params).unwrap();
    // Flip every bit of the ciphertext-and-tag region in turn: each flip must
    // be rejected as an authentication failure, never altered plaintext.
    for byte in 37..data.len() {
        for bit in 0..8 {
            let mut corrupt = data.clone();
            corrupt[byte] ^= 1u8 << bit;
            let r = gcm_password_decrypt(&corrupt, &password, &params);
            assert_eq!(r.unwrap_err(), CryptoError::Authentication);
        }
    }
}

#[test]
fn gcm_tamper_salt_or_nonce_fails() {
    let params = quick_params();
    let plaintext: Vec<u8> = b"payload".to_vec();
    let password: Vec<u8> = b"pw".to_vec();
    let data = gcm_password_encrypt(&plaintext, &password, &params).unwrap();
    for byte in [9usize, 24, 25, 36] {
        let mut corrupt = data.clone();
        corrupt[byte] ^= 0x01;
        let r = gcm_password_decrypt(&corrupt, &password, &params);
        assert_eq!(r.unwrap_err(), CryptoError::Authentication);
    }
}

#[test]
fn gcm_tamper_magic_is_format_error() {
    let params = quick_params();
    let plaintext: Vec<u8> = b"payload".to_vec();
    let password: Vec<u8> = b"pw".to_vec();
    let mut data = gcm_password_encrypt(&plaintext, &password, &params).unwrap();
    data[0] ^= 0x01;
    let r = gcm_password_decrypt(&data, &password, &params);
    assert_eq!(r.unwrap_err(), CryptoError::Format);
}

#[test]
fn salted_tamper_fails() {
    let params = quick_params();
    let plaintext: Vec<u8> = b"payload".to_vec();
    let password: Vec<u8> = b"pw".to_vec();
    let data = salted_password_encrypt(&plaintext, &password, &params).unwrap();
    for byte in [0usize, 15, 16, 39, 40, 41] {
        let mut corrupt = data.clone();
        corrupt[byte] ^= 0x80;
        let r = salted_password_decrypt(&corrupt, &password, &params);
        assert_eq!(r.unwrap_err(), CryptoError::Authentication);
    }
}

#[test]
fn keyed_tamper_every_bit_fails() {
    let key: Vec<u8> = vec![0xA5u8; 32];
    let plaintext: Vec<u8> = b"ok".to_vec();
    let nonce: Vec<u8> = vec![3u8; 24];
    let data = keyed_encrypt_with(&plaintext, &key, &nonce);
    for byte in 0..data.len() {
        for bit in 0..8 {
            let mut corrupt = data.clone();
            corrupt[byte] ^= 1u8 << bit;
            let r = keyed_decrypt(&corrupt, &key);
            assert_eq!(r.unwrap_err(), CryptoError::Authentication);
        }
    }
}

#[test]
fn gcm_wrong_password_fails_closed() {
    let params = quick_params();
    let plaintext: Vec<u8> = b"secret".to_vec();
    let password: Vec<u8> = b"right password".to_vec();
    let data = gcm_password_encrypt(&plaintext, &password, &params).unwrap();
    let wrong: Vec<u8> = b"wrong password".to_vec();
    let r = gcm_password_decrypt(&data, &wrong, &params);
    assert_eq!(r.unwrap_err(), CryptoError::Authentication);
}

#[test]
fn salted_wrong_password_fails_closed() {
    let params = quick_params();
    let plaintext: Vec<u8> = b"secret".to_vec();
    let password: Vec<u8> = b"alpha".to_vec();
    let data = salted_password_encrypt(&plaintext, &password, &params).unwrap();
    let wrong: Vec<u8> = b"beta".to_vec();
    let r = salted_password_decrypt(&data, &wrong, &params);
    assert_eq!(r.unwrap_err(), CryptoError::Authentication);
}

#[test]
fn keyed_wrong_key_fails_closed() {
    let key: Vec<u8> = vec![1u8; 32];
    let plaintext: Vec<u8> = b"secret".to_vec();
    let data = keyed_encrypt(&plaintext, &key);
    let mut wrong = key.clone();
    wrong[31] ^= 0x01;
    let r = keyed_decrypt(&data, &wrong);
    assert_eq!(r.unwrap_err(), CryptoError::Authentication);
}

#[test]
fn gcm_empty_file_layout() {
    let params = quick_params();
    let plaintext: Vec<u8> = Vec::new();
    let password: Vec<u8> = b"pw".to_vec();
    let salt: Vec<u8> = (0u8..16).collect();
    let nonce: Vec<u8> = (100u8..112).collect();
    let data =
        gcm_password_encrypt_with(&plaintext, &password, &salt, &nonce, &params).unwrap();
    // Empty plaintext: the output is exactly magic ‖ salt ‖ nonce ‖ tag.
    assert_eq!(data.len(), 9 + 16 + 12 + 16);
    assert_eq!(&data[0..9], b"SECUREENC");
    assert_eq!(&data[9..25], salt.as_slice());
    assert_eq!(&data[25..37], nonce.as_slice());
    let back = gcm_password_decrypt(&data, &password, &params).unwrap();
    assert_eq!(back.len(), 0);
}

#[test]
fn gcm_password_validation() {
    let params = quick_params();
    let plaintext: Vec<u8> = b"data".to_vec();
    let empty: Vec<u8> = Vec::new();
    let r = gcm_password_encrypt(&plaintext, &empty, &params);
    assert_eq!(r.unwrap_err(), CryptoError::Precondition);
    let oversized: Vec<u8> = vec![b'a'; 1025];
    let r = gcm_password_encrypt(&plaintext, &oversized, &params);
    assert_eq!(r.unwrap_err(), CryptoError::Precondition);
    let longest: Vec<u8> = vec![b'a'; 1024];
    assert!(gcm_password_encrypt(&plaintext, &longest, &params).is_ok());
}

#[test]
fn gcm_bad_params_is_configuration_error() {
    let params = KdfParams { mem_kib: 4096, iterations: 1, parallelism: 1 };
    let plaintext: Vec<u8> = b"data".to_vec();
    let password: Vec<u8> = b"pw".to_vec();
    let r = gcm_password_encrypt(&plaintext, &password, &params);
    assert_eq!(r.unwrap_err(), CryptoError::Configuration);
    let r = gcm_password_decrypt(&vec![0u8; 64], &password, &params);
    assert_eq!(r.unwrap_err(), CryptoError::Format);
}

#[test]
fn gcm_body_shorter_than_tag_is_authentication_error() {
    // A file with a valid header but a body too short to hold a tag parses,
    // then fails authentication — still no oracle beyond "decryption failed".
    let params = quick_params();
    let password: Vec<u8> = b"pw".to_vec();
    let mut data: Vec<u8> = b"SECUREENC".to_vec();
    data.extend(vec![0u8; 28]);
    let r = gcm_password_decrypt(&data, &password, &params);
    assert_eq!(r.unwrap_err(), CryptoError::Authentication);
}

#[test]
fn keyed_empty_file_layout() {
    let key: Vec<u8> = vec![4u8; 32];
    let plaintext: Vec<u8> = Vec::new();
    let nonce: Vec<u8> = vec![8u8; 24];
    let data = keyed_encrypt_with(&plaintext, &key, &nonce);
    // Empty plaintext: the output is exactly nonce ‖ tag.
    assert_eq!(data.len(), 24 + 16);
    assert_eq!(&data[0..24], nonce.as_slice());
    let back = keyed_decrypt(&data, &key).unwrap();
    assert!(back.is_empty());
}

#[test]
fn salted_empty_file_layout() {
    let params = quick_params();
    let password: Vec<u8> = b"pw".to_vec();
    let plaintext: Vec<u8> = Vec::new();
    let salt: Vec<u8> = vec![6u8; 16];
    let nonce: Vec<u8> = vec![7u8; 24];
    let data =
        salted_password_encrypt_with(&plaintext, &password, &salt, &nonce, &params).unwrap();
    // Empty plaintext: the output is exactly salt ‖ nonce ‖ tag.
    assert_eq!(data.len(), 16 + 24 + 16);
    assert_eq!(&data[0..16], salt.as_slice());
    assert_eq!(&data[16..40], nonce.as_slice());
    let back = salted_password_decrypt(&data, &password, &params).unwrap();
    assert!(back.is_empty());
}

#[test]
fn encryption_with_fresh_salt_and_nonce_differs_each_time() {
    // The salt and nonce are drawn fresh per encryption, so two encryptions
    // of the same plaintext under the same password differ.
    let params = quick_params();
    let plaintext: Vec<u8> = b"same input".to_vec();
    let password: Vec<u8> = b"same password".to_vec();
    let a = gcm_password_encrypt(&plaintext, &password, &params).unwrap();
    let b = gcm_password_encrypt(&plaintext, &password, &params).unwrap();
    assert_ne!(a, b);
    assert_ne!(&a[9..37], &b[9..37]);
}
