use rustfuscator::crypto::{
    encrypt_string, decrypt_string, try_decrypt_string, encrypt_u32, decrypt_u32, try_decrypt_u32,
    AES_KEY,
};

fn crete_new_key() -> [u8; 32] {
    let new_key: [u8; 32] = core::array::from_fn(|i| i as u8);
    new_key
}

fn create_string_to_encrypt() -> &'static str {
    "secret data"
}

fn create_number_to_encrypt() -> u32 {
    1234
}

#[test]
fn encrypt_and_decrypt_str() {
    let data_to_encrypt = create_string_to_encrypt();
    let my_new_key: [u8; 32] = crete_new_key();

    let encrypted: (Vec<u8>, [u8; 12]) = encrypt_string(data_to_encrypt, &my_new_key);
    let decrypted = decrypt_string(&encrypted.0, &encrypted.1, &my_new_key);

    assert_eq!(data_to_encrypt, decrypted);
}

#[test]
fn ciphertext_is_plaintext_bytes_plus_tag() {
    let my_new_key: [u8; 32] = crete_new_key();
    for input in ["", "a", "secret data", "caf\u{e9} \u{1f600}"] {
        let encrypted: (Vec<u8>, [u8; 12]) = encrypt_string(input, &my_new_key);
        assert_eq!(encrypted.0.len(), input.len() + 16);
    }
}

#[test]
fn encrypt_and_decrypt_u32() {
    let data_to_encrypt: u32 = create_number_to_encrypt();
    let my_new_key: [u8; 32] = crete_new_key();

    let encrypted: (Vec<u8>, [u8; 12]) = encrypt_u32(data_to_encrypt, &my_new_key);
    let decrypted = decrypt_u32(&encrypted.0, &encrypted.1, &my_new_key);

    assert_eq!(data_to_encrypt, decrypted);
}

#[test]
fn encrypt_and_decrypt_with_global_aes_key() {
    let string_to_encrypt = create_string_to_encrypt();
    let number_to_encrypt: u32 = create_number_to_encrypt();

    let encrypted: (Vec<u8>, [u8; 12]) = encrypt_string(string_to_encrypt, &AES_KEY);
    let decrypted = decrypt_string(&encrypted.0, &encrypted.1, &AES_KEY);
    assert_eq!(string_to_encrypt, decrypted);

    let encrypted: (Vec<u8>, [u8; 12]) = encrypt_u32(number_to_encrypt, &AES_KEY);
    let decrypted = decrypt_u32(&encrypted.0, &encrypted.1, &AES_KEY);
    assert_eq!(number_to_encrypt, decrypted);
}

#[test]
#[should_panic]
fn try_decrypt_with_used_nonce() {
    let data_to_encrypt = create_string_to_encrypt();
    let my_new_key: [u8; 32] = crete_new_key();

    let encrypted_1: (Vec<u8>, [u8; 12]) = encrypt_string(data_to_encrypt, &my_new_key);
    let encrypted_2: (Vec<u8>, [u8; 12]) = encrypt_string(data_to_encrypt, &my_new_key);
    let decrypted = decrypt_string(&encrypted_2.0, &encrypted_1.1, &my_new_key);

    assert_eq!(data_to_encrypt, decrypted);
}

#[test]
#[should_panic]
fn decrypt_with_wrong_key_should_panic() {
    let key_ok: [u8; 32] = core::array::from_fn(|i| i as u8);
    let key_bad: [u8; 32] = [0u8; 32];
    let (ct, nonce) = encrypt_string("secret", &key_ok);
    let _ = decrypt_string(&ct, &nonce, &key_bad);
}

#[test]
fn encrypt_and_decrypt_unicode() {
    let key: [u8; 32] = core::array::from_fn(|i| i as u8);
    let s = "café Καλημέρα — 数据";
    let (ct, nonce) = encrypt_string(s, &key);
    assert_eq!(s, decrypt_string(&ct, &nonce, &key));
}

#[test]
fn try_decrypt_reports_tag_mismatch() {
    let key_ok: [u8; 32] = core::array::from_fn(|i| i as u8);
    let key_bad: [u8; 32] = [7u8; 32];
    let (ct, nonce) = encrypt_string("guarded", &key_ok);
    let good = try_decrypt_string(&ct, &nonce, &key_ok);
    assert_eq!(good.unwrap(), "guarded");
    let bad = try_decrypt_string(&ct, &nonce, &key_bad);
    assert!(bad.is_err());
}

#[test]
fn try_decrypt_u32_rejects_non_numeric_plaintext() {
    let key: [u8; 32] = core::array::from_fn(|i| i as u8);
    let (ct, nonce) = encrypt_string("not a number", &key);
    assert!(try_decrypt_u32(&ct, &nonce, &key).is_err());
    let (ct2, nonce2) = encrypt_u32(77, &key);
    assert_eq!(try_decrypt_u32(&ct2, &nonce2, &key).unwrap(), 77);
}
