use aes_gcm::aead::{Aead, KeyInit, OsRng};
use aes_gcm::{Aes256Gcm, Key, Nonce};
use base64::engine::general_purpose::STANDARD;
use base64::Engine;
use you_should_not_pass::encrypt::{
    decrypt, encrypt, encrypt_with_nonce, get_key, key_file_text, key_to_text, new_key_text,
    CipherError,
};

#[test]
fn test_generate_key() {
    let key = Aes256Gcm::generate_key(OsRng);
    let key = key.as_slice();

    let text = key_to_text(key);
    println!("{}", text);

    let decoded = get_key(&text).unwrap();
    assert_eq!(key, decoded.as_slice());
}

#[test]
fn test_encrypt_and_decrypt() {
    let key = get_key(&new_key_text()).unwrap();
    let password = "password".to_string();
    let encrypted = encrypt(&key, &password).unwrap();
    let decrypted = decrypt(&key, &encrypted).unwrap();

    assert_eq!(password, decrypted);
}

#[test]
fn key_text_is_standard_base64() {
    let key: Vec<u8> = (0u8..32).collect();
    assert_eq!(key_to_text(&key), "AAECAwQFBgcICQoLDA0ODxAREhMUFRYXGBkaGxwdHh8=");
    assert_eq!(
        get_key("AAECAwQFBgcICQoLDA0ODxAREhMUFRYXGBkaGxwdHh8="),
        Some(key)
    );
    assert_eq!(key_to_text(&[]), "");
    assert_eq!(key_to_text(b"a"), "YQ==");
}

#[test]
fn what_is_no_key_is_refused() {
    assert_eq!(get_key(""), None);
    assert_eq!(get_key("YQ=="), None);
    assert_eq!(get_key("not base64!"), None);
    assert_eq!(get_key("AAECAwQFBgcICQoLDA0ODxAREhMUFRYXGBkaGxwdHh8"), None);
    let long = key_to_text(&[7u8; 33]);
    assert_eq!(get_key(&long), None);
}

#[test]
fn new_keys_read_back_and_differ() {
    let first = new_key_text();
    let second = new_key_text();
    assert_eq!(get_key(&first).unwrap().len(), 32);
    assert_eq!(get_key(&second).unwrap().len(), 32);
    assert_ne!(first, second);
}

#[test]
fn sealing_with_a_given_nonce_is_exact() {
    let key = [0u8; 32];
    let nonce = [0u8; 12];
    assert_eq!(
        encrypt_with_nonce(&key, &nonce, ""),
        Ok("Uw+K+8dFNrmpY7TxxMtziw==:AAAAAAAAAAAAAAAA".to_string())
    );
    let zeros = "\0".repeat(16);
    assert_eq!(
        encrypt_with_nonce(&key, &nonce, &zeros),
        Ok("zqdAPU1ga24HTsXTuvOdGNDRyKeZmWvwJluYtdSKuRk=:AAAAAAAAAAAAAAAA".to_string())
    );
    assert_eq!(
        decrypt(&key, "zqdAPU1ga24HTsXTuvOdGNDRyKeZmWvwJluYtdSKuRk=:AAAAAAAAAAAAAAAA"),
        Ok(zeros)
    );
    assert_eq!(
        decrypt(&key, "Uw+K+8dFNrmpY7TxxMtziw==:AAAAAAAAAAAAAAAA"),
        Ok(String::new())
    );
}

#[test]
fn sealed_text_opens_again() {
    let key = [9u8; 32];
    for secret in ["", "pw", "pässwörd with spaces", "a:b:c", "tab\tand\nnewline"] {
        let sealed = encrypt(&key, secret).unwrap();
        assert_eq!(sealed.split(':').count(), 2);
        assert_ne!(sealed, secret);
        assert_eq!(decrypt(&key, &sealed), Ok(secret.to_string()));
    }
}

#[test]
fn fresh_nonces_make_sealings_differ() {
    let key = [1u8; 32];
    let first = encrypt(&key, "same").unwrap();
    let second = encrypt(&key, "same").unwrap();
    assert_ne!(first, second);
}

#[test]
fn wrong_lengths_are_refused() {
    assert_eq!(encrypt(&[0u8; 31], "pw"), Err(CipherError::InvalidKey));
    assert_eq!(encrypt(&[], "pw"), Err(CipherError::InvalidKey));
    assert_eq!(
        encrypt_with_nonce(&[0u8; 33], &[0u8; 12], "pw"),
        Err(CipherError::InvalidKey)
    );
    assert_eq!(
        encrypt_with_nonce(&[0u8; 32], &[0u8; 11], "pw"),
        Err(CipherError::InvalidNonce)
    );
    assert_eq!(
        decrypt(&[0u8; 16], "Uw+K+8dFNrmpY7TxxMtziw==:AAAAAAAAAAAAAAAA"),
        Err(CipherError::InvalidKey)
    );
    assert_eq!(
        decrypt(&[0u8; 32], "Uw+K+8dFNrmpY7TxxMtziw==:AAAAAAAA"),
        Err(CipherError::InvalidNonce)
    );
}

#[test]
fn malformed_stored_text_is_refused() {
    let key = [0u8; 32];
    assert_eq!(decrypt(&key, ""), Err(CipherError::Malformed));
    assert_eq!(
        decrypt(&key, "Uw+K+8dFNrmpY7TxxMtziw=="),
        Err(CipherError::Malformed)
    );
    assert_eq!(
        decrypt(&key, "***:AAAAAAAAAAAAAAAA"),
        Err(CipherError::Malformed)
    );
    assert_eq!(
        decrypt(&key, "Uw+K+8dFNrmpY7TxxMtziw==:***"),
        Err(CipherError::Malformed)
    );
}

#[test]
fn tampered_or_foreign_text_is_rejected() {
    let key = [0u8; 32];
    assert_eq!(
        decrypt(&key, "Uw+K+8dFNrmpY7TxxMtzjw==:AAAAAAAAAAAAAAAA"),
        Err(CipherError::Aead)
    );
    assert_eq!(
        decrypt(&[1u8; 32], "Uw+K+8dFNrmpY7TxxMtziw==:AAAAAAAAAAAAAAAA"),
        Err(CipherError::Aead)
    );
    assert_eq!(decrypt(&key, "YQ==:AAAAAAAAAAAAAAAA"), Err(CipherError::Aead));
}

#[test]
fn parts_after_the_nonce_are_ignored() {
    let key = [0u8; 32];
    assert_eq!(
        decrypt(&key, "Uw+K+8dFNrmpY7TxxMtziw==:AAAAAAAAAAAAAAAA:whatever"),
        Ok(String::new())
    );
}

#[test]
fn opened_bytes_that_are_no_text_are_refused() {
    let key = [3u8; 32];
    let nonce = [5u8; 12];
    let cipher = Aes256Gcm::new(Key::<Aes256Gcm>::from_slice(&key));
    let sealed = cipher
        .encrypt(Nonce::from_slice(&nonce), &[0xffu8, 0xfe][..])
        .unwrap();
    let stored = format!("{}:{}", key_to_text(&sealed), key_to_text(&nonce));
    assert_eq!(decrypt(&key, &stored), Err(CipherError::NotText));
}

#[test]
fn settings_file_names_key_and_store() {
    assert_eq!(
        key_file_text("abc="),
        "KEY=abc=\nDATABASE_URL=file:./you_should_not_pass/you_should_not_pass.db"
    );
}

#[test]
fn sealed_text_is_ciphertext_colon_nonce() {
    let key = [4u8; 32];
    let nonce = [6u8; 12];
    for secret in ["", "pw", "a:b", "pässwörd"] {
        let sealed = encrypt_with_nonce(&key, &nonce, secret).unwrap();
        let parts: Vec<&str> = sealed.split(':').collect();
        assert_eq!(parts.len(), 2);
        assert_eq!(STANDARD.decode(parts[0]).unwrap().len(), secret.len() + 16);
        assert_eq!(STANDARD.decode(parts[1]).unwrap(), nonce);
        assert!(secret.is_empty() || !sealed.contains(secret));
    }
}
