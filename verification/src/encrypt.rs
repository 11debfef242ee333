//! Sealing a secret for storage and opening it again.
//!
//! A secret is encrypted with AES-256-GCM under a 32-byte key and a fresh
//! 12-byte nonce. What is stored is text: the ciphertext and the nonce,
//! each in base64, with a colon between them. The key itself is kept as
//! base64 text as well.
//!
//! The cipher and the base64 coding are the work of the `aes-gcm` and
//! `base64` crates. This module calls them and proves what it builds from
//! their results; what it takes on trust about them is said at each call.

use crate::text::{lemma_split_concat, lemma_split_without_separator, split, split_fields};
use aes_gcm::aead::{Aead, AeadCore, Error, KeyInit, OsRng};
use aes_gcm::{Aes256Gcm, Key, Nonce};
use base64::engine::general_purpose::STANDARD;
use base64::read::DecoderReader;
use base64::write::EncoderWriter;
use std::io::{Read, Write};
use vstd::prelude::*;
use vstd::string::StringExecFns;
use vstd::utf8::{decode_utf8, encode_utf8, valid_utf8};

verus! {

/// The length of a key, in bytes.
pub const KEY_LEN: usize = 32;

/// The length of a nonce, in bytes.
pub const NONCE_LEN: usize = 12;

/// The longest plaintext that AES-GCM takes, in bytes.
pub const PLAINTEXT_MAX: u64 = 0x10_0000_0000;

/// The length of the authentication tag that ends a ciphertext, in bytes.
pub const TAG_LEN: usize = 16;

/// Why a secret could not be sealed or opened.
#[derive(Debug, Clone, Copy, PartialEq, Eq)]
pub enum CipherError {
    /// The key is not 32 bytes long.
    InvalidKey,
    /// The nonce is not 12 bytes long.
    InvalidNonce,
    /// The stored text is not two base64 parts with a colon between them.
    Malformed,
    /// The cipher refused: the plaintext is too long to seal, or the
    /// ciphertext was not sealed under this key and nonce.
    Aead,
    /// The opened bytes are not UTF-8 text.
    NotText,
}

/// The error of the `aead` traits. It says that sealing or opening failed
/// and nothing more.
#[verifier::external_type_specification]
#[verifier::external_body]
pub struct ExAeadError(Error);

/// The standard base64 text of `bytes`, padded, as [`EncoderWriter`]
/// writes it with the `STANDARD` engine.
pub uninterp spec fn base64_text(bytes: Seq<u8>) -> Seq<char>;

/// The bytes that `text` is the standard base64 coding of, as
/// [`DecoderReader`] reads them with the `STANDARD` engine; nothing where
/// it reports an error.
pub uninterp spec fn base64_bytes(text: Seq<char>) -> Option<Seq<u8>>;

/// The ciphertext, authentication tag at the end, that
/// `Aes256Gcm::encrypt` gives for `plaintext` under `key` and `nonce`
/// without associated data; nothing where it reports an error.
pub uninterp spec fn aes_gcm_sealed(key: Seq<u8>, nonce: Seq<u8>, plaintext: Seq<u8>) -> Option<
    Seq<u8>,
>;

/// The plaintext that `Aes256Gcm::decrypt` gives for `ciphertext` under
/// `key` and `nonce` without associated data; nothing where it reports an
/// error.
pub uninterp spec fn aes_gcm_opened(key: Seq<u8>, nonce: Seq<u8>, ciphertext: Seq<u8>) -> Option<
    Seq<u8>,
>;

/// Writes `data` through a base64 [`EncoderWriter`] with the `STANDARD`
/// engine and returns the text.
///
/// Not proved: that the text is a function of the bytes, named
/// [`base64_text`]; that a [`DecoderReader`] with the same engine reads
/// the bytes back from it; and that it holds no colon, the standard
/// alphabet being letters, digits, `+`, `/` and `=`.
#[verifier::external_body]
fn encode(data: &[u8]) -> (text: String)
    ensures
        text@ == base64_text(data@),
        base64_bytes(text@) == Some(data@),
        !text@.contains(':'),
{
    let mut encoder = EncoderWriter::new(Vec::new(), &STANDARD);
    encoder.write_all(data).unwrap();
    let coded = encoder.finish().unwrap();
    String::from_utf8(coded).unwrap()
}

/// Reads `text` to its end through a base64 [`DecoderReader`] with the
/// `STANDARD` engine.
///
/// Not proved: that what is read, or that reading fails, is a function of
/// the text, named [`base64_bytes`].
#[verifier::external_body]
fn decode(text: &str) -> (bytes: Option<Vec<u8>>)
    ensures
        match bytes {
            Some(bytes) => base64_bytes(text@) == Some(bytes@),
            None => base64_bytes(text@) is None,
        },
{
    let mut decoder = DecoderReader::new(text.as_bytes(), &STANDARD);
    let mut decoded = Vec::new();
    match decoder.read_to_end(&mut decoded) {
        Ok(_) => Some(decoded),
        Err(_) => None,
    }
}

/// Calls `Aes256Gcm::encrypt` on `plaintext` with no associated data.
///
/// Not proved: that the ciphertext is a function of key, nonce and
/// plaintext, named [`aes_gcm_sealed`]; that it is the plaintext's length
/// and 16 bytes of tag long; that the call fails exactly for a plaintext
/// of more than 2^36 bytes; and that `Aes256Gcm::decrypt` under the same
/// key and nonce gives the plaintext back. The key and the nonce
/// must have their lengths, or the conversion from a slice panics.
#[verifier::external_body]
fn seal(key: &[u8], nonce: &[u8], plaintext: &[u8]) -> (sealed: Result<Vec<u8>, Error>)
    requires
        key@.len() == KEY_LEN,
        nonce@.len() == NONCE_LEN,
    ensures
        match sealed {
            Ok(sealed) => aes_gcm_sealed(key@, nonce@, plaintext@) == Some(sealed@)
                && sealed@.len() == plaintext@.len() + TAG_LEN && aes_gcm_opened(
                key@,
                nonce@,
                sealed@,
            ) == Some(plaintext@),
            Err(_) => aes_gcm_sealed(key@, nonce@, plaintext@) is None,
        },
        sealed is Ok <==> plaintext@.len() <= PLAINTEXT_MAX,
{
    let cipher = Aes256Gcm::new(Key::<Aes256Gcm>::from_slice(key));
    cipher.encrypt(Nonce::from_slice(nonce), plaintext)
}

/// Calls `Aes256Gcm::decrypt` on `ciphertext` with no associated data.
///
/// Not proved: that the plaintext, or that the call fails, is a function
/// of key, nonce and ciphertext, named [`aes_gcm_opened`]. The key and the
/// nonce must have their lengths, or the conversion from a slice panics.
#[verifier::external_body]
fn open(key: &[u8], nonce: &[u8], ciphertext: &[u8]) -> (opened: Result<Vec<u8>, Error>)
    requires
        key@.len() == KEY_LEN,
        nonce@.len() == NONCE_LEN,
    ensures
        match opened {
            Ok(opened) => aes_gcm_opened(key@, nonce@, ciphertext@) == Some(opened@),
            Err(_) => aes_gcm_opened(key@, nonce@, ciphertext@) is None,
        },
{
    let cipher = Aes256Gcm::new(Key::<Aes256Gcm>::from_slice(key));
    cipher.decrypt(Nonce::from_slice(nonce), ciphertext)
}

/// Draws a nonce from the operating system's random source with
/// `Aes256Gcm::generate_nonce`.
///
/// Not proved: that the nonce is 12 bytes long. Nothing else is claimed of
/// it: two calls may, and should, differ.
#[verifier::external_body]
fn generate_nonce() -> (nonce: Vec<u8>)
    ensures
        nonce@.len() == NONCE_LEN,
{
    Aes256Gcm::generate_nonce(&mut OsRng).to_vec()
}

/// Draws a key from the operating system's random source with
/// `Aes256Gcm::generate_key`.
///
/// Not proved: that the key is 32 bytes long. Nothing else is claimed of
/// it.
#[verifier::external_body]
fn generate_key() -> (key: Vec<u8>)
    ensures
        key@.len() == KEY_LEN,
{
    Aes256Gcm::generate_key(OsRng).to_vec()
}

/// Calls [`String::from_utf8`].
///
/// Not proved: that it succeeds exactly on valid UTF-8 and then gives the
/// text that the bytes encode.
#[verifier::external_body]
fn text_from_utf8(bytes: Vec<u8>) -> (text: Option<String>)
    ensures
        match text {
            Some(text) => valid_utf8(bytes@) && text@ == decode_utf8(bytes@),
            None => !valid_utf8(bytes@),
        },
{
    String::from_utf8(bytes).ok()
}

/// The key that the text `text` stands for: its base64 decoding, if that
/// is exactly 32 bytes.
pub open spec fn key_of_text(text: Seq<char>) -> Option<Seq<u8>> {
    match base64_bytes(text) {
        Some(key) => if key.len() == KEY_LEN {
            Some(key)
        } else {
            None
        },
        None => None,
    }
}

/// The stored form of `password` sealed under `key` with `nonce`: the
/// base64 of the ciphertext, a colon, the base64 of the nonce.
pub open spec fn sealed_text(key: Seq<u8>, nonce: Seq<u8>, password: Seq<char>) -> Result<
    Seq<char>,
    CipherError,
> {
    if key.len() != KEY_LEN {
        Err(CipherError::InvalidKey)
    } else if nonce.len() != NONCE_LEN {
        Err(CipherError::InvalidNonce)
    } else {
        match aes_gcm_sealed(key, nonce, encode_utf8(password)) {
            None => Err(CipherError::Aead),
            Some(sealed) => Ok(base64_text(sealed).push(':') + base64_text(nonce)),
        }
    }
}

/// The secret that the stored text `data` holds under `key`.
///
/// `data` is cut at its colons; the first part is the ciphertext and the
/// second the nonce, both in base64; further parts are ignored.
pub open spec fn opened_text(key: Seq<u8>, data: Seq<char>) -> Result<Seq<char>, CipherError> {
    let parts = split(data, ':');
    if key.len() != KEY_LEN {
        Err(CipherError::InvalidKey)
    } else if parts.len() < 2 {
        Err(CipherError::Malformed)
    } else {
        match (base64_bytes(parts[0]), base64_bytes(parts[1])) {
            (Some(sealed), Some(nonce)) => {
                if nonce.len() != NONCE_LEN {
                    Err(CipherError::InvalidNonce)
                } else {
                    match aes_gcm_opened(key, nonce, sealed) {
                        None => Err(CipherError::Aead),
                        Some(plain) => if valid_utf8(plain) {
                            Ok(decode_utf8(plain))
                        } else {
                            Err(CipherError::NotText)
                        },
                    }
                }
            },
            _ => Err(CipherError::Malformed),
        }
    }
}

/// Whether `result` is the exec-level counterpart of `expected`.
pub open spec fn text_result_as(
    result: Result<String, CipherError>,
    expected: Result<Seq<char>, CipherError>,
) -> bool {
    match result {
        Ok(text) => expected == Ok::<Seq<char>, CipherError>(text@),
        Err(error) => expected == Err::<Seq<char>, CipherError>(error),
    }
}

/// The base64 text under which `key` is kept.
pub fn key_to_text(key: &[u8]) -> (text: String)
    ensures
        text@ == base64_text(key@),
        key@.len() == KEY_LEN ==> key_of_text(text@) == Some(key@),
{
    encode(key)
}

/// Reads a key from the base64 text under which it is kept. Text that is
/// not base64, or not of 32 bytes, is no key.
pub fn get_key(text: &str) -> (key: Option<Vec<u8>>)
    ensures
        match key {
            Some(key) => key_of_text(text@) == Some(key@),
            None => key_of_text(text@) is None,
        },
{
    match decode(text) {
        Some(key) => if key.len() == KEY_LEN {
            Some(key)
        } else {
            None
        },
        None => None,
    }
}

/// Makes a new random key and returns it as base64 text, from which
/// [`get_key`] reads it back.
pub fn new_key_text() -> (text: String)
    ensures
        key_of_text(text@) is Some,
{
    let key: Vec<u8> = generate_key();
    key_to_text(key.as_slice())
}

/// The settings file for a vault whose key has the text `key_text`: the
/// key, and the place of the store.
pub open spec fn settings_text(key_text: Seq<char>) -> Seq<char> {
    "KEY="@ + key_text
        + "\nDATABASE_URL=file:./you_should_not_pass/you_should_not_pass.db"@
}

/// Writes the settings file for a vault with the key `key_text`.
pub fn key_file_text(key_text: &str) -> (settings: String)
    ensures
        settings@ == settings_text(key_text@),
{
    let mut settings: String = String::from_str("KEY=");
    settings.append(key_text);
    settings.append("\nDATABASE_URL=file:./you_should_not_pass/you_should_not_pass.db");
    settings
}

/// Seals `password` under `key` with the nonce `nonce`.
///
/// Fails on a key or nonce of the wrong length and on a password of more
/// than 2^36 bytes, and on nothing else. What it returns holds exactly one
/// colon, with the base64 of a ciphertext 16 bytes longer than the
/// password before it, and opens again under the same key.
pub fn encrypt_with_nonce(key: &[u8], nonce: &[u8], password: &str) -> (result: Result<
    String,
    CipherError,
>)
    ensures
        text_result_as(result, sealed_text(key@, nonce@, password@)),
        result is Ok <==> key@.len() == KEY_LEN && nonce@.len() == NONCE_LEN && encode_utf8(
            password@,
        ).len() <= PLAINTEXT_MAX,
        result matches Ok(text) ==> opened_text(key@, text@) == Ok::<Seq<char>, CipherError>(
            password@,
        ),
        result matches Ok(text) ==> split(text@, ':').len() == 2,
        result is Ok ==> (aes_gcm_sealed(key@, nonce@, encode_utf8(password@)) matches Some(
            sealed,
        ) && sealed.len() == encode_utf8(password@).len() + TAG_LEN),
{
    if key.len() != KEY_LEN {
        return Err(CipherError::InvalidKey);
    }
    if nonce.len() != NONCE_LEN {
        return Err(CipherError::InvalidNonce);
    }
    match seal(key, nonce, password.as_bytes()) {
        Err(_) => Err(CipherError::Aead),
        Ok(sealed) => {
            let mut text: String = encode(sealed.as_slice());
            let coded_nonce: String = encode(nonce);
            let ghost left = text@;
            let ghost right = coded_nonce@;
            proof {
                reveal_strlit(":");
            }
            text.append(":");
            text.append(coded_nonce.as_str());
            proof {
                assert(":"@ =~= seq![':']);
                assert(text@ =~= left.push(':') + right);
                lemma_split_concat(left, right, ':');
                lemma_split_without_separator(left, ':');
                lemma_split_without_separator(right, ':');
                assert(split(text@, ':') =~= seq![left, right]);
                vstd::utf8::encode_utf8_valid_utf8(password@);
                vstd::utf8::encode_utf8_decode_utf8(password@);
            }
            Ok(text)
        },
    }
}

/// Seals `password` under `key` with a fresh random nonce.
///
/// Fails on a key of the wrong length and on a password of more than 2^36
/// bytes, and on nothing else. Whatever nonce was drawn, what it returns is
/// the sealing of `password` with that nonce, holds exactly one colon and
/// opens again under `key`.
pub fn encrypt(key: &[u8], password: &str) -> (result: Result<String, CipherError>)
    ensures
        result is Ok <==> key@.len() == KEY_LEN && encode_utf8(password@).len() <= PLAINTEXT_MAX,
        key@.len() != KEY_LEN ==> result == Err::<String, CipherError>(CipherError::InvalidKey),
        key@.len() == KEY_LEN && result is Err ==> result == Err::<String, CipherError>(
            CipherError::Aead,
        ),
        result matches Ok(text) ==> split(text@, ':').len() == 2,
        result matches Ok(text) ==> opened_text(key@, text@) == Ok::<Seq<char>, CipherError>(
            password@,
        ) && exists|nonce: Seq<u8>|
            nonce.len() == NONCE_LEN && #[trigger] sealed_text(key@, nonce, password@) == Ok::<
                Seq<char>,
                CipherError,
            >(text@),
{
    let nonce: Vec<u8> = generate_nonce();
    encrypt_with_nonce(key, nonce.as_slice(), password)
}

/// Opens the stored text `data` under `key` and returns the secret.
pub fn decrypt(key: &[u8], data: &str) -> (result: Result<String, CipherError>)
    ensures
        text_result_as(result, opened_text(key@, data@)),
{
    if key.len() != KEY_LEN {
        return Err(CipherError::InvalidKey);
    }
    let parts: Vec<&str> = split_fields(data, ':');
    if parts.len() < 2 {
        return Err(CipherError::Malformed);
    }
    let sealed: Vec<u8> = match decode(parts[0]) {
        Some(sealed) => sealed,
        None => { return Err(CipherError::Malformed); },
    };
    let nonce: Vec<u8> = match decode(parts[1]) {
        Some(nonce) => nonce,
        None => { return Err(CipherError::Malformed); },
    };
    if nonce.len() != NONCE_LEN {
        return Err(CipherError::InvalidNonce);
    }
    match open(key, nonce.as_slice(), sealed.as_slice()) {
        Err(_) => Err(CipherError::Aead),
        Ok(plain) => match text_from_utf8(plain) {
            Some(text) => Ok(text),
            None => Err(CipherError::NotText),
        },
    }
}

} // verus!
