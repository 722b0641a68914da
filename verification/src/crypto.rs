//! The literal-protection primitive: authenticated encryption of strings and
//! numbers under a 32-byte key, with a fresh random nonce per call.
//!
//! Encryption itself is done by an outside authenticated-encryption cipher.
//! Its behaviour is captured by the single name [`aes_open`]: what decrypting
//! a ciphertext under a nonce and key yields, a function of those three
//! values alone.  Encrypting promises only that [`aes_open`] gives the
//! plaintext back; decrypting returns exactly [`aes_open`].

use vstd::prelude::*;
use vstd::string::*;
use aes_gcm::KeyInit;
use aes_gcm::aead::Aead;
use crate::strutil::{dec_str, parse_u32_spec, parse_u32, u32_to_string};
use crate::errors::ObfuscatorError;

verus! {

/// The key used when no key of one's own is supplied.
///
/// This is a fixed, publicly visible development key; shipping it to
/// production offers no secrecy.
pub const AES_KEY: [u8; 32] = [48u8, 49u8, 50u8, 51u8, 52u8, 53u8, 54u8, 55u8, 56u8, 57u8, 48u8,
    49u8, 50u8, 51u8, 52u8, 53u8, 54u8, 55u8, 56u8, 57u8, 48u8, 49u8, 50u8, 51u8, 52u8, 53u8,
    54u8, 55u8, 56u8, 57u8, 48u8, 49u8];

/// What decrypting `data` under `nonce` and `key` and decoding the result as
/// UTF-8 yields; nothing when authentication or decoding fails.
pub uninterp spec fn aes_open(data: Seq<u8>, nonce: Seq<u8>, key: Seq<u8>) -> Option<Seq<char>>;

/// Encrypts `input` under `key` with a fresh nonce, returning the ciphertext
/// and the nonce.
///
/// Relies on `aes_gcm::Aes256Gcm` through `aead::Aead::encrypt`: decrypting
/// the returned ciphertext with the returned nonce under the same key
/// authenticates and yields exactly the input, which the `aes_open` clause
/// records, and the ciphertext is the input's UTF-8 bytes with the 16-byte
/// authentication tag appended, which the length clause records.  The nonce
/// comes from `rand`'s thread-local generator, a cryptographically secure
/// source.
#[verifier::external_body]
pub fn encrypt_string(input: &str, key: &[u8; 32]) -> (r: (Vec<u8>, [u8; 12]))
    requires
        input@.len() < 0x1_0000_0000,
    ensures
        aes_open(r.0@, r.1@, key@) == Some(input@),
        r.0@.len() == input.spec_bytes().len() + 16,
{
    let cipher = aes_gcm::Aes256Gcm::new_from_slice(key).unwrap();
    let mut nonce_bytes = [0u8; 12];
    rand::fill(&mut nonce_bytes);
    let nonce: aes_gcm::aead::Nonce<aes_gcm::Aes256Gcm> = nonce_bytes.into();
    let ciphertext = cipher.encrypt(&nonce, input.as_bytes()).unwrap();
    (ciphertext, nonce_bytes)
}

/// Relies on `aes_gcm::Aes256Gcm` through `aead::Aead::decrypt`, followed by
/// UTF-8 decoding: the outcome is a function of ciphertext, nonce and key
/// alone, named `aes_open`.
#[verifier::external_body]
fn aes_open_exec(data: &[u8], nonce: &[u8; 12], key: &[u8; 32]) -> (r: Option<String>)
    ensures
        r is Some <==> aes_open(data@, nonce@, key@) is Some,
        r matches Some(s) ==> aes_open(data@, nonce@, key@) == Some(s@),
{
    let cipher = aes_gcm::Aes256Gcm::new_from_slice(key).unwrap();
    let nonce: aes_gcm::aead::Nonce<aes_gcm::Aes256Gcm> = (*nonce).into();
    match cipher.decrypt(&nonce, data) {
        Ok(plain) => String::from_utf8(plain).ok(),
        Err(_) => None,
    }
}

/// Decrypts `data` under `nonce` and `key`.  The caller must know that
/// authentication succeeds; [`try_decrypt_string`] is the checked form.
pub fn decrypt_string(data: &[u8], nonce: &[u8; 12], key: &[u8; 32]) -> (r: String)
    requires
        aes_open(data@, nonce@, key@) is Some,
    ensures
        Some(r@) == aes_open(data@, nonce@, key@),
{
    aes_open_exec(data, nonce, key).unwrap()
}

/// Decrypts `data` under `nonce` and `key`, reporting an authentication-tag
/// mismatch (or undecodable plaintext) as an error rather than corrupted
/// text.
pub fn try_decrypt_string(data: &[u8], nonce: &[u8; 12], key: &[u8; 32]) -> (r: Result<
    String,
    ObfuscatorError,
>)
    ensures
        r matches Ok(s) ==> aes_open(data@, nonce@, key@) == Some(s@),
        r is Ok <==> aes_open(data@, nonce@, key@) is Some,
        r is Err ==> r == Err::<String, ObfuscatorError>(ObfuscatorError::EncryptionError),
{
    let probe = aes_open_exec(data, nonce, key);
    if probe.is_some() {
        Ok(decrypt_string(data, nonce, key))
    } else {
        Err(ObfuscatorError::EncryptionError)
    }
}

/// Ten to the power `d`.
pub open spec fn pow10(d: nat) -> nat
    decreases d,
{
    if d == 0 {
        1
    } else {
        10 * pow10((d - 1) as nat)
    }
}

proof fn lemma_dec_str_len(n: nat, d: nat)
    requires
        1 <= d,
        n < pow10(d),
    ensures
        dec_str(n).len() <= d,
    decreases n,
{
    if n >= 10 {
        assert(pow10(d) == 10 * pow10((d - 1) as nat));
        if d == 1 {
            assert(pow10(1nat) == 10);
        }
        assert(n / 10 < pow10((d - 1) as nat)) by {
            assert(n < 10 * pow10((d - 1) as nat));
        }
        lemma_dec_str_len(n / 10, (d - 1) as nat);
    }
}

proof fn lemma_u32_dec_str_short(n: u32)
    ensures
        dec_str(n as nat).len() <= 10,
{
    assert(pow10(10nat) == 10_000_000_000) by {
        reveal_with_fuel(pow10, 11);
    }
    lemma_dec_str_len(n as nat, 10);
}

/// Every character of `dec_str(n)` is a digit, and reading them back gives
/// `n`: decimal rendering and parsing are inverses.
pub proof fn lemma_parse_of_dec_str(n: u32)
    ensures
        parse_u32_spec(dec_str(n as nat)) == Some(n),
{
    lemma_dec_str_digits(n as nat);
}

proof fn lemma_dec_str_digits(n: nat)
    ensures
        dec_str(n).len() >= 1,
        crate::strutil::all_digits(dec_str(n)),
        crate::strutil::dec_val(dec_str(n)) == n,
    decreases n,
{
    if n < 10 {
        let s = dec_str(n);
        assert(s == seq![crate::strutil::digit_char(n)]);
        assert(s.drop_last() =~= Seq::<char>::empty());
        assert(crate::strutil::dec_val(Seq::<char>::empty()) == 0);
        assert(crate::strutil::dec_val(s) == crate::strutil::dec_val(s.drop_last()) * 10
            + crate::strutil::digit_val(s.last()));
    } else {
        lemma_dec_str_digits(n / 10);
        let p = dec_str(n / 10);
        let s = dec_str(n);
        assert(s == p.push(crate::strutil::digit_char(n % 10)));
        assert(s.drop_last() =~= p);
        assert(crate::strutil::digit_val(s.last()) == n % 10);
        assert(crate::strutil::dec_val(s) == (n / 10) * 10 + n % 10);
        assert forall|i: int| 0 <= i < s.len() implies crate::strutil::digit_val(
            #[trigger] s[i],
        ) < 10 by {
            if i < p.len() {
                assert(s[i] == p[i]);
            }
        }
    }
}

/// Encrypts the decimal rendering of `input` under `key`.
pub fn encrypt_u32(input: u32, key: &[u8; 32]) -> (r: (Vec<u8>, [u8; 12]))
    ensures
        aes_open(r.0@, r.1@, key@) == Some(dec_str(input as nat)),
{
    proof {
        lemma_u32_dec_str_short(input);
    }
    let s = u32_to_string(input);
    encrypt_string(s.as_str(), key)
}

/// Decrypts a number protected by [`encrypt_u32`].  The caller must know
/// that authentication succeeds and that the plaintext is a decimal number;
/// [`try_decrypt_u32`] is the checked form.
pub fn decrypt_u32(data: &[u8], nonce: &[u8; 12], key: &[u8; 32]) -> (r: u32)
    requires
        aes_open(data@, nonce@, key@) matches Some(s) && parse_u32_spec(s) is Some,
    ensures
        aes_open(data@, nonce@, key@) matches Some(s) && parse_u32_spec(s) == Some(r),
{
    let s = decrypt_string(data, nonce, key);
    parse_u32(s.as_str()).unwrap()
}

/// Decrypts a number protected by [`encrypt_u32`], reporting failure to
/// authenticate or to parse as an error.
pub fn try_decrypt_u32(data: &[u8], nonce: &[u8; 12], key: &[u8; 32]) -> (r: Result<
    u32,
    ObfuscatorError,
>)
    ensures
        r matches Ok(v) ==> aes_open(data@, nonce@, key@) matches Some(s) && parse_u32_spec(s)
            == Some(v),
        r is Ok <==> (aes_open(data@, nonce@, key@) matches Some(s) && parse_u32_spec(s) is Some),
        r is Err ==> r == Err::<u32, ObfuscatorError>(ObfuscatorError::EncryptionError),
{
    let probe = aes_open_exec(data, nonce, key);
    match probe {
        Some(s) => {
            if parse_u32(s.as_str()).is_some() {
                Ok(decrypt_u32(data, nonce, key))
            } else {
                Err(ObfuscatorError::EncryptionError)
            }
        },
        None => Err(ObfuscatorError::EncryptionError),
    }
}

/// Protect-then-reveal, for numbers: any ciphertext and nonce that
/// `encrypt_u32` can return for `n` under a key decrypts and parses back to
/// exactly `n` under that key.
pub proof fn lemma_reveal_protect_u32(data: Seq<u8>, nonce: Seq<u8>, key: Seq<u8>, n: u32)
    requires
        aes_open(data, nonce, key) == Some(dec_str(n as nat)),
    ensures
        aes_open(data, nonce, key) matches Some(s) && parse_u32_spec(s) == Some(n),
{
    lemma_parse_of_dec_str(n);
}

} // verus!
