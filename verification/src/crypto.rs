//! AES-256-GCM sealing of the config file.
//!
//! The encryption key is a random 32-byte value kept beside the encrypted
//! file.  Every write uses a fresh random 96-bit nonce, stored in front of
//! the ciphertext.  This protects against casual snooping, not against
//! someone who can read both files.

use vstd::prelude::*;

use crate::error::{error_text, AppError, AppResult};

verus! {

/// Key length in bytes.
pub const KEY_LEN: usize = 32;

/// Nonce length in bytes.
pub const NONCE_LEN: usize = 12;

/// Largest plaintext AES-GCM accepts: 2^36 bytes.
pub const PLAINTEXT_MAX: u64 = 0x10_0000_0000;

#[verifier::external_type_specification]
#[verifier::external_body]
pub struct ExAeadError(aes_gcm::Error);

/// The AES-256-GCM ciphertext (with its 16-byte tag) of `plaintext` under
/// `key` and `nonce`, with no associated data.
pub uninterp spec fn aes256gcm_seal(key: Seq<u8>, nonce: Seq<u8>, plaintext: Seq<u8>) -> Seq<u8>;

/// The plaintext that AES-256-GCM authenticates and recovers from
/// `ciphertext` under `key` and `nonce`, if any.
pub uninterp spec fn aes256gcm_open(key: Seq<u8>, nonce: Seq<u8>, ciphertext: Seq<u8>) -> Option<
    Seq<u8>,
>;

/// Calls `Aes256Gcm::new(key)` and `Aead::encrypt(nonce, plaintext)`.
/// The ciphertext is named; the call fails exactly for plaintexts longer
/// than 2^36 bytes, the ciphertext is 16 bytes (the tag) longer than the
/// plaintext, and decrypting it with the same key and nonce gives the
/// plaintext back.
#[verifier::external_body]
fn aes256gcm_encrypt(key: &[u8], nonce: &[u8], plaintext: &[u8]) -> (r: Result<
    Vec<u8>,
    aes_gcm::Error,
>)
    requires
        key@.len() == KEY_LEN,
        nonce@.len() == NONCE_LEN,
    ensures
        r is Ok <==> plaintext@.len() <= PLAINTEXT_MAX,
        r matches Ok(c) ==> c@ == aes256gcm_seal(key@, nonce@, plaintext@),
        r matches Ok(c) ==> c@.len() == plaintext@.len() + 16,
        r matches Ok(c) ==> aes256gcm_open(key@, nonce@, c@) == Some(plaintext@),
{
    let cipher = <aes_gcm::Aes256Gcm as aes_gcm::aead::KeyInit>::new(
        aes_gcm::aead::generic_array::GenericArray::from_slice(key),
    );
    aes_gcm::aead::Aead::encrypt(&cipher, aes_gcm::Nonce::from_slice(nonce), plaintext)
}

/// Calls `Aes256Gcm::new(key)` and `Aead::decrypt(nonce, ciphertext)`; the
/// result is the named opening of the ciphertext.
#[verifier::external_body]
fn aes256gcm_decrypt(key: &[u8], nonce: &[u8], ciphertext: &[u8]) -> (r: Result<
    Vec<u8>,
    aes_gcm::Error,
>)
    requires
        key@.len() == KEY_LEN,
        nonce@.len() == NONCE_LEN,
    ensures
        match r {
            Ok(p) => aes256gcm_open(key@, nonce@, ciphertext@) == Some(p@),
            Err(_) => aes256gcm_open(key@, nonce@, ciphertext@) is None,
        },
{
    let cipher = <aes_gcm::Aes256Gcm as aes_gcm::aead::KeyInit>::new(
        aes_gcm::aead::generic_array::GenericArray::from_slice(key),
    );
    aes_gcm::aead::Aead::decrypt(&cipher, aes_gcm::Nonce::from_slice(nonce), ciphertext)
}

/// Formats an `aes_gcm::Error` with `{:?}`.  The error is a unit struct
/// with a derived `Debug`, which writes its name, `Error`.
#[verifier::external_body]
fn aead_error_text(e: &aes_gcm::Error) -> (r: String)
    ensures
        r@ == "Error"@,
{
    format!("{:?}", e)
}

/// Calls `rand::thread_rng().fill_bytes` on a buffer of `n` bytes: `n`
/// random bytes; nothing is stated of their values.
#[verifier::external_body]
fn random_bytes(n: usize) -> (r: Vec<u8>)
    ensures
        r@.len() == n,
{
    let mut v = vec![0u8; n];
    rand::RngCore::fill_bytes(&mut rand::thread_rng(), &mut v);
    v
}

/// The bytes `s[from..to]`.
pub fn byte_range(s: &[u8], from: usize, to: usize) -> (r: Vec<u8>)
    requires
        from <= to <= s@.len(),
    ensures
        r@ == s@.subrange(from as int, to as int),
{
    let mut r: Vec<u8> = Vec::new();
    let mut i = from;
    while i < to
        invariant
            from <= i <= to <= s@.len(),
            r@ == s@.subrange(from as int, i as int),
        decreases to - i,
    {
        r.push(s[i]);
        i = i + 1;
        assert(r@ == s@.subrange(from as int, i as int));
    }
    r
}

/// The key a key file holds: its bytes when there are exactly 32.
pub open spec fn key_in_file(bytes: Seq<u8>) -> Option<Seq<u8>> {
    if bytes.len() == KEY_LEN {
        Some(bytes)
    } else {
        None
    }
}

/// A key written to the key file is read back as the same key, so a key
/// once created is used again on every later start.
pub proof fn law_key_file_reads_back(k: Seq<u8>)
    requires
        k.len() == KEY_LEN,
    ensures
        key_in_file(k) == Some(k),
{
}

/// The key held in a key file: its bytes when there are exactly 32.
pub fn key_from_bytes(bytes: &[u8]) -> (r: Option<Vec<u8>>)
    ensures
        r is Some <==> bytes@.len() == KEY_LEN,
        r matches Some(k) ==> k@ == bytes@,
        match r {
            Some(k) => key_in_file(bytes@) == Some(k@),
            None => key_in_file(bytes@) is None,
        },
{
    if bytes.len() == KEY_LEN {
        let k = byte_range(bytes, 0, bytes.len());
        assert(bytes@.subrange(0, bytes@.len() as int) == bytes@);
        Some(k)
    } else {
        None
    }
}

/// A fresh random key.
pub fn generate_key() -> (k: Vec<u8>)
    ensures
        k@.len() == KEY_LEN,
{
    random_bytes(KEY_LEN)
}

/// What the contents of a config file decrypt to under `key`: the file is a
/// 12-byte nonce followed by the ciphertext.
pub open spec fn opened(key: Seq<u8>, data: Seq<u8>) -> Option<Seq<u8>> {
    if data.len() < NONCE_LEN {
        None
    } else {
        aes256gcm_open(key, data.take(NONCE_LEN as int), data.skip(NONCE_LEN as int))
    }
}

/// Seals `plaintext` under `key` with the given nonce: the nonce followed
/// by the ciphertext.
pub fn seal_with_nonce(key: &[u8], nonce: &[u8], plaintext: &[u8]) -> (r: AppResult<Vec<u8>>)
    requires
        key@.len() == KEY_LEN,
        nonce@.len() == NONCE_LEN,
    ensures
        r is Ok <==> plaintext@.len() <= PLAINTEXT_MAX,
        r matches Ok(out) ==> out@ == nonce@ + aes256gcm_seal(key@, nonce@, plaintext@),
        r matches Ok(out) ==> out@.len() == NONCE_LEN + plaintext@.len() + 16,
        r matches Ok(out) ==> opened(key@, out@) == Some(plaintext@),
        r matches Err(e) ==> error_text(e) == "Crypto error: Encryption failed: Error"@,
{
    match aes256gcm_encrypt(key, nonce, plaintext) {
        Ok(ct) => {
            let ghost c = ct@;
            let mut out = byte_range(nonce, 0, nonce.len());
            let mut ct = ct;
            out.append(&mut ct);
            proof {
                assert(nonce@.subrange(0, nonce@.len() as int) == nonce@);
                assert(out@.take(NONCE_LEN as int) == nonce@);
                assert(out@.skip(NONCE_LEN as int) == c);
            }
            Ok(out)
        },
        Err(e) => {
            let mut msg = String::from_str("Encryption failed: ");
            msg.append(aead_error_text(&e).as_str());
            proof {
                reveal_strlit("Crypto error: ");
                reveal_strlit("Encryption failed: ");
                reveal_strlit("Error");
                reveal_strlit("Crypto error: Encryption failed: Error");
            }
            Err(AppError::Crypto(msg))
        },
    }
}

/// Seals `plaintext` under `key` with a fresh random nonce.
pub fn seal(key: &[u8], plaintext: &[u8]) -> (r: AppResult<Vec<u8>>)
    requires
        key@.len() == KEY_LEN,
    ensures
        r is Ok <==> plaintext@.len() <= PLAINTEXT_MAX,
        r matches Ok(out) ==> out@.len() == NONCE_LEN + plaintext@.len() + 16,
        r matches Ok(out) ==> out@.len() >= NONCE_LEN && out@.skip(NONCE_LEN as int)
            == aes256gcm_seal(key@, out@.take(NONCE_LEN as int), plaintext@),
        r matches Ok(out) ==> opened(key@, out@) == Some(plaintext@),
        r matches Err(e) ==> error_text(e) == "Crypto error: Encryption failed: Error"@,
{
    let nonce = random_bytes(NONCE_LEN);
    let r = seal_with_nonce(key, &nonce, plaintext);
    proof {
        if r is Ok {
            let out = r->Ok_0;
            assert(out@.take(NONCE_LEN as int) == nonce@);
            assert(out@.skip(NONCE_LEN as int) == aes256gcm_seal(key@, nonce@, plaintext@));
        }
    }
    r
}

/// Opens the contents of a config file sealed under `key`.
pub fn open(key: &[u8], data: &[u8]) -> (r: AppResult<Vec<u8>>)
    requires
        key@.len() == KEY_LEN,
    ensures
        r is Ok <==> opened(key@, data@) is Some,
        r matches Ok(p) ==> opened(key@, data@) == Some(p@),
        data@.len() < NONCE_LEN ==> (r matches Err(e) && error_text(e)
            == "Crypto error: Config file too short (truncated)"@),
        data@.len() >= NONCE_LEN && r is Err ==> (r matches Err(e) && error_text(e)
            == "Crypto error: Decryption failed: Error"@),
{
    if data.len() < NONCE_LEN {
        proof {
            reveal_strlit("Crypto error: ");
            reveal_strlit("Config file too short (truncated)");
            reveal_strlit("Crypto error: Config file too short (truncated)");
        }
        return Err(AppError::Crypto(String::from_str("Config file too short (truncated)")));
    }
    let nonce = byte_range(data, 0, NONCE_LEN);
    let ciphertext = byte_range(data, NONCE_LEN, data.len());
    assert(nonce@ == data@.take(NONCE_LEN as int));
    assert(ciphertext@ == data@.skip(NONCE_LEN as int));
    match aes256gcm_decrypt(key, &nonce, &ciphertext) {
        Ok(p) => Ok(p),
        Err(e) => {
            let mut msg = String::from_str("Decryption failed: ");
            msg.append(aead_error_text(&e).as_str());
            proof {
                reveal_strlit("Crypto error: ");
                reveal_strlit("Decryption failed: ");
                reveal_strlit("Error");
                reveal_strlit("Crypto error: Decryption failed: Error");
            }
            Err(AppError::Crypto(msg))
        },
    }
}

} // verus!
