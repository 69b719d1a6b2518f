//! The symmetric-cipher collaborator: AES-256-CBC with PKCS padding under a
//! 32-byte key.
//!
//! This scheme uses a fixed all-zero initialization vector, so encryption
//! is deterministic and equal plaintexts encrypt equally under one key: a
//! known confidentiality weakness, kept so that ciphertexts remain
//! compatible with material already encrypted under it; remediation would
//! send a random per-message IV alongside each ciphertext.
//!
//! The outside cipher is only trusted for raw block work: decryption calls
//! it without padding, and the PKCS padding rule is checked by verified
//! code here against its exact specification.

use vstd::prelude::*;
use crate::error::Error;

verus! {

/// The ciphertext that the block cipher produces for a plaintext under a
/// 32-byte key.
pub uninterp spec fn cipher_of(p: Seq<u8>, k: Seq<u8>) -> Seq<u8>;

/// The raw block-by-block CBC decryption of a block-aligned buffer under a
/// 32-byte key, before any padding is inspected.
pub uninterp spec fn raw_plain_of(c: Seq<u8>, k: Seq<u8>) -> Seq<u8>;

/// Strips PKCS block padding: the last byte names the pad width, which
/// must be 1 to 16, not exceed the buffer, and fill its tail; anything
/// else is rejected.
pub open spec fn strip_pkcs(p: Seq<u8>) -> Option<Seq<u8>> {
    if p.len() == 0 {
        None
    } else {
        let v = p.last() as int;
        if v == 0 || v > 16 || p.len() < v {
            None
        } else if forall|i: int| p.len() - v <= i < p.len() ==> p[i] == p.last() {
            Some(p.take(p.len() - v))
        } else {
            None
        }
    }
}

/// The plaintext that the padded cipher recovers from a buffer under a
/// 32-byte key: the raw decryption with its padding stripped; `None` where
/// the buffer is not block-aligned or the padding is malformed.
pub open spec fn plain_of(c: Seq<u8>, k: Seq<u8>) -> Option<Seq<u8>> {
    if c.len() % 16 == 0 {
        strip_pkcs(raw_plain_of(c, k))
    } else {
        None
    }
}

/// Relies on rust-crypto's aes::cbc_encryptor with KeySize256, PKCS padding
/// and an all-zero IV: for a 32-byte key it always produces a ciphertext of
/// the padded length, the ciphertext is a function of (data, key) alone,
/// and raw-decrypting it under the same key yields data followed by a
/// well-formed PKCS pad.
#[verifier::external_body]
fn aes256_cbc_encrypt(data: &[u8], key: &[u8]) -> (r: Vec<u8>)
    requires
        key@.len() == 32,
    ensures
        r@ == cipher_of(data@, key@),
        r@.len() == (data@.len() / 16 + 1) * 16,
        plain_of(r@, key@) == Some(data@),
{
    let mut enc = crypto::aes::cbc_encryptor(
        crypto::aes::KeySize::KeySize256, key, &[0u8; 16], crypto::blockmodes::PkcsPadding,
    );
    let mut out = vec![0u8; data.len() + 32];
    let mut read_buffer = crypto::buffer::RefReadBuffer::new(data);
    let mut write_buffer = crypto::buffer::RefWriteBuffer::new(&mut out);
    enc.encrypt(&mut read_buffer, &mut write_buffer, true).expect("aes-cbc encryption");
    crypto::buffer::ReadBuffer::take_remaining(
        &mut crypto::buffer::WriteBuffer::take_read_buffer(&mut write_buffer),
    ).to_vec()
}

/// Relies on rust-crypto's aes::cbc_decryptor with KeySize256, NoPadding
/// and an all-zero IV: for a 32-byte key it accepts exactly the
/// block-aligned buffers, never panics (NoPadding strips nothing), and
/// returns their raw block decryption, a function of (data, key) alone and
/// of the input's length.
#[verifier::external_body]
fn aes256_cbc_decrypt_raw(data: &[u8], key: &[u8]) -> (r: Option<Vec<u8>>)
    requires
        key@.len() == 32,
    ensures
        r is Some <==> data@.len() % 16 == 0,
        r matches Some(p) ==> p@ == raw_plain_of(data@, key@) && p@.len() == data@.len(),
{
    let mut dec = crypto::aes::cbc_decryptor(
        crypto::aes::KeySize::KeySize256, key, &[0u8; 16], crypto::blockmodes::NoPadding,
    );
    let mut out = vec![0u8; data.len() + 16];
    let mut read_buffer = crypto::buffer::RefReadBuffer::new(data);
    let mut write_buffer = crypto::buffer::RefWriteBuffer::new(&mut out);
    match dec.decrypt(&mut read_buffer, &mut write_buffer, true) {
        Ok(_) => Some(crypto::buffer::ReadBuffer::take_remaining(
            &mut crypto::buffer::WriteBuffer::take_read_buffer(&mut write_buffer),
        ).to_vec()),
        Err(_) => None,
    }
}

/// Encrypts a buffer under a 32-byte key; any other key length is
/// rejected. The ciphertext has the padded length (one to sixteen bytes
/// longer than the data, up to the next block boundary).
pub fn encrypt(data: &[u8], key: &[u8]) -> (r: Result<Vec<u8>, Error>)
    ensures
        key@.len() == 32 <==> r is Ok,
        r matches Ok(c) ==> {
            &&& c@ == cipher_of(data@, key@)
            &&& c@.len() == (data@.len() / 16 + 1) * 16
            &&& plain_of(c@, key@) == Some(data@)
        },
        r is Err ==> r == Result::<Vec<u8>, Error>::Err(Error::CipherError),
{
    if key.len() != 32 {
        return Err(Error::CipherError);
    }
    Ok(aes256_cbc_encrypt(data, key))
}

/// Decrypts a buffer under a 32-byte key: raw block decryption by the
/// outside cipher, then the PKCS padding check in verified code. Fails on
/// any other key length, on a misaligned buffer, and on malformed padding.
pub fn decrypt(encrypted_data: &[u8], key: &[u8]) -> (r: Result<Vec<u8>, Error>)
    ensures
        r is Ok <==> (key@.len() == 32 && plain_of(encrypted_data@, key@) is Some),
        r matches Ok(p) ==> plain_of(encrypted_data@, key@) == Some(p@),
        r is Err ==> r == Result::<Vec<u8>, Error>::Err(Error::CipherError),
{
    if key.len() != 32 {
        return Err(Error::CipherError);
    }
    let mut raw = match aes256_cbc_decrypt_raw(encrypted_data, key) {
        Some(p) => p,
        None => {
            return Err(Error::CipherError);
        },
    };
    if raw.len() == 0 {
        return Err(Error::CipherError);
    }
    let pad_byte = raw[raw.len() - 1];
    if pad_byte == 0 || pad_byte > 16 {
        return Err(Error::CipherError);
    }
    let pad = pad_byte as usize;
    if raw.len() < pad {
        return Err(Error::CipherError);
    }
    let start = raw.len() - pad;
    let mut i: usize = start;
    while i < raw.len()
        invariant
            start <= i <= raw@.len(),
            key@.len() == 32,
            raw@ == raw_plain_of(encrypted_data@, key@),
            raw@.len() == encrypted_data@.len(),
            encrypted_data@.len() % 16 == 0,
            raw@.len() > 0,
            pad_byte == raw@.last(),
            1 <= pad <= 16,
            pad == pad_byte,
            pad <= raw@.len(),
            start == raw@.len() - pad,
            forall|j: int| start <= j < i ==> raw@[j] == raw@.last(),
        decreases raw@.len() - i,
    {
        if raw[i] != pad_byte {
            return Err(Error::CipherError);
        }
        i = i + 1;
    }
    let keep = raw.len() - pad;
    raw.truncate(keep);
    proof {
        assert(raw@ =~= raw_plain_of(encrypted_data@, key@).take(
            raw_plain_of(encrypted_data@, key@).len() - pad,
        ));
    }
    Ok(raw)
}

} // verus!
