//! The envelope codec: PKCS7 padding, AES-128 over each 16-byte block on its
//! own (ECB), and base64 around the ciphertext.

use vstd::prelude::*;
use vstd::slice::slice_subrange;
use vstd::string::StringSliceAdditionalSpecFns;
use vstd::utf8::{decode_utf8, valid_utf8};
use aes::cipher::{BlockDecrypt, BlockEncrypt, KeyInit};
use aes::cipher::generic_array::GenericArray;
use aes::Aes128;
use base64::engine::general_purpose::STANDARD;
use base64::{DecodeError, Engine};
use crate::error::Error;

verus! {

/// The length of a cipher block, and of a key.
pub const BLOCK: usize = 16;

/// The block that AES-128 makes of `block` under `key`.
pub uninterp spec fn aes128_encrypted(key: Seq<u8>, block: Seq<u8>) -> Seq<u8>;

/// The block that AES-128 recovers from `block` under `key`.
pub uninterp spec fn aes128_decrypted(key: Seq<u8>, block: Seq<u8>) -> Seq<u8>;

/// The standard base64 text of `bytes`, padded with `=`.
pub uninterp spec fn base64_text(bytes: Seq<u8>) -> Seq<char>;

/// The bytes that `text` stands for in standard base64, where it is base64.
pub uninterp spec fn base64_bytes(text: Seq<char>) -> Option<Seq<u8>>;

/// The text of `bytes` read as UTF-8, with U+FFFD for what is no UTF-8.
pub uninterp spec fn utf8_lossy_text(bytes: Seq<u8>) -> Seq<char>;

/// `Aes128::encrypt_block`, under the cipher that `Aes128::new` makes of `key`.
/// The result is the named cipher block, 16 bytes long, and decryption under
/// the same key gives `block` back.
#[verifier::external_body]
fn aes128_encrypt_block(key: &[u8], block: &[u8]) -> (out: Vec<u8>)
    requires
        key@.len() == BLOCK,
        block@.len() == BLOCK,
    ensures
        out@ == aes128_encrypted(key@, block@),
        out@.len() == BLOCK,
        aes128_decrypted(key@, out@) == block@,
{
    let cipher = Aes128::new(GenericArray::from_slice(key));
    let mut b = GenericArray::clone_from_slice(block);
    cipher.encrypt_block(&mut b);
    b.to_vec()
}

/// `Aes128::decrypt_block`, under the cipher that `Aes128::new` makes of `key`.
/// The result is the named plain block, 16 bytes long.
#[verifier::external_body]
fn aes128_decrypt_block(key: &[u8], block: &[u8]) -> (out: Vec<u8>)
    requires
        key@.len() == BLOCK,
        block@.len() == BLOCK,
    ensures
        out@ == aes128_decrypted(key@, block@),
        out@.len() == BLOCK,
{
    let cipher = Aes128::new(GenericArray::from_slice(key));
    let mut b = GenericArray::clone_from_slice(block);
    cipher.decrypt_block(&mut b);
    b.to_vec()
}

/// `Engine::encode` of `base64::engine::general_purpose::STANDARD`. The result
/// is the named text, and decoding it gives `bytes` back. The call panics where
/// the length of the text overflows, which `requires` leaves out.
#[verifier::external_body]
fn base64_encode(bytes: &[u8]) -> (text: String)
    requires
        bytes@.len() / 3 * 4 + 4 <= usize::MAX,
    ensures
        text@ == base64_text(bytes@),
        base64_bytes(text@) == Some(bytes@),
{
    STANDARD.encode(bytes)
}

/// `Engine::decode` of `base64::engine::general_purpose::STANDARD`: the named
/// bytes, or the crate's error where `text` is no base64.
#[verifier::external_body]
fn base64_decode(text: &str) -> (r: Result<Vec<u8>, DecodeError>)
    ensures
        match r {
            Ok(bytes) => base64_bytes(text@) == Some(bytes@),
            Err(_) => base64_bytes(text@) is None,
        },
{
    STANDARD.decode(text)
}

/// `String::from_utf8_lossy`: the named text, which for valid UTF-8 is the
/// text that the bytes encode.
#[verifier::external_body]
fn utf8_lossy(bytes: &[u8]) -> (text: String)
    ensures
        text@ == utf8_lossy_text(bytes@),
        valid_utf8(bytes@) ==> text@ == decode_utf8(bytes@),
{
    String::from_utf8_lossy(bytes).into_owned()
}

/// Whether a payload of `len` bytes can be encoded on this machine: the
/// length of its base64 text must not overflow.
pub open spec fn fits(len: nat) -> bool {
    (len + BLOCK) / 3 * 4 + 4 <= usize::MAX
}

/// Whether a payload of `len` bytes can be encoded on this machine.
pub fn payload_fits(len: usize) -> (r: bool)
    ensures
        r == fits(len as nat),
{
    len <= usize::MAX - 16 && (len + 16) / 3 <= (usize::MAX - 4) / 4
}

/// The number of bytes that PKCS7 adds to `len` bytes for blocks of
/// `blocksize`: from 1 to `blocksize`, a whole block where `len` is aligned.
pub open spec fn pad_len(len: nat, blocksize: nat) -> nat {
    (blocksize - len % blocksize) as nat
}

/// `payload` with its PKCS7 padding: each added byte holds their number.
pub open spec fn pkcs7_padded(payload: Seq<u8>, blocksize: nat) -> Seq<u8> {
    payload + Seq::new(
        pad_len(payload.len(), blocksize),
        |i: int| pad_len(payload.len(), blocksize) as u8,
    )
}

/// `payload` without the bytes that its last byte counts. Nothing checks that
/// the bytes removed are padding; a count above the length removes all.
pub open spec fn pkcs7_unpadded(payload: Seq<u8>) -> Seq<u8> {
    if payload.len() == 0 {
        payload
    } else if payload.last() as nat >= payload.len() {
        Seq::empty()
    } else {
        payload.subrange(0, payload.len() - payload.last() as nat)
    }
}

/// The whole blocks of `data`, each encrypted on its own under `key`.
pub open spec fn ecb_encrypted(key: Seq<u8>, data: Seq<u8>) -> Seq<u8>
    decreases data.len(),
{
    if data.len() < BLOCK {
        Seq::empty()
    } else {
        ecb_encrypted(key, data.subrange(0, data.len() - BLOCK)) + aes128_encrypted(
            key,
            data.subrange(data.len() - BLOCK, data.len() as int),
        )
    }
}

/// The whole blocks of `data`, each decrypted on its own under `key`.
pub open spec fn ecb_decrypted(key: Seq<u8>, data: Seq<u8>) -> Seq<u8>
    decreases data.len(),
{
    if data.len() < BLOCK {
        Seq::empty()
    } else {
        ecb_decrypted(key, data.subrange(0, data.len() - BLOCK)) + aes128_decrypted(
            key,
            data.subrange(data.len() - BLOCK, data.len() as int),
        )
    }
}

/// The `pack` text of a request: `payload` padded, encrypted and base64-encoded.
pub open spec fn encoded_request(payload: Seq<u8>, key: Seq<u8>) -> Seq<char> {
    base64_text(ecb_encrypted(key, pkcs7_padded(payload, BLOCK as nat)))
}

/// The bytes inside a `pack` text, or `None` where it is no base64 or holds no
/// whole number of blocks.
pub open spec fn decoded_bytes(pack: Seq<char>, key: Seq<u8>) -> Option<Seq<u8>> {
    match base64_bytes(pack) {
        Some(cipher) => if cipher.len() % BLOCK as nat == 0 {
            Some(pkcs7_unpadded(ecb_decrypted(key, cipher)))
        } else {
            None
        },
        None => None,
    }
}

/// The text that `bytes` hold: their UTF-8 decoding where they are UTF-8.
pub open spec fn text_of(bytes: Seq<u8>) -> Seq<char> {
    if valid_utf8(bytes) {
        decode_utf8(bytes)
    } else {
        utf8_lossy_text(bytes)
    }
}

/// The text inside a `pack` text.
pub open spec fn decoded_response(pack: Seq<char>, key: Seq<u8>) -> Option<Seq<char>> {
    match decoded_bytes(pack, key) {
        Some(bytes) => Some(text_of(bytes)),
        None => None,
    }
}

/// Removing the padding gives the payload back, whatever its length.
pub proof fn lemma_unpad_inverts_pad(payload: Seq<u8>)
    ensures
        pkcs7_unpadded(pkcs7_padded(payload, BLOCK as nat)) == payload,
        pkcs7_padded(payload, BLOCK as nat).len() % BLOCK as nat == 0,
        pkcs7_padded(payload, BLOCK as nat).len() > payload.len(),
{
    let padded = pkcs7_padded(payload, BLOCK as nat);
    let n = pad_len(payload.len(), BLOCK as nat);
    assert(1 <= n <= 16);
    assert(padded.len() == payload.len() + n);
    assert(padded.last() == n as u8);
    assert(padded.subrange(0, padded.len() - n) =~= payload);
}

/// The text that is read out of the UTF-8 bytes of a text is that text.
pub proof fn lemma_text_of_its_bytes(text: Seq<char>)
    ensures
        text_of(vstd::utf8::encode_utf8(text)) == text,
{
    vstd::utf8::encode_utf8_valid_utf8(text);
    vstd::utf8::encode_utf8_decode_utf8(text);
}

/// Removes the PKCS7 padding in place: as many bytes as the last byte counts,
/// or all of them where it counts more than there are.
pub fn pkcs7_unpad(payload: &mut Vec<u8>)
    ensures
        final(payload)@ == pkcs7_unpadded(old(payload)@),
{
    let len = payload.len();
    if len > 0 {
        let n = payload[len - 1] as usize;
        if n >= len {
            payload.truncate(0);
            assert(payload@ =~= Seq::<u8>::empty());
        } else {
            payload.truncate(len - n);
        }
    }
}

/// Pads `payload` in place to a multiple of `blocksize` bytes: from 1 to
/// `blocksize` bytes are added, each holding their number.
pub fn pkcs7_pad(payload: &mut Vec<u8>, blocksize: u8)
    requires
        blocksize > 0,
        old(payload)@.len() + blocksize <= usize::MAX,
    ensures
        final(payload)@ == pkcs7_padded(old(payload)@, blocksize as nat),
{
    let pad = blocksize - (payload.len() % (blocksize as usize)) as u8;
    let mut i: u8 = 0;
    while i < pad
        invariant
            i <= pad <= blocksize,
            pad == pad_len(old(payload)@.len(), blocksize as nat),
            old(payload)@.len() + blocksize <= usize::MAX,
            payload@ == old(payload)@ + Seq::new(i as nat, |j: int| pad),
        decreases pad - i,
    {
        payload.push(pad);
        i += 1;
        assert(payload@ =~= old(payload)@ + Seq::new(i as nat, |j: int| pad));
    }
    assert(payload@ =~= pkcs7_padded(old(payload)@, blocksize as nat));
}

/// Encodes the payload of a request: PKCS7 padding to whole blocks, AES-128
/// on each block under `key`, base64 around the result. Decoding the text
/// under the same key gives the payload back.
pub fn encode_request(payload: Vec<u8>, key: &[u8]) -> (pack: String)
    requires
        key@.len() == BLOCK,
        fits(payload@.len()),
    ensures
        pack@ == encoded_request(payload@, key@),
        base64_bytes(pack@) matches Some(cipher) && cipher.len() == pkcs7_padded(
            payload@,
            BLOCK as nat,
        ).len(),
        decoded_bytes(pack@, key@) == Some(payload@),
        decoded_response(pack@, key@) == Some(text_of(payload@)),
{
    let mut data = payload;
    pkcs7_pad(&mut data, 16);
    proof {
        lemma_unpad_inverts_pad(payload@);
    }
    let mut out: Vec<u8> = Vec::new();
    let mut pos: usize = 0;
    assert(data@.subrange(0, 0) =~= Seq::<u8>::empty());
    while pos < data.len()
        invariant
            key@.len() == BLOCK,
            pos <= data.len(),
            pos % BLOCK == 0,
            data.len() % BLOCK == 0,
            out.len() == pos,
            out@ == ecb_encrypted(key@, data@.subrange(0, pos as int)),
            ecb_decrypted(key@, out@) == data@.subrange(0, pos as int),
        decreases data.len() - pos,
    {
        let block = slice_subrange(data.as_slice(), pos, pos + 16);
        let mut enc = aes128_encrypt_block(key, block);
        let ghost before = out@;
        out.append(&mut enc);
        proof {
            let next = data@.subrange(0, pos + 16);
            assert(next.subrange(0, next.len() - BLOCK) =~= data@.subrange(0, pos as int));
            assert(next.subrange(next.len() - BLOCK, next.len() as int) =~= block@);
            assert(out@.subrange(0, out@.len() - BLOCK) =~= before);
            assert(out@.subrange(out@.len() - BLOCK, out@.len() as int) =~= aes128_encrypted(
                key@,
                block@,
            ));
            assert(data@.subrange(0, pos as int) + block@ =~= next);
        }
        pos += 16;
    }
    assert(data@.subrange(0, pos as int) =~= data@);
    base64_encode(out.as_slice())
}

/// Decodes the `pack` text of a response: base64, AES-128 on each block under
/// `key`, PKCS7 padding removed by its last byte, the rest read as UTF-8 with
/// U+FFFD for what is none. Text that is no base64, or that holds no whole
/// number of blocks, is refused.
pub fn decode_response(pack: &str, key: &str) -> (r: Result<String, Error>)
    requires
        key.spec_bytes().len() == BLOCK,
    ensures
        match r {
            Ok(text) => decoded_response(pack@, key.spec_bytes()) == Some(text@),
            Err(Error::Base64Decode(_)) => base64_bytes(pack@) is None,
            Err(Error::BlockLength(n)) => base64_bytes(pack@) matches Some(cipher) && cipher.len()
                == n && n % BLOCK != 0,
            Err(_) => false,
        },
{
    let key = key.as_bytes();
    let data = match base64_decode(pack) {
        Ok(data) => data,
        Err(e) => {
            return Err(Error::from(e));
        },
    };
    if data.len() % 16 != 0 {
        return Err(Error::BlockLength(data.len()));
    }
    let mut out: Vec<u8> = Vec::new();
    let mut pos: usize = 0;
    assert(data@.subrange(0, 0) =~= Seq::<u8>::empty());
    while pos < data.len()
        invariant
            key@.len() == BLOCK,
            pos <= data.len(),
            pos % BLOCK == 0,
            data.len() % BLOCK == 0,
            out@ == ecb_decrypted(key@, data@.subrange(0, pos as int)),
        decreases data.len() - pos,
    {
        let block = slice_subrange(data.as_slice(), pos, pos + 16);
        let mut plain = aes128_decrypt_block(key, block);
        out.append(&mut plain);
        proof {
            let next = data@.subrange(0, pos + 16);
            assert(next.subrange(0, next.len() - BLOCK) =~= data@.subrange(0, pos as int));
            assert(next.subrange(next.len() - BLOCK, next.len() as int) =~= block@);
        }
        pos += 16;
    }
    assert(data@.subrange(0, pos as int) =~= data@);
    pkcs7_unpad(&mut out);
    Ok(utf8_lossy(out.as_slice()))
}

} // verus!
