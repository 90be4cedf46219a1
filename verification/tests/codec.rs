use aes::cipher::generic_array::GenericArray;
use aes::cipher::{BlockEncrypt, KeyInit};
use aes::Aes128;
use base64::engine::general_purpose::STANDARD;
use base64::Engine;
use gree::codec::{payload_fits, pkcs7_pad, pkcs7_unpad};
use gree::{decode_response, encode_request, Error, GENERIC_KEY};

const OTHER_KEY: &str = "0123456789abcdef";

#[test]
fn encode_empty_payload_is_one_block_of_padding() {
    let pack = encode_request(Vec::new(), GENERIC_KEY.as_bytes());
    assert_eq!(pack, "Q7CsalJ8tNFjs6omM8Z32A==");
}

#[test]
fn encode_short_payload() {
    let pack = encode_request(b"hello".to_vec(), GENERIC_KEY.as_bytes());
    assert_eq!(pack, "o0eSn/7vbCqHckujNrUq0Q==");
}

#[test]
fn encode_aligned_payload_adds_a_full_block() {
    let pack = encode_request(b"0123456789abcdef".to_vec(), GENERIC_KEY.as_bytes());
    assert_eq!(pack, "AQP+ak6RDRpoEp1G7JJ+rEOwrGpSfLTRY7OqJjPGd9g=");
    let cipher = STANDARD.decode(&pack).unwrap();
    assert_eq!(cipher.len(), 32);
    // the added block is the padding alone, as for the empty payload
    let empty = STANDARD.decode("Q7CsalJ8tNFjs6omM8Z32A==").unwrap();
    assert_eq!(&cipher[16..], &empty[..]);
}

#[test]
fn encode_matches_the_standard_cipher_vector() {
    let key: Vec<u8> = (0u8..16).collect();
    let plain = vec![
        0x00, 0x11, 0x22, 0x33, 0x44, 0x55, 0x66, 0x77, 0x88, 0x99, 0xaa, 0xbb, 0xcc, 0xdd, 0xee,
        0xff,
    ];
    let pack = encode_request(plain, &key);
    assert_eq!(pack, "acTg2Gp7BDDYzbeAcLTFWpVPZPLk6G6e7oLSAhZoSJk=");
    let cipher = STANDARD.decode(&pack).unwrap();
    assert_eq!(
        &cipher[..16],
        &[
            0x69, 0xc4, 0xe0, 0xd8, 0x6a, 0x7b, 0x04, 0x30, 0xd8, 0xcd, 0xb7, 0x80, 0x70, 0xb4,
            0xc5, 0x5a
        ]
    );
}

#[test]
fn encode_agrees_with_the_cipher_and_base64_called_directly() {
    let payload = b"{\"t\":\"status\",\"n\":1234567890}".to_vec();
    let mut data = payload.clone();
    let pad = 16 - data.len() % 16;
    for _ in 0..pad {
        data.push(pad as u8);
    }
    let cipher = Aes128::new(GenericArray::from_slice(OTHER_KEY.as_bytes()));
    for chunk in data.chunks_mut(16) {
        cipher.encrypt_block(GenericArray::from_mut_slice(chunk));
    }
    let expected = STANDARD.encode(&data);
    assert_eq!(encode_request(payload, OTHER_KEY.as_bytes()), expected);
}

#[test]
fn decode_known_text() {
    assert_eq!(decode_response("o0eSn/7vbCqHckujNrUq0Q==", GENERIC_KEY).unwrap(), "hello");
    assert_eq!(decode_response("Q7CsalJ8tNFjs6omM8Z32A==", GENERIC_KEY).unwrap(), "");
    assert_eq!(
        decode_response("AQP+ak6RDRpoEp1G7JJ+rEOwrGpSfLTRY7OqJjPGd9g=", GENERIC_KEY).unwrap(),
        "0123456789abcdef"
    );
}

#[test]
fn decode_under_another_key_is_not_the_text() {
    let text = decode_response("o0eSn/7vbCqHckujNrUq0Q==", OTHER_KEY).unwrap();
    assert_ne!(text, "hello");
}

#[test]
fn round_trip_of_every_length_up_to_three_blocks() {
    for len in 0..=48usize {
        let text: String = (0..len).map(|i| (b'a' + (i % 26) as u8) as char).collect();
        let pack = encode_request(text.clone().into_bytes(), GENERIC_KEY.as_bytes());
        let cipher = STANDARD.decode(&pack).unwrap();
        assert_eq!(cipher.len(), (len / 16 + 1) * 16);
        assert_eq!(decode_response(&pack, GENERIC_KEY).unwrap(), text);
    }
}

#[test]
fn round_trip_of_text_beyond_ascii() {
    let text = "héllo ❤";
    let pack = encode_request(text.as_bytes().to_vec(), GENERIC_KEY.as_bytes());
    assert_eq!(pack, "0mpa1d9PXBiJ8XBgSL++rA==");
    assert_eq!(decode_response(&pack, GENERIC_KEY).unwrap(), text);
}

#[test]
fn decode_replaces_what_is_no_utf8() {
    let pack = encode_request(vec![0xff], GENERIC_KEY.as_bytes());
    assert_eq!(pack, "ymj1jPMJeRQIXIilSpuyZA==");
    assert_eq!(decode_response(&pack, GENERIC_KEY).unwrap(), "\u{fffd}");
}

#[test]
fn decode_refuses_what_is_no_base64() {
    let r = decode_response("not base64!", GENERIC_KEY);
    assert!(matches!(r, Err(Error::Base64Decode(_))));
}

#[test]
fn decode_refuses_a_partial_block() {
    let pack = STANDARD.encode([1u8, 2, 3, 4, 5]);
    assert_eq!(decode_response(&pack, GENERIC_KEY), Err(Error::BlockLength(5)));
    let pack = STANDARD.encode([0u8; 17]);
    assert_eq!(decode_response(&pack, GENERIC_KEY), Err(Error::BlockLength(17)));
}

#[test]
fn decode_of_nothing_is_the_empty_text() {
    assert_eq!(decode_response("", GENERIC_KEY).unwrap(), "");
}

#[test]
fn pad_adds_from_one_byte_to_a_whole_block() {
    let mut v = vec![1u8, 2, 3];
    pkcs7_pad(&mut v, 16);
    assert_eq!(v.len(), 16);
    assert_eq!(&v[..3], &[1, 2, 3]);
    assert!(v[3..].iter().all(|b| *b == 13));

    let mut v = vec![7u8; 15];
    pkcs7_pad(&mut v, 16);
    assert_eq!(v.len(), 16);
    assert_eq!(v[15], 1);

    let mut v = vec![7u8; 8];
    pkcs7_pad(&mut v, 8);
    assert_eq!(v.len(), 16);
    assert!(v[8..].iter().all(|b| *b == 8));

    let mut v: Vec<u8> = Vec::new();
    pkcs7_pad(&mut v, 16);
    assert_eq!(v, vec![16u8; 16]);
}

#[test]
fn unpad_trusts_the_last_byte() {
    let mut v = vec![1u8, 2, 3, 2];
    pkcs7_unpad(&mut v);
    assert_eq!(v, vec![1, 2]);

    // the bytes removed need not be padding
    let mut v = vec![9u8, 8, 7, 3];
    pkcs7_unpad(&mut v);
    assert_eq!(v, vec![9]);

    // a count above the length removes all
    let mut v = vec![5u8, 9];
    pkcs7_unpad(&mut v);
    assert!(v.is_empty());

    // a count equal to the length removes all
    let mut v = vec![2u8, 2];
    pkcs7_unpad(&mut v);
    assert!(v.is_empty());

    // a count of zero removes nothing
    let mut v = vec![4u8, 0];
    pkcs7_unpad(&mut v);
    assert_eq!(v, vec![4, 0]);

    let mut v: Vec<u8> = Vec::new();
    pkcs7_unpad(&mut v);
    assert!(v.is_empty());
}

#[test]
fn unpad_inverts_pad() {
    for len in 0..40usize {
        let payload: Vec<u8> = (0..len).map(|i| (i * 7) as u8).collect();
        let mut v = payload.clone();
        pkcs7_pad(&mut v, 16);
        assert_eq!(v.len() % 16, 0);
        assert!(v.len() > payload.len());
        pkcs7_unpad(&mut v);
        assert_eq!(v, payload);
    }
}

#[test]
fn payloads_of_any_real_size_fit() {
    assert!(payload_fits(0));
    assert!(payload_fits(65_507));
    assert!(!payload_fits(usize::MAX));
    assert!(!payload_fits(usize::MAX - 16));
    assert!(!payload_fits(usize::MAX / 4 * 3));
}
