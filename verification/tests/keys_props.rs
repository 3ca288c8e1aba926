use wireguard_vanity::encoding::decode_public;
use wireguard_vanity::keys::Keypair;

#[test]
fn public_key_rederives_identically() {
    let k = Keypair::generate();
    assert_eq!(k.rederive_public(), k.public);
}

#[test]
fn from_private_agrees_with_rederivation() {
    let k = Keypair::generate();
    let rebuilt = Keypair::from_private(k.private);
    assert_eq!(rebuilt.public, k.public);
}

#[test]
fn derives_known_test_vector() {
    // the X25519 Diffie-Hellman test vector of RFC 7748, section 6.1
    let private: [u8; 32] = [
        0x77, 0x07, 0x6d, 0x0a, 0x73, 0x18, 0xa5, 0x7d, 0x3c, 0x16, 0xc1, 0x72, 0x51, 0xb2,
        0x66, 0x45, 0xdf, 0x4c, 0x2f, 0x87, 0xeb, 0xc0, 0x99, 0x2a, 0xb1, 0x77, 0xfb, 0xa5,
        0x1d, 0xb9, 0x2c, 0x2a,
    ];
    let expected_public: [u8; 32] = [
        0x85, 0x20, 0xf0, 0x09, 0x89, 0x30, 0xa7, 0x54, 0x74, 0x8b, 0x7d, 0xdc, 0xb4, 0x3e,
        0xf7, 0x5a, 0x0d, 0xbf, 0x3a, 0x0d, 0x26, 0x38, 0x1a, 0xf4, 0xeb, 0xa4, 0xa9, 0x8e,
        0xaa, 0x9b, 0x4e, 0x6a,
    ];
    let k = Keypair::from_private(private);
    assert_eq!(k.public, expected_public);
}

#[test]
fn encoded_public_is_44_bytes() {
    let k = Keypair::generate();
    assert_eq!(k.encoded_public().len(), 44);
}

#[test]
fn all_zero_public_key_has_known_rendering() {
    let k = Keypair { private: [0u8; 32], public: [0u8; 32] };
    let expected: Vec<u8> = b"AAAAAAAAAAAAAAAAAAAAAAAAAAAAAAAAAAAAAAAAAAA=".to_vec();
    assert_eq!(k.encoded_public(), expected);
}

#[test]
fn encoding_round_trips_to_the_public_bytes() {
    let k = Keypair::generate();
    let rendered = k.encoded_public();
    let decoded = decode_public(&rendered).expect("a fresh rendering must decode");
    assert_eq!(decoded.as_slice(), k.public.as_slice());
}

#[test]
fn round_trip_helper_returns_the_public_bytes() {
    let k = Keypair::generate();
    assert_eq!(k.encoded_public_round_trip().as_slice(), k.public.as_slice());
}

#[test]
fn decode_rejects_text_that_is_no_rendering() {
    assert!(decode_public(b"!!!!").is_none());
    // valid base64, but of 3 bytes, not 32
    assert!(decode_public(b"AAAA").is_none());
    // valid base64 of no bytes at all
    assert!(decode_public(b"").is_none());
}
