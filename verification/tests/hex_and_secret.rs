use chat_rs::hex::hex_encode;
use chat_rs::secret::{generate_verification_secret, secret_from_bytes, SECRET_BYTES};

#[test]
fn hex_of_nothing_is_empty() {
    assert_eq!(hex_encode(&[]), "");
}

#[test]
fn hex_pads_every_byte_to_two_digits() {
    assert_eq!(hex_encode(&[0x00, 0x05, 0x0f, 0x10, 0xa0, 0xff]), "00050f10a0ff");
}

#[test]
fn hex_is_lower_case_and_high_nibble_first() {
    assert_eq!(hex_encode(&[0xab, 0xcd, 0xef, 0x12]), "abcdef12");
    assert_eq!(hex_encode(&[0x1a]), "1a");
    assert_eq!(hex_encode(&[0xa1]), "a1");
}

#[test]
fn hex_of_every_byte_matches_std_formatting() {
    for b in 0u8..=255 {
        assert_eq!(hex_encode(&[b]), format!("{:02x}", b));
    }
}

#[test]
fn secret_of_zero_bytes_is_sixty_four_zeros() {
    let secret = secret_from_bytes(&[0u8; 32]);
    assert_eq!(secret.len(), 64);
    assert!(secret.chars().all(|c| c == '0'));
}

#[test]
fn secret_encodes_its_bytes_in_order() {
    let mut bytes = [0u8; 32];
    for i in 0..32 {
        bytes[i] = i as u8;
    }
    assert_eq!(
        secret_from_bytes(&bytes),
        "000102030405060708090a0b0c0d0e0f101112131415161718191a1b1c1d1e1f"
    );
}

#[test]
fn generated_secret_is_sixty_four_lower_hex_digits() {
    let secret = generate_verification_secret();
    assert_eq!(secret.chars().count(), 2 * SECRET_BYTES);
    assert!(secret.chars().all(|c| c.is_ascii_digit() || ('a'..='f').contains(&c)));
}

#[test]
fn generated_secrets_differ() {
    assert_ne!(generate_verification_secret(), generate_verification_secret());
}
