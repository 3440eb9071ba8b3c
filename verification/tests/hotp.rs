use otpgen::{generate_hmac, generate_hotp, hotp, HashAlgorithm, OtpError};

#[test]
fn test_hotp_sha1() {
    let key = vec![72, 101, 108, 108, 111, 33, 222, 173, 190, 239]; // "JBSWY3DPEHPK3PXP"

    let code6 = hotp(&key, 1, 6, HashAlgorithm::Sha1).unwrap();
    assert_eq!(code6.len(), 6);
    assert!(code6.chars().all(|c| c.is_ascii_digit()));
    assert_eq!(code6, "996554");

    let code8 = hotp(&key, 1, 8, HashAlgorithm::Sha1).unwrap();
    assert_eq!(code8.len(), 8);
    assert!(code8.chars().all(|c| c.is_ascii_digit()));
    assert_eq!(code8, "41996554");
}

#[test]
fn test_hotp_sha256() {
    let key = vec![72, 101, 108, 108, 111, 33, 222, 173, 190, 239]; // "JBSWY3DPEHPK3PXP"

    let code6 = hotp(&key, 1, 6, HashAlgorithm::Sha256).unwrap();
    assert_eq!(code6.len(), 6);
    assert!(code6.chars().all(|c| c.is_ascii_digit()));
    assert_eq!(code6, "344551");

    let code8 = hotp(&key, 1, 8, HashAlgorithm::Sha256).unwrap();
    assert_eq!(code8.len(), 8);
    assert!(code8.chars().all(|c| c.is_ascii_digit()));
    assert_eq!(code8, "36344551");
}

#[test]
fn test_hotp_sha512() {
    let key = vec![72, 101, 108, 108, 111, 33, 222, 173, 190, 239]; // "JBSWY3DPEHPK3PXP"

    let code6 = hotp(&key, 1, 6, HashAlgorithm::Sha512).unwrap();
    assert_eq!(code6.len(), 6);
    assert!(code6.chars().all(|c| c.is_ascii_digit()));
    assert_eq!(code6, "439887");

    let code8 = hotp(&key, 1, 8, HashAlgorithm::Sha512).unwrap();
    assert_eq!(code8.len(), 8);
    assert!(code8.chars().all(|c| c.is_ascii_digit()));
    assert_eq!(code8, "31439887");
}

#[test]
fn test_hotp_different_algorithms() {
    let key = vec![72, 101, 108, 108, 111, 33, 222, 173, 190, 239]; // "JBSWY3DPEHPK3PXP"

    let code_sha1 = hotp(&key, 1, 6, HashAlgorithm::Sha1).unwrap();
    let code_sha256 = hotp(&key, 1, 6, HashAlgorithm::Sha256).unwrap();
    let code_sha512 = hotp(&key, 1, 6, HashAlgorithm::Sha512).unwrap();

    assert_ne!(code_sha1, code_sha256);
    assert_ne!(code_sha1, code_sha512);
    assert_ne!(code_sha256, code_sha512);
}

#[test]
fn hotp_matches_the_published_sha1_sequence() {
    let key: &[u8] = b"12345678901234567890";
    let expected = [
        "755224", "287082", "359152", "969429", "338314", "254676", "287922", "162583", "399871",
        "520489",
    ];
    let mut counter: u64 = 0;
    for code in expected {
        assert_eq!(hotp(key, counter, 6, HashAlgorithm::Sha1).unwrap(), code);
        counter += 1;
    }
}

#[test]
fn hotp_eight_digit_codes_for_each_algorithm() {
    let key20: &[u8] = b"12345678901234567890";
    let key32: &[u8] = b"12345678901234567890123456789012";
    let key64: &[u8] = b"1234567890123456789012345678901234567890123456789012345678901234";
    assert_eq!(hotp(key20, 1, 8, HashAlgorithm::Sha1).unwrap(), "94287082");
    assert_eq!(hotp(key32, 1, 8, HashAlgorithm::Sha256).unwrap(), "46119246");
    assert_eq!(hotp(key64, 1, 8, HashAlgorithm::Sha512).unwrap(), "90693936");
    assert_eq!(hotp(key20, 37037036, 8, HashAlgorithm::Sha1).unwrap(), "07081804");
}

#[test]
fn hotp_depends_on_the_counter() {
    let key: &[u8] = b"12345678901234567890";
    let at_zero = hotp(key, 0, 6, HashAlgorithm::Sha1).unwrap();
    let at_high = hotp(key, 1 << 32, 6, HashAlgorithm::Sha1).unwrap();
    assert_eq!(at_zero, "755224");
    assert_ne!(at_zero, at_high);
}

#[test]
fn hotp_accepts_keys_of_any_length() {
    let empty: &[u8] = b"";
    let long = vec![0xA5u8; 200];
    for digits in 1..=9u32 {
        let short_code = hotp(empty, 7, digits, HashAlgorithm::Sha256).unwrap();
        let long_code = hotp(&long, 7, digits, HashAlgorithm::Sha512).unwrap();
        assert_eq!(short_code.len(), digits as usize);
        assert_eq!(long_code.len(), digits as usize);
        assert!(short_code.chars().all(|c| c.is_ascii_digit()));
        assert!(long_code.chars().all(|c| c.is_ascii_digit()));
    }
}

#[test]
fn hotp_is_repeatable() {
    let key = vec![72, 101, 108, 108, 111, 33, 222, 173, 190, 239];
    let first = hotp(&key, 99, 6, HashAlgorithm::Sha256);
    let second = hotp(&key, 99, 6, HashAlgorithm::Sha256);
    assert_eq!(first, second);
}

#[test]
fn keyed_hash_has_the_length_of_its_algorithm() {
    let key: &[u8] = b"12345678901234567890";
    assert_eq!(generate_hmac(key, 0, HashAlgorithm::Sha1).len(), 20);
    assert_eq!(generate_hmac(key, 0, HashAlgorithm::Sha256).len(), 32);
    assert_eq!(generate_hmac(key, 0, HashAlgorithm::Sha512).len(), 64);
    assert_eq!(HashAlgorithm::Sha1.digest_len(), 20);
    assert_eq!(HashAlgorithm::Sha256.digest_len(), 32);
    assert_eq!(HashAlgorithm::Sha512.digest_len(), 64);
}

#[test]
fn keyed_hash_of_counter_zero() {
    let key: &[u8] = b"12345678901234567890";
    let digest = generate_hmac(key, 0, HashAlgorithm::Sha1);
    let expected: Vec<u8> = vec![
        0xcc, 0x93, 0xcf, 0x18, 0x50, 0x8d, 0x94, 0x93, 0x4c, 0x64, 0xb6, 0x5d, 0x8b, 0xa7, 0x66,
        0x7f, 0xb7, 0xcd, 0xe4, 0xb0,
    ];
    assert_eq!(digest, expected);
}

#[test]
fn generate_hotp_decodes_the_secret() {
    assert_eq!(
        generate_hotp("JBSWY3DPEHPK3PXP", 1, 6, HashAlgorithm::Sha1),
        Ok(String::from("996554"))
    );
    assert_eq!(
        generate_hotp("JBSWY3DPEHPK3PXP", 1, 8, HashAlgorithm::Sha512),
        Ok(String::from("31439887"))
    );
}

#[test]
fn generate_hotp_refuses_a_malformed_secret() {
    assert_eq!(
        generate_hotp("secret", 1, 6, HashAlgorithm::Sha1),
        Err(OtpError::InvalidSecret)
    );
    assert_eq!(
        generate_hotp("JBSWY3DP!", 1, 6, HashAlgorithm::Sha256),
        Err(OtpError::InvalidSecret)
    );
}
