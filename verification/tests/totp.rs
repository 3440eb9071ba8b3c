use otpgen::secret::has_decodable_len;
use otpgen::{
    decode_secret, generate_hotp, hotp, time_counter, totp, HashAlgorithm, OtpError,
    TotpHashAlgorithm,
};

#[test]
fn totp_sha1_code_shape() {
    let secret = "JBSWY3DPEHPK3PXP".to_string();

    let code6 = totp(&secret, 30, 6, TotpHashAlgorithm::Sha1, 1_700_000_000).unwrap();
    assert_eq!(code6.len(), 6);
    assert!(code6.chars().all(|c| c.is_ascii_digit()));

    let code8 = totp(&secret, 30, 8, TotpHashAlgorithm::Sha1, 1_700_000_000).unwrap();
    assert_eq!(code8.len(), 8);
    assert!(code8.chars().all(|c| c.is_ascii_digit()));
}

#[test]
fn totp_malformed_secret_fails() {
    assert!(totp("secret", 30, 6, TotpHashAlgorithm::Sha1, 1_700_000_000).is_err());
    assert_eq!(
        totp("secret", 30, 6, TotpHashAlgorithm::Sha1, 1_700_000_000),
        Err(OtpError::InvalidSecret)
    );
    assert_eq!(
        totp("JBSWY3DP EHPK3PXP", 30, 6, TotpHashAlgorithm::Sha256, 59),
        Err(OtpError::InvalidSecret)
    );
    assert_eq!(
        totp("JBSWY3DPEHPK3PX\u{e9}", 30, 6, TotpHashAlgorithm::Sha512, 59),
        Err(OtpError::InvalidSecret)
    );
}

#[test]
fn totp_zero_step_fails() {
    assert_eq!(
        totp("JBSWY3DPEHPK3PXP", 0, 6, TotpHashAlgorithm::Sha1, 1_700_000_000),
        Err(OtpError::InvalidStep)
    );
    assert_eq!(
        totp("secret", 0, 6, TotpHashAlgorithm::Sha256, 0),
        Err(OtpError::InvalidStep)
    );
}

#[test]
fn totp_is_hotp_at_the_time_counter() {
    // Seconds 30 to 59 with a step of 30 are counter 1.
    for now in [30u64, 45, 59] {
        assert_eq!(
            totp("JBSWY3DPEHPK3PXP", 30, 6, TotpHashAlgorithm::Sha1, now),
            Ok(String::from("996554"))
        );
        assert_eq!(
            totp("JBSWY3DPEHPK3PXP", 30, 8, TotpHashAlgorithm::Sha256, now),
            Ok(String::from("36344551"))
        );
        assert_eq!(
            totp("JBSWY3DPEHPK3PXP", 30, 6, TotpHashAlgorithm::Sha512, now),
            Ok(String::from("439887"))
        );
    }
    let key = vec![72, 101, 108, 108, 111, 33, 222, 173, 190, 239];
    assert_eq!(
        totp("JBSWY3DPEHPK3PXP", 60, 6, TotpHashAlgorithm::Sha1, 1_700_000_000),
        hotp(&key, 1_700_000_000 / 60, 6, HashAlgorithm::Sha1)
    );
}

#[test]
fn totp_at_published_times() {
    // "12345678901234567890" in Base32.
    let secret = "GEZDGNBVGY3TQOJQGEZDGNBVGY3TQOJQ";
    assert_eq!(
        totp(secret, 30, 8, TotpHashAlgorithm::Sha1, 59),
        Ok(String::from("94287082"))
    );
    assert_eq!(
        totp(secret, 30, 8, TotpHashAlgorithm::Sha1, 1111111109),
        Ok(String::from("07081804"))
    );
    assert_eq!(
        totp(secret, 30, 8, TotpHashAlgorithm::Sha1, 1234567890),
        Ok(String::from("89005924"))
    );
}

#[test]
fn time_counter_counts_whole_steps() {
    assert_eq!(time_counter(0, 30), Ok(0));
    assert_eq!(time_counter(29, 30), Ok(0));
    assert_eq!(time_counter(30, 30), Ok(1));
    assert_eq!(time_counter(59, 30), Ok(1));
    assert_eq!(time_counter(1111111109, 30), Ok(37037036));
    assert_eq!(time_counter(u64::MAX, 1), Ok(u64::MAX));
    assert_eq!(time_counter(59, 0), Err(OtpError::InvalidStep));
    assert_eq!(time_counter(0, 0), Err(OtpError::InvalidStep));
}

#[test]
fn secret_decodes_to_key_bytes() {
    assert_eq!(
        decode_secret("JBSWY3DPEHPK3PXP"),
        Ok(vec![72, 101, 108, 108, 111, 33, 222, 173, 190, 239])
    );
    assert_eq!(
        decode_secret("GEZDGNBVGY3TQOJQGEZDGNBVGY3TQOJQ"),
        Ok(b"12345678901234567890".to_vec())
    );
    assert_eq!(decode_secret("MZXW6"), Ok(b"foo".to_vec()));
    assert_eq!(decode_secret("MZXW6YTBOI"), Ok(b"foobar".to_vec()));
    assert_eq!(decode_secret("MY"), Ok(b"f".to_vec()));
    assert_eq!(decode_secret("MZXQ"), Ok(b"fo".to_vec()));
    assert_eq!(decode_secret("MZXW6YQ"), Ok(b"foob".to_vec()));
    assert_eq!(decode_secret("MZXW6YTB"), Ok(b"fooba".to_vec()));
    assert_eq!(decode_secret(""), Ok(vec![]));
    assert_eq!(decode_secret("secret"), Err(OtpError::InvalidSecret));
    assert_eq!(decode_secret("JBSWY3DP1"), Err(OtpError::InvalidSecret));
    assert_eq!(decode_secret("MZXW6==="), Err(OtpError::InvalidSecret));
    assert_eq!(decode_secret("mzxw6"), Err(OtpError::InvalidSecret));
}

#[test]
fn algorithm_tags() {
    assert_eq!(TotpHashAlgorithm::from_name("SHA1"), Ok(TotpHashAlgorithm::Sha1));
    assert_eq!(TotpHashAlgorithm::from_name("SHA256"), Ok(TotpHashAlgorithm::Sha256));
    assert_eq!(TotpHashAlgorithm::from_name("SHA512"), Ok(TotpHashAlgorithm::Sha512));
    assert_eq!(TotpHashAlgorithm::from_name("MD5"), Err(OtpError::UnsupportedAlgorithm));
    assert_eq!(TotpHashAlgorithm::from_name("sha1"), Err(OtpError::UnsupportedAlgorithm));
    assert_eq!(TotpHashAlgorithm::from_name(""), Err(OtpError::UnsupportedAlgorithm));
    for choice in [TotpHashAlgorithm::Sha1, TotpHashAlgorithm::Sha256, TotpHashAlgorithm::Sha512] {
        assert_eq!(TotpHashAlgorithm::from_name(choice.name()), Ok(choice));
    }
    assert_eq!(TotpHashAlgorithm::Sha1.hash_algorithm(), HashAlgorithm::Sha1);
    assert_eq!(TotpHashAlgorithm::Sha256.hash_algorithm(), HashAlgorithm::Sha256);
    assert_eq!(TotpHashAlgorithm::Sha512.hash_algorithm(), HashAlgorithm::Sha512);
}

#[test]
fn error_messages() {
    assert_eq!(OtpError::InvalidSecret.message(), "Invalid base32 secret");
    assert_eq!(OtpError::InvalidDigestLength.message(), "Invalid HMAC length");
    assert_eq!(
        OtpError::TruncationOutOfRange.message(),
        "Invalid offset for dynamic truncation"
    );
    assert_eq!(OtpError::InvalidStep.message(), "Invalid time step");
    assert_eq!(OtpError::UnsupportedAlgorithm.message(), "Invalid algorithm");
}

#[test]
fn internal_errors_are_told_apart() {
    assert!(OtpError::InvalidDigestLength.is_internal());
    assert!(OtpError::TruncationOutOfRange.is_internal());
    assert!(!OtpError::InvalidSecret.is_internal());
    assert!(!OtpError::InvalidStep.is_internal());
    assert!(!OtpError::UnsupportedAlgorithm.is_internal());
}

#[test]
fn secret_of_invalid_length_is_refused() {
    // One, three or six characters in the last group of eight.
    for secret in ["A", "MZX", "MZXW6Y", "JBSWY3DPE", "JBSWY3DPEHP", "JBSWY3DPEHPK3P"] {
        assert_eq!(decode_secret(secret), Err(OtpError::InvalidSecret));
        assert_eq!(
            generate_hotp(secret, 1, 6, HashAlgorithm::Sha1),
            Err(OtpError::InvalidSecret)
        );
        assert_eq!(
            totp(secret, 30, 6, TotpHashAlgorithm::Sha1, 59),
            Err(OtpError::InvalidSecret)
        );
    }
}

#[test]
fn decodable_lengths() {
    let text = "AAAAAAAAAAAAAAAA";
    let expected = [
        true, false, true, false, true, true, false, true, true, false, true, false, true, true,
        false, true, true,
    ];
    for (len, decodable) in expected.iter().enumerate() {
        assert_eq!(has_decodable_len(&text[..len]), *decodable);
        assert_eq!(decode_secret(&text[..len]).is_ok(), *decodable);
    }
    // The characters are counted, not the bytes.
    assert!(has_decodable_len("\u{e9}\u{e9}"));
    assert!(!has_decodable_len("\u{e9}"));
}

#[test]
fn errors_do_not_depend_on_the_digits() {
    for digits in [0u32, 1, 6, 9, 10, 100, u32::MAX] {
        assert_eq!(
            totp("JBSWY3DPEHPK3PXP", 0, digits, TotpHashAlgorithm::Sha1, 59),
            Err(OtpError::InvalidStep)
        );
        assert_eq!(
            totp("JBSWY3DP!", 0, digits, TotpHashAlgorithm::Sha256, 0),
            Err(OtpError::InvalidStep)
        );
        assert_eq!(
            totp("JBSWY3DP!", 30, digits, TotpHashAlgorithm::Sha256, 59),
            Err(OtpError::InvalidSecret)
        );
        assert_eq!(
            totp("A", 30, digits, TotpHashAlgorithm::Sha512, 59),
            Err(OtpError::InvalidSecret)
        );
        assert_eq!(
            generate_hotp("secret", 1, digits, HashAlgorithm::Sha1),
            Err(OtpError::InvalidSecret)
        );
    }
}
