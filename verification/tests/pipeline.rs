use ssdownloader::clock::{clock_time, format_timestamp, UtcTime};
use ssdownloader::config::{config_dir_of, config_file_in, SendSafelyConfig};
use ssdownloader::crypt::{decrypt, encrypt, size_matches};
use ssdownloader::errors::{is_retryable, SsError};
use ssdownloader::keys;
use ssdownloader::link::{extract_package, parse_link};
use ssdownloader::names::{assign_names, disambiguate, render_u64};
use ssdownloader::signer::{build_headers, default_base_url, file_url, package_url};

fn ts(year: u16, month: u8, day: u8, hour: u8, minute: u8, second: u8) -> UtcTime {
    UtcTime { year, month, day, hour, minute, second }
}

#[test]
fn timestamp_fixed_instant() {
    let t = ts(2024, 1, 5, 13, 45, 9);
    assert_eq!(format_timestamp(&t), "Jan 05, 2024 1:45:09 PM");
}

#[test]
fn timestamp_midnight_is_twelve_am() {
    let t = ts(2024, 12, 31, 0, 5, 9);
    assert_eq!(format_timestamp(&t), "Dec 31, 2024 12:05:09 AM");
}

#[test]
fn timestamp_noon_is_twelve_pm() {
    let t = ts(2023, 6, 1, 12, 0, 0);
    assert_eq!(format_timestamp(&t), "Jun 01, 2023 12:00:00 PM");
}

#[test]
fn timestamp_morning_unpadded_hour() {
    let t = ts(2025, 2, 9, 7, 3, 59);
    assert_eq!(format_timestamp(&t), "Feb 09, 2025 7:03:59 AM");
}

#[test]
fn clock_time_accepts_ranges_and_rejects_the_rest() {
    assert_eq!(clock_time(2024, 1, 5, 13, 45, 9), Ok(ts(2024, 1, 5, 13, 45, 9)));
    assert_eq!(clock_time(0, 1, 5, 13, 45, 9), Err(SsError::Clock));
    assert_eq!(clock_time(10000, 1, 5, 13, 45, 9), Err(SsError::Clock));
    assert_eq!(clock_time(2024, 13, 5, 13, 45, 9), Err(SsError::Clock));
    assert_eq!(clock_time(2024, 1, 0, 13, 45, 9), Err(SsError::Clock));
    assert_eq!(clock_time(2024, 1, 5, 24, 45, 9), Err(SsError::Clock));
    assert_eq!(clock_time(2024, 1, 5, 13, 60, 9), Err(SsError::Clock));
    assert_eq!(clock_time(2024, 1, 5, 13, 45, 60), Err(SsError::Clock));
}

#[test]
fn headers_carry_key_and_timestamp() {
    let cfg = SendSafelyConfig {
        ss_api_key: "MYKEY".to_string(),
        ss_api_secret: "SECRET-REDACTED".to_string(),
    };
    let t = ts(2024, 1, 5, 13, 45, 9);
    let headers = build_headers(&cfg, &t);
    assert_eq!(headers.len(), 3);
    assert_eq!(headers[0], "Content-Type: application/json");
    assert_eq!(headers[1], "ss-api-key: MYKEY");
    assert_eq!(headers[2], "ss-request-timestamp: Jan 05, 2024 1:45:09 PM");
}

#[test]
fn url_builders() {
    let base = default_base_url();
    assert_eq!(base, "https://demo.sendsafely.com/api/v2.0");
    assert_eq!(
        package_url(&base, "PKG1"),
        "https://demo.sendsafely.com/api/v2.0/package/PKG1"
    );
    assert_eq!(
        file_url(&base, "PKG1", "F2"),
        "https://demo.sendsafely.com/api/v2.0/package/PKG1/file/F2"
    );
}

#[test]
fn valid_link_parses() {
    let url = "https://demo.sendsafely.com/receive/?thread=t1&packageCode=PKG123#keyCode=KEY456";
    let pl = parse_link(url).unwrap();
    assert_eq!(pl.package_code, "PKG123");
    assert_eq!(pl.keycode_fragment, "KEY456");
    assert!(!pl.package_code.is_empty());
    assert!(!pl.keycode_fragment.is_empty());
}

#[test]
fn valid_link_values_cut_at_ampersand() {
    let url = "https://acme.sendsafely.com/receive/?packageCode=AB12&foo=bar#keyCode=K1&x=2";
    let pl = parse_link(url).unwrap();
    assert_eq!(pl.package_code, "AB12");
    assert_eq!(pl.keycode_fragment, "K1");
}

#[test]
fn bare_host_accepted() {
    let url = "https://sendsafely.com/receive/?packageCode=P#keyCode=K";
    let pl = parse_link(url).unwrap();
    assert_eq!(pl.package_code, "P");
}

#[test]
fn missing_fragment_is_invalid() {
    let url = "https://demo.sendsafely.com/receive/?packageCode=PKG123";
    assert!(matches!(parse_link(url), Err(SsError::InvalidLink)));
}

#[test]
fn wrong_host_is_invalid() {
    let url = "https://evil.example.com/receive/?packageCode=P#keyCode=K";
    assert!(matches!(parse_link(url), Err(SsError::InvalidLink)));
    let lookalike = "https://evilsendsafely.com/receive/?packageCode=P#keyCode=K";
    assert!(matches!(parse_link(lookalike), Err(SsError::InvalidLink)));
}

#[test]
fn missing_or_empty_values_are_invalid() {
    let no_code = "https://demo.sendsafely.com/receive/?thread=t#keyCode=K";
    assert!(matches!(parse_link(no_code), Err(SsError::InvalidLink)));
    let empty_key = "https://demo.sendsafely.com/receive/?packageCode=P#keyCode=";
    assert!(matches!(parse_link(empty_key), Err(SsError::InvalidLink)));
    let not_https = "http://demo.sendsafely.com/receive/?packageCode=P#keyCode=K";
    assert!(matches!(parse_link(not_https), Err(SsError::InvalidLink)));
}

#[test]
fn extract_package_on_valid_and_invalid() {
    let url = "https://demo.sendsafely.com/receive/?packageCode=PKG9#keyCode=KC";
    assert_eq!(extract_package(url.to_string()), "PKG9");
    assert_eq!(extract_package("garbage".to_string()), "");
}

#[test]
fn derive_is_deterministic() {
    let k1 = keys::derive("FRAGMENT-one", "SERVER_secret1").unwrap();
    let k2 = keys::derive("FRAGMENT-one", "SERVER_secret1").unwrap();
    assert_eq!(k1.bytes, k2.bytes);
    assert_eq!(k1.bytes.len(), 32);
}

#[test]
fn derive_differs_on_either_input() {
    let base = keys::derive("FRAGMENT-one", "SERVER_secret1").unwrap();
    let other_frag = keys::derive("FRAGMENT-two", "SERVER_secret1").unwrap();
    let other_secret = keys::derive("FRAGMENT-one", "SERVER_secret2").unwrap();
    assert_ne!(base.bytes, other_frag.bytes);
    assert_ne!(base.bytes, other_secret.bytes);
}

#[test]
fn derive_split_point_matters() {
    let a = keys::derive("ab", "c").unwrap();
    let b = keys::derive("a", "bc").unwrap();
    assert_ne!(a.bytes, b.bytes);
}

#[test]
fn derive_resists_compensating_character_changes() {
    // Raising one character while lowering its neighbour must not cancel
    // out in the key schedule, for any secret.
    for secret in ["SECRETx", "A", "zz9_-", "SERVER_secret1"] {
        let a = keys::derive("ac", secret).unwrap();
        let b = keys::derive("bD", secret).unwrap();
        assert_ne!(a.bytes, b.bytes);
    }
    let a = keys::derive("FRAG", "ac").unwrap();
    let b = keys::derive("FRAG", "bD").unwrap();
    assert_ne!(a.bytes, b.bytes);
}

#[test]
fn derive_rejects_empty_or_malformed() {
    assert!(matches!(keys::derive("", "SECRET"), Err(SsError::KeyDerivation)));
    assert!(matches!(keys::derive("FRAG", ""), Err(SsError::KeyDerivation)));
    assert!(matches!(keys::derive("FRAG!", "SECRET"), Err(SsError::KeyDerivation)));
    assert!(matches!(keys::derive("FRAG", "SEC RET"), Err(SsError::KeyDerivation)));
}

#[test]
fn wipe_zeroes_key() {
    let mut k = keys::derive("FRAGMENT-one", "SERVER_secret1").unwrap();
    k.wipe();
    assert_eq!(k.bytes, vec![0u8; 32]);
}

#[test]
fn encrypt_decrypt_round_trip() {
    let key = keys::derive("FRAGMENT-one", "SERVER_secret1").unwrap();
    let plain: Vec<u8> = b"a known plaintext, long enough to cross the key length boundary \
                           0123456789 0123456789 0123456789"
        .to_vec();
    let cipher = encrypt(&plain, &key);
    assert_eq!(cipher.len(), plain.len() + 8);
    assert_ne!(&cipher[..plain.len()], &plain[..]);
    let back = decrypt(&cipher, &key).unwrap();
    assert_eq!(back, plain);
}

#[test]
fn decrypt_with_wrong_key_fails() {
    let key = keys::derive("FRAGMENT-one", "SERVER_secret1").unwrap();
    let wrong = keys::derive("FRAGMENT-two", "SERVER_secret1").unwrap();
    let plain: Vec<u8> = b"sensitive contents".to_vec();
    let cipher = encrypt(&plain, &key);
    assert_eq!(decrypt(&cipher, &wrong).unwrap_err(), SsError::Integrity);
}

#[test]
fn decrypt_short_file_with_high_key_byte_flipped_fails() {
    // Every key byte must influence the tag: flipping a single key byte
    // beyond the ones the keystream touches for a short file still makes
    // decryption fail.
    let key = keys::derive("FRAGMENT-one", "SERVER_secret1").unwrap();
    let plain: Vec<u8> = b"short".to_vec();
    let cipher = encrypt(&plain, &key);
    for flip in [8usize, 20, 31] {
        let mut wb = key.bytes.clone();
        wb[flip] ^= 1;
        let wrong = keys::DecryptionKey { bytes: wb };
        assert_eq!(decrypt(&cipher, &wrong).unwrap_err(), SsError::Integrity);
    }
}

#[test]
fn decrypt_tampered_or_truncated_fails() {
    let key = keys::derive("FRAGMENT-one", "SERVER_secret1").unwrap();
    let plain: Vec<u8> = b"sensitive contents".to_vec();
    let mut cipher = encrypt(&plain, &key);
    cipher[3] ^= 0x40;
    assert_eq!(decrypt(&cipher, &key).unwrap_err(), SsError::Integrity);
    let short: Vec<u8> = vec![1, 2, 3];
    assert_eq!(decrypt(&short, &key).unwrap_err(), SsError::Integrity);
}

#[test]
fn size_check() {
    let v: Vec<u8> = vec![0; 10];
    assert!(size_matches(&v, 10));
    assert!(!size_matches(&v, 11));
}

#[test]
fn retryable_is_only_transient() {
    assert!(is_retryable(&SsError::Transient));
    assert!(!is_retryable(&SsError::Auth));
    assert!(!is_retryable(&SsError::NotFound));
    assert!(!is_retryable(&SsError::InvalidLink));
    assert!(!is_retryable(&SsError::KeyDerivation));
    assert!(!is_retryable(&SsError::Integrity));
    assert!(!is_retryable(&SsError::Protocol));
    assert!(!is_retryable(&SsError::Clock));
}

#[test]
fn render_numbers() {
    assert_eq!(render_u64(0), "0");
    assert_eq!(render_u64(7), "7");
    assert_eq!(render_u64(42), "42");
    assert_eq!(render_u64(1205), "1205");
}

#[test]
fn names_free_name_kept() {
    let used: Vec<String> = vec!["other.txt".to_string()];
    assert_eq!(disambiguate("report.txt", &used), "report.txt");
}

#[test]
fn names_collision_gets_counter() {
    let used: Vec<String> = vec!["report.txt".to_string()];
    assert_eq!(disambiguate("report.txt", &used), "report.txt.1");
}

#[test]
fn names_two_files_same_declared_name() {
    let declared: Vec<String> = vec!["a.txt".to_string(), "a.txt".to_string()];
    let finals = assign_names(&declared);
    assert_eq!(finals, vec!["a.txt".to_string(), "a.txt.1".to_string()]);
    assert_ne!(finals[0], finals[1]);
}

#[test]
fn names_three_way_collision_all_distinct() {
    let declared: Vec<String> =
        vec!["a".to_string(), "a".to_string(), "a.1".to_string(), "a".to_string()];
    let finals = assign_names(&declared);
    for i in 0..finals.len() {
        for j in 0..i {
            assert_ne!(finals[i], finals[j]);
        }
    }
    assert_eq!(finals[0], "a");
    assert_eq!(finals[1], "a.1");
}

#[test]
fn config_paths() {
    assert_eq!(config_dir_of("/home/u"), "/home/u/.config/ssdownloader");
    assert_eq!(
        config_file_in("/home/u", "ssendsafely.toml"),
        "/home/u/.config/ssdownloader/ssendsafely.toml"
    );
    assert_eq!(
        config_file_in("/home/u", "zendesk.toml"),
        "/home/u/.config/ssdownloader/zendesk.toml"
    );
}
