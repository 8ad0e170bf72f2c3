use connector_ftx::codec::decimal_string;
use connector_ftx::ftx_auth_settings::FtxAuthSettings;

fn settings(secret: &str) -> FtxAuthSettings {
    FtxAuthSettings { api_key: "key".to_string(), api_secret: secret.to_string(), subaccount: None }
}

#[test]
fn decimal_string_of_single_digits() {
    assert_eq!(decimal_string(0), "0");
    assert_eq!(decimal_string(7), "7");
    assert_eq!(decimal_string(9), "9");
}

#[test]
fn decimal_string_of_longer_numbers() {
    assert_eq!(decimal_string(10), "10");
    assert_eq!(decimal_string(1234567890), "1234567890");
    assert_eq!(decimal_string(1557246346499), "1557246346499");
    assert_eq!(decimal_string(u64::MAX as u128), "18446744073709551615");
    assert_eq!(decimal_string(u128::MAX), "340282366920938463463374607431768211455");
}

#[test]
fn decimal_string_agrees_with_the_standard_formatter() {
    let mut n: u128 = 1;
    for _ in 0..127 {
        assert_eq!(decimal_string(n), n.to_string());
        assert_eq!(decimal_string(n - 1), (n - 1).to_string());
        n *= 2;
    }
}

#[test]
fn generate_sign_matches_the_documented_login_signature() {
    let auth = settings("Y2QTHI23f23f23jfjas23f23To0RfUwX3H42fvN-");
    assert_eq!(
        auth.generate_sign("websocket_login", 1557246346499),
        "d10b5a67a1a941ae9463a60b285ae845cdeac1b11edc7da9977bef0228b96de9"
    );
}

#[test]
fn generate_sign_known_values() {
    assert_eq!(
        settings("secret").generate_sign("websocket_login", 1557246346499),
        "b94cff7e4e8d45118550921d8a77393e5b87e26a72052a35da6972f79be26047"
    );
    assert_eq!(
        settings("s").generate_sign("", 0),
        "6378380f77bca1cb01a32087f879f28d37bd4acbd8a9532b8115d074c1a173f1"
    );
    assert_eq!(
        settings("päss wörd").generate_sign("GET/api/markets", u128::MAX),
        "65830c9b2890d2f4570669786ccd968c57a33d3af9d36994123b807db4bc8c6d"
    );
}

#[test]
fn generate_sign_is_lowercase_hex_of_thirty_two_bytes() {
    let sign = settings("secret").generate_sign("websocket_login", 42);
    assert_eq!(sign.len(), 64);
    assert!(sign.chars().all(|c| c.is_ascii_digit() || ('a'..='f').contains(&c)));
}

#[test]
fn generate_sign_twice_gives_one_signature_of_sixty_four_hex_digits() {
    let auth =
        FtxAuthSettings { api_key: "k".to_string(), api_secret: "s".to_string(), subaccount: None };
    let first = auth.generate_sign("websocket_login", 1557246346499);
    let second = auth.generate_sign("websocket_login", 1557246346499);
    assert_eq!(first, second);
    assert_eq!(first.len(), 64);
    assert!(first.chars().all(|c| c.is_ascii_digit() || ('a'..='f').contains(&c)));
    assert_eq!(auth.api_key, "k");
    assert_eq!(auth.api_secret, "s");
    assert_eq!(auth.subaccount, None);
}

#[test]
fn generate_sign_is_deterministic() {
    let first = settings("secret").generate_sign("websocket_login", 1650000000000);
    let second = settings("secret").generate_sign("websocket_login", 1650000000000);
    assert_eq!(first, second);
}

#[test]
fn generate_sign_depends_on_every_input() {
    let base = settings("secret").generate_sign("websocket_login", 1650000000000);
    assert_ne!(base, settings("secret").generate_sign("websocket_login", 1650000000001));
    assert_ne!(base, settings("secret").generate_sign("websocket_logout", 1650000000000));
    assert_ne!(base, settings("Secret").generate_sign("websocket_login", 1650000000000));
}

#[test]
fn generate_sign_ignores_key_and_subaccount() {
    let plain = settings("secret");
    let other = FtxAuthSettings {
        api_key: "another key".to_string(),
        api_secret: "secret".to_string(),
        subaccount: Some("desk".to_string()),
    };
    assert_eq!(plain.generate_sign("websocket_login", 5), other.generate_sign("websocket_login", 5));
}

#[test]
fn generate_timestamp_reads_a_clock_past_the_epoch() {
    let first = FtxAuthSettings::generate_timestamp().expect("clock before the epoch");
    let second = FtxAuthSettings::generate_timestamp().expect("clock before the epoch");
    // 2020-01-01 in milliseconds.
    assert!(first > 1_577_836_800_000);
    assert!(second >= first);
}

#[test]
fn sign_from_mac_is_lowercase_hex_high_half_first() {
    assert_eq!(FtxAuthSettings::sign_from_mac(&[]), "");
    assert_eq!(FtxAuthSettings::sign_from_mac(&[0x00]), "00");
    assert_eq!(FtxAuthSettings::sign_from_mac(&[0x0f, 0xf0]), "0ff0");
    assert_eq!(FtxAuthSettings::sign_from_mac(&[1, 2, 3, 15, 16]), "0102030f10");
    assert_eq!(FtxAuthSettings::sign_from_mac(b"Hello world!"), "48656c6c6f20776f726c6421");
    assert_eq!(
        FtxAuthSettings::sign_from_mac(&[0x9a, 0xbc, 0xde, 0xff, 0x7f, 0x80]),
        "9abcdeff7f80"
    );
}

#[test]
fn sign_from_mac_covers_every_byte() {
    let digits = "0123456789abcdef".as_bytes();
    for byte in 0..=255u8 {
        let expected: String =
            [digits[(byte / 16) as usize] as char, digits[(byte % 16) as usize] as char]
                .iter()
                .collect();
        assert_eq!(FtxAuthSettings::sign_from_mac(&[byte]), expected);
    }
}
