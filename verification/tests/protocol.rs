use ibe_chl::chl::{client_login, compute_s_and_t, register, server_login, setup};
use ibe_chl::Error;
use rand_core::{OsRng, RngCore};

fn fresh_bytes() -> [u8; 32] {
    let mut b = [0u8; 32];
    OsRng.fill_bytes(&mut b);
    b
}

#[test]
fn test_chl_basic() {
    let seed = fresh_bytes();
    let (pp, sk) = setup(&seed);
    let password_file = register(sk, b"uid1", b"password1");
    let sigma = fresh_bytes();
    let alpha = client_login(&pp, b"ssid1", b"tok1", b"uid1", b"password1", &sigma);
    let result = server_login(&pp, b"ssid1", &password_file, &alpha);

    assert_eq!(result.is_ok(), true);
    assert_eq!(result.unwrap(), b"tok1");
}

#[test]
fn test_wrong_password_rejected() {
    let seed = fresh_bytes();
    let (pp, sk) = setup(&seed);
    let password_file = register(sk, b"uid1", b"password1");
    let sigma = fresh_bytes();
    let alpha = client_login(&pp, b"ssid1", b"tok1", b"uid1", b"password2", &sigma);
    let result = server_login(&pp, b"ssid1", &password_file, &alpha);

    assert_eq!(result, Err(Error::AuthenticationFailure));
}

#[test]
fn test_session_binding() {
    let seed = fresh_bytes();
    let (pp, sk) = setup(&seed);
    let password_file = register(sk, b"uid1", b"password1");
    let sigma = fresh_bytes();
    let alpha = client_login(&pp, b"ssid1", b"tok1", b"uid1", b"password1", &sigma);
    // The same message replayed against another session identifier of the
    // same length fails.
    let replay = server_login(&pp, b"ssid2", &password_file, &alpha);
    assert_eq!(replay, Err(Error::AuthenticationFailure));
    // The original session still accepts it.
    let original = server_login(&pp, b"ssid1", &password_file, &alpha);
    assert_eq!(original.unwrap(), b"tok1");
}

#[test]
fn test_session_id_too_short() {
    let seed = fresh_bytes();
    let (pp, sk) = setup(&seed);
    let password_file = register(sk, b"uid1", b"password1");
    let sigma = fresh_bytes();
    // Payload holds the secret, a one-byte session identifier and no token;
    // a server expecting a longer identifier finds the payload too short.
    let alpha = client_login(&pp, b"s", b"", b"uid1", b"password1", &sigma);
    let result = server_login(&pp, b"longer-ssid", &password_file, &alpha);
    assert_eq!(result, Err(Error::SessionIdTooShort));
}

#[test]
fn test_empty_token_round_trip() {
    let seed = fresh_bytes();
    let (pp, sk) = setup(&seed);
    let password_file = register(sk, b"u", b"p");
    let sigma = fresh_bytes();
    let alpha = client_login(&pp, b"session", b"", b"u", b"p", &sigma);
    let result = server_login(&pp, b"session", &password_file, &alpha);
    assert_eq!(result.unwrap(), b"");
}

#[test]
fn test_compute_s_and_t_values() {
    // The two halves of the 64-byte sponge output on b"uid1password1".
    let (s, t) = compute_s_and_t(b"uid1", b"password1");
    let expected_s: Vec<u8> = vec![
        36, 8, 232, 42, 198, 227, 190, 188, 119, 99, 172, 96, 168, 39, 117, 200, 235, 136, 92,
        97, 11, 86, 95, 121, 93, 69, 181, 45, 133, 62, 144, 224,
    ];
    let expected_t: Vec<u8> = vec![
        47, 77, 169, 163, 22, 3, 172, 2, 70, 114, 140, 10, 97, 22, 2, 23, 210, 191, 54, 73, 172,
        64, 241, 103, 12, 97, 225, 221, 47, 60, 20, 20,
    ];
    assert_eq!(s, expected_s);
    assert_eq!(t, expected_t);
}

#[test]
fn test_register_tag_value() {
    let seed = fresh_bytes();
    let (_pp, sk) = setup(&seed);
    let password_file = register(sk, b"uid1", b"password1");
    // The stored tag is the 32-byte hash of the registration secret t, not
    // t itself.
    let expected_tag: Vec<u8> = vec![
        47, 232, 150, 36, 59, 96, 212, 243, 201, 44, 40, 103, 76, 101, 43, 200, 12, 156, 51, 243,
        184, 193, 101, 136, 196, 50, 198, 77, 165, 130, 163, 108,
    ];
    assert_eq!(password_file.tag, expected_tag);
    let (_s, t) = compute_s_and_t(b"uid1", b"password1");
    assert_ne!(password_file.tag, t);
}
