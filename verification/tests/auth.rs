use spud::config::{extract_salt, hash_passphrase, hash_passphrase_with_salt};
use spud::net::auth::{client_compute_response, generate_challenge, server_compute_expected, server_verify_response};

#[test]
fn auth_roundtrip() {
    let passphrase = "correct horse battery staple";
    let stored_phc = hash_passphrase(passphrase);
    assert!(!stored_phc.is_empty(), "PHC hash should not be empty");

    let challenge = generate_challenge();
    let client_response =
        client_compute_response(passphrase, &stored_phc, &challenge).expect("client should compute response");
    let expected = server_compute_expected(&stored_phc, &challenge).expect("server should compute expected");

    assert_eq!(client_response, expected, "client and server HMACs should match");
    assert!(server_verify_response(&stored_phc, &challenge, &client_response));
}

#[test]
fn auth_wrong_passphrase_fails() {
    let stored_phc = hash_passphrase("right password");
    let challenge = generate_challenge();
    let client_response = client_compute_response("wrong password", &stored_phc, &challenge)
        .expect("client should compute response even with wrong password");

    assert!(!server_verify_response(&stored_phc, &challenge, &client_response));
}

#[test]
fn hash_records_its_salt() {
    let h = hash_passphrase_with_salt("pw", "c29tZXNhbHQ").expect("hashing should succeed");
    assert!(h.starts_with("$argon2id$"));
    assert_eq!(extract_salt(&h).as_deref(), Some("c29tZXNhbHQ"));
    let again = hash_passphrase_with_salt("pw", "c29tZXNhbHQ").unwrap();
    assert_eq!(h, again);
    let other = hash_passphrase_with_salt("pw2", "c29tZXNhbHQ").unwrap();
    assert_ne!(h, other);
}

#[test]
fn bad_phc_gives_no_response() {
    let challenge = [7u8; 32];
    assert_eq!(client_compute_response("pw", "not a phc string", &challenge), None);
    assert_eq!(server_compute_expected("not a phc string", &challenge), None);
    assert!(!server_verify_response("not a phc string", &challenge, &[0u8; 32]));
}

#[test]
fn two_hashes_use_fresh_salts() {
    let a = hash_passphrase("same");
    let b = hash_passphrase("same");
    assert_ne!(extract_salt(&a), extract_salt(&b));
}
