use jupyter_client::signer::Signer;

#[test]
fn test_signing() {
    let signer = Signer::new(b"foobar".to_vec(), "hmac-sha256").unwrap();
    let data = vec![b"a".to_vec(), b"b".to_vec()];
    let _signature = signer.compute(&data);
}

#[test]
fn signature_matches_known_hmac_vector() {
    // HMAC-SHA-256 test vector: key "Jefe", data "what do ya want for nothing?".
    let signer = Signer::new(b"Jefe".to_vec(), "hmac-sha256").unwrap();
    let frames = vec![b"what do ya want for nothing?".to_vec()];
    let sig = signer.compute(&frames);
    assert_eq!(sig, "5bdcc146bf60754e6a042426089575c75a003f089d2739839dec58b964ec3843");
}

#[test]
fn signature_is_over_concatenation_of_frames() {
    // Splitting the message across frames must not change the tag.
    let signer = Signer::new(b"Jefe".to_vec(), "hmac-sha256").unwrap();
    let frames = vec![b"what do ya want ".to_vec(), b"for nothing?".to_vec()];
    let sig = signer.compute(&frames);
    assert_eq!(sig, "5bdcc146bf60754e6a042426089575c75a003f089d2739839dec58b964ec3843");
}

#[test]
fn empty_key_yields_empty_signature() {
    let signer = Signer::new(Vec::new(), "hmac-sha256").unwrap();
    let frames = vec![b"{}".to_vec(), b"{}".to_vec()];
    assert_eq!(signer.compute(&frames), "");
    assert!(signer.verify(&frames, b""));
    assert!(!signer.verify(&frames, b"deadbeef"));
}

#[test]
fn unsupported_scheme_is_a_config_error() {
    let r = Signer::new(b"foobar".to_vec(), "hmac-sha512");
    assert!(matches!(r, Err(jupyter_client::errors::Error::ConfigError)));
}

#[test]
fn verify_accepts_only_the_computed_tag() {
    let signer = Signer::new(b"foobar".to_vec(), "hmac-sha256").unwrap();
    let frames = vec![b"{\"a\":1}".to_vec()];
    let sig = signer.compute(&frames);
    assert_eq!(sig.len(), 64);
    assert!(sig.bytes().all(|b| b.is_ascii_hexdigit() && !b.is_ascii_uppercase()));
    assert!(signer.verify(&frames, sig.as_bytes()));
    let mut wrong = sig.into_bytes();
    wrong[0] = if wrong[0] == b'0' { b'1' } else { b'0' };
    assert!(!signer.verify(&frames, &wrong));
}
