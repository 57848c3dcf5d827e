use activitypub_core::error::FederationError;
use activitypub_core::signature::{digest_header, request_target, sign, sign_at, signature_header, signing_string};
use activitypub_core::user_repository::{InMemoryUserRepository, UserRepository};
use openssl::bn::BigNum;
use openssl::hash::MessageDigest;
use openssl::pkey::PKey;
use openssl::rsa::Rsa;
use openssl::sign::Verifier;

#[test]
fn digest_of_empty_body() {
    assert_eq!(digest_header(b""), "SHA-256=47DEQpj8HBSa+/TImW+5JCeuQeRkm5NMpJWZG3hSuFU=");
}

#[test]
fn digest_of_hello() {
    assert_eq!(digest_header(b"hello"), "SHA-256=LPJNul+wow4m6DsqxbninhsWHlwfp0JecwQzYpOLmCQ=");
}

#[test]
fn request_target_lowercases_method() {
    assert_eq!(request_target("POST", "/inbox?page=2"), "post /inbox?page=2");
    assert_eq!(request_target("get", "/"), "get /");
}

#[test]
fn signing_string_layout() {
    assert_eq!(
        signing_string("post /inbox", "remote.example", "Tue, 07 Jun 2022 20:51:35 GMT", "SHA-256=abc"),
        "(request-target): post /inbox\nhost: remote.example\ndate: Tue, 07 Jun 2022 20:51:35 GMT\ndigest: SHA-256=abc"
    );
}

#[test]
fn signature_header_layout() {
    assert_eq!(
        signature_header("https://example.com/users/alice#main-key", &[1, 2, 3]),
        "keyId=\"https://example.com/users/alice#main-key\",algorithm=\"rsa-sha256\",headers=\"(request-target) host date digest\",signature=\"AQID\""
    );
}

fn signature_bytes(header: &str) -> Vec<u8> {
    let start = header.find("signature=\"").unwrap() + "signature=\"".len();
    let b64 = &header[start..header.len() - 1];
    openssl::base64::decode_block(b64).unwrap()
}

fn verifies(public_der: &[u8], signed: &str, signature: &[u8]) -> bool {
    let key = PKey::from_rsa(Rsa::public_key_from_der(public_der).unwrap()).unwrap();
    let mut verifier = Verifier::new(MessageDigest::sha256(), &key).unwrap();
    verifier.verify_oneshot(signature, signed.as_bytes()).unwrap()
}

const DATE: &str = "Tue, 07 Jun 2022 20:51:35 GMT";

#[test]
fn sign_produces_verifiable_signature() {
    let repo = InMemoryUserRepository::new("example.com".to_string());
    let u = repo.get_user("alice").unwrap();
    let body = b"{\"type\":\"Create\"}";
    let h = sign("POST", "/inbox", "remote.example", DATE, body, "kid", &u.private_key).unwrap();
    assert_eq!(h.date, DATE);
    assert_eq!(h.digest, digest_header(body));
    assert!(h.signature.starts_with("keyId=\"kid\",algorithm=\"rsa-sha256\",headers=\"(request-target) host date digest\",signature=\""));
    let signed = signing_string("post /inbox", "remote.example", DATE, &h.digest);
    assert!(verifies(&u.public_key, &signed, &signature_bytes(&h.signature)));
}

#[test]
fn signing_same_body_twice_gives_same_digest() {
    let repo = InMemoryUserRepository::new("example.com".to_string());
    let u = repo.get_user("alice").unwrap();
    let a = sign("POST", "/inbox", "h1", DATE, b"body", "k", &u.private_key).unwrap();
    let b = sign("POST", "/other", "h2", "Wed, 08 Jun 2022 00:00:00 GMT", b"body", "k2", &u.private_key).unwrap();
    assert_eq!(a.digest, b.digest);
}

#[test]
fn changed_body_fails_verification() {
    let repo = InMemoryUserRepository::new("example.com".to_string());
    let u = repo.get_user("alice").unwrap();
    let h = sign("POST", "/inbox", "remote.example", DATE, b"original", "kid", &u.private_key).unwrap();
    let changed = digest_header(b"tampered");
    assert_ne!(changed, h.digest);
    let signed = signing_string("post /inbox", "remote.example", DATE, &changed);
    assert!(!verifies(&u.public_key, &signed, &signature_bytes(&h.signature)));
}

#[test]
fn sign_with_bad_key_fails() {
    let r = sign("POST", "/inbox", "remote.example", DATE, b"x", "kid", &[0, 1, 2]);
    assert_eq!(r.err(), Some(FederationError::SigningFailed));
}

#[test]
fn sign_at_dates_in_utc() {
    let repo = InMemoryUserRepository::new("example.com".to_string());
    let u = repo.get_user("alice").unwrap();
    let h = sign_at("POST", "/inbox", "remote.example", 1654635095, b"x", "kid", &u.private_key).unwrap();
    assert_eq!(h.date, "Tue, 07 Jun 2022 20:51:35 GMT");
    let leap = sign_at("POST", "/inbox", "remote.example", 951782400, b"x", "kid", &u.private_key).unwrap();
    assert_eq!(leap.date, "Tue, 29 Feb 2000 00:00:00 GMT");
    let epoch = sign_at("POST", "/inbox", "remote.example", 0, b"x", "kid", &u.private_key).unwrap();
    assert_eq!(epoch.date, "Thu, 01 Jan 1970 00:00:00 GMT");
    let plain = sign("POST", "/inbox", "remote.example", "Tue, 07 Jun 2022 20:51:35 GMT", b"x", "kid", &u.private_key).unwrap();
    assert_eq!(plain.signature, h.signature);
}

#[test]
fn sign_at_rejects_unrepresentable_instant() {
    let repo = InMemoryUserRepository::new("example.com".to_string());
    let u = repo.get_user("alice").unwrap();
    let r = sign_at("POST", "/inbox", "remote.example", i64::MAX, b"x", "kid", &u.private_key);
    assert_eq!(r.err(), Some(FederationError::SigningFailed));
}

#[test]
fn sign_with_inconsistent_key_fails() {
    let repo = InMemoryUserRepository::new("example.com".to_string());
    let u = repo.get_user("alice").unwrap();
    let k = Rsa::private_key_from_der(&u.private_key).unwrap();
    let mut d = BigNum::new().unwrap();
    d.checked_add(k.d(), &BigNum::from_u32(2).unwrap()).unwrap();
    let broken = Rsa::from_private_components(
        k.n().to_owned().unwrap(),
        k.e().to_owned().unwrap(),
        d,
        k.p().unwrap().to_owned().unwrap(),
        k.q().unwrap().to_owned().unwrap(),
        k.dmp1().unwrap().to_owned().unwrap(),
        k.dmq1().unwrap().to_owned().unwrap(),
        k.iqmp().unwrap().to_owned().unwrap(),
    )
    .unwrap();
    let der = broken.private_key_to_der().unwrap();
    let r = sign("POST", "/inbox", "remote.example", DATE, b"x", "kid", &der);
    assert_eq!(r.err(), Some(FederationError::SigningFailed));
}
