use hmac::{Hmac, KeyInit, Mac};
use octoling::config::GithubConfig;
use octoling::webhook::{auth_status, authenticate, parse_signature_header, AuthOutcome};
use sha2::Sha256;

fn account(owner: &str, repo: &str, token: &str, secret: &str) -> GithubConfig {
    GithubConfig {
        owner: String::from(owner),
        repository: String::from(repo),
        api_token: String::from(token),
        webhook_secret: String::from(secret),
        enabled: true,
    }
}

fn sign(secret: &str, body: &[u8]) -> String {
    let mut mac = <Hmac<Sha256> as KeyInit>::new_from_slice(secret.as_bytes()).unwrap();
    mac.update(body);
    format!("sha256={}", hex::encode(mac.finalize().into_bytes()))
}

#[test]
fn short_header_is_rejected_before_hmac() {
    // 70 characters in all: one hex digit short.
    let header = format!("sha256={}", "0".repeat(63));
    assert_eq!(header.len(), 70);
    assert!(parse_signature_header(&header).is_none());
    let accounts = vec![account("acme", "widgets", "T", "shh")];
    assert!(matches!(
        authenticate(&accounts, &header, b"{}"),
        AuthOutcome::BadSignature
    ));
}

#[test]
fn long_header_is_rejected_before_hmac() {
    let header = format!("sha256={}", "0".repeat(65));
    assert_eq!(header.len(), 72);
    assert!(parse_signature_header(&header).is_none());
    let accounts = vec![account("acme", "widgets", "T", "shh")];
    assert!(matches!(
        authenticate(&accounts, &header, b"{}"),
        AuthOutcome::BadSignature
    ));
}

#[test]
fn missing_prefix_is_rejected() {
    // Right length, wrong prefix.
    let header = format!("sha512={}", "0".repeat(64));
    assert_eq!(header.len(), 71);
    assert!(parse_signature_header(&header).is_none());
    let accounts = vec![account("acme", "widgets", "T", "shh")];
    assert!(matches!(
        authenticate(&accounts, &header, b"{}"),
        AuthOutcome::BadSignature
    ));
}

#[test]
fn non_hex_suffix_is_rejected() {
    let header = format!("sha256={}z", "0".repeat(63));
    assert_eq!(header.len(), 71);
    assert!(parse_signature_header(&header).is_none());
}

#[test]
fn hex_suffix_is_decoded() {
    let header = format!("sha256=00ff{}Ab", "10".repeat(29));
    let decoded = parse_signature_header(&header).unwrap();
    assert_eq!(decoded.len(), 32);
    assert_eq!(decoded[0], 0x00);
    assert_eq!(decoded[1], 0xff);
    assert_eq!(decoded[2], 0x10);
    assert_eq!(decoded[30], 0x10);
    assert_eq!(decoded[31], 0xab);
}

#[test]
fn valid_signature_is_accepted_for_matching_account() {
    let accounts = vec![
        account("other", "repo", "T2", "different-secret"),
        account("acme", "widgets", "T", "shh"),
    ];
    let body = br#"{"action":"queued"}"#;
    let header = sign("shh", body);
    match authenticate(&accounts, &header, body) {
        AuthOutcome::Authenticated(i) => assert_eq!(i, 1),
        _ => panic!("expected authentication to succeed"),
    }
}

#[test]
fn bad_signature_is_unauthorized() {
    // A well-formed header whose digest no secret produces: 64 zeros.
    let accounts = vec![account("acme", "widgets", "T", "shh")];
    let header = format!("sha256={}", "0".repeat(64));
    let outcome = authenticate(&accounts, &header, br#"{"action":"queued"}"#);
    assert!(matches!(outcome, AuthOutcome::Unauthorized));
    assert_eq!(auth_status(&outcome), 401);
}

#[test]
fn signature_of_other_body_is_unauthorized() {
    let accounts = vec![account("acme", "widgets", "T", "shh")];
    let header = sign("shh", b"other body");
    assert!(matches!(
        authenticate(&accounts, &header, b"this body"),
        AuthOutcome::Unauthorized
    ));
}

#[test]
fn first_account_with_matching_secret_wins() {
    let accounts = vec![
        account("acme", "widgets", "T1", "shh"),
        account("acme", "gadgets", "T2", "shh"),
    ];
    let body = b"payload";
    let header = sign("shh", body);
    match authenticate(&accounts, &header, body) {
        AuthOutcome::Authenticated(i) => assert_eq!(i, 0),
        _ => panic!("expected authentication to succeed"),
    }
}

#[test]
fn no_accounts_means_unauthorized() {
    let accounts: Vec<GithubConfig> = Vec::new();
    let header = format!("sha256={}", "0".repeat(64));
    assert!(matches!(
        authenticate(&accounts, &header, b"{}"),
        AuthOutcome::Unauthorized
    ));
}

#[test]
fn auth_status_codes() {
    let accounts = vec![account("acme", "widgets", "T", "shh")];
    let body = b"x";
    let ok = authenticate(&accounts, &sign("shh", body), body);
    assert_eq!(auth_status(&ok), 200);
    let bad = authenticate(&accounts, "nonsense", body);
    assert_eq!(auth_status(&bad), 400);
}
