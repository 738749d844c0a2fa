use octoling::lxc::{build_create_argv, parse_image_spec};
use octoling::provider::ProviderError;

#[test]
fn four_tokens_parse() {
    let s = parse_image_spec("download:debian:bullseye:amd64").unwrap();
    assert_eq!(s.template, "download");
    assert_eq!(s.dist, "debian");
    assert_eq!(s.release, "bullseye");
    assert_eq!(s.arch, "amd64");
}

#[test]
fn extra_tokens_are_ignored() {
    let s = parse_image_spec("download:debian:bullseye:amd64:extra:more").unwrap();
    assert_eq!(s.template, "download");
    assert_eq!(s.arch, "amd64");
}

#[test]
fn three_tokens_are_invalid() {
    assert_eq!(
        parse_image_spec("download:debian:bullseye").unwrap_err(),
        ProviderError::InvalidImage
    );
}

#[test]
fn empty_spec_is_invalid() {
    assert_eq!(
        parse_image_spec("").unwrap_err(),
        ProviderError::InvalidImage
    );
    assert_eq!(
        parse_image_spec("plain").unwrap_err(),
        ProviderError::InvalidImage
    );
}

#[test]
fn empty_tokens_are_tokens() {
    let s = parse_image_spec(":::").unwrap();
    assert_eq!(s.template, "");
    assert_eq!(s.dist, "");
    assert_eq!(s.release, "");
    assert_eq!(s.arch, "");
}

#[test]
fn create_argv_layout() {
    let s = parse_image_spec("download:debian:bullseye:amd64").unwrap();
    let argv = build_create_argv(&s);
    assert_eq!(
        argv,
        vec!["--dist", "debian", "--release", "bullseye", "--arch", "amd64"]
    );
}
