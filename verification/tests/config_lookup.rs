use octoling::config::{
    get_github_config_by_owner_and_repo, get_image_config_by_label, image_labels_contain, Config,
    GithubConfig, ImageConfig, SERVER_VERSION, SHA256_SIZE,
};

fn account(owner: &str, repo: &str, token: &str, secret: &str) -> GithubConfig {
    GithubConfig {
        owner: String::from(owner),
        repository: String::from(repo),
        api_token: String::from(token),
        webhook_secret: String::from(secret),
        enabled: true,
    }
}

fn image(id: &str, labels: &[&str]) -> ImageConfig {
    ImageConfig {
        name: String::from("download:debian:bullseye:amd64"),
        id: String::from(id),
        provider_id: String::from("lxc1"),
        enabled: true,
        labels: labels.iter().map(|l| String::from(*l)).collect(),
    }
}

#[test]
fn constants() {
    assert_eq!(SHA256_SIZE, 32);
    assert_eq!(SERVER_VERSION, "1.0.0");
}

#[test]
fn account_lookup_finds_first_match() {
    let cfg = Config {
        github_configs: Some(vec![
            account("acme", "widgets", "T1", "s1"),
            account("acme", "gadgets", "T2", "s2"),
        ]),
        provider_configs: None,
        image_configs: None,
    };
    let found = get_github_config_by_owner_and_repo(&cfg, "acme", "gadgets").unwrap();
    assert_eq!(found.api_token, "T2");
    assert!(get_github_config_by_owner_and_repo(&cfg, "acme", "sprockets").is_none());
    assert!(get_github_config_by_owner_and_repo(&cfg, "other", "widgets").is_none());
}

#[test]
fn account_lookup_on_missing_table() {
    let cfg = Config {
        github_configs: None,
        provider_configs: None,
        image_configs: None,
    };
    assert!(get_github_config_by_owner_and_repo(&cfg, "acme", "widgets").is_none());
}

#[test]
fn image_lookup_order_defines_priority() {
    let cfg = Config {
        github_configs: None,
        provider_configs: None,
        image_configs: Some(vec![
            image("first", &["linux-x64", "fast"]),
            image("second", &["fast"]),
        ]),
    };
    assert_eq!(get_image_config_by_label(&cfg, "fast").unwrap().id, "first");
    assert_eq!(
        get_image_config_by_label(&cfg, "linux-x64").unwrap().id,
        "first"
    );
    assert!(get_image_config_by_label(&cfg, "slow").is_none());
}

#[test]
fn secondary_labels_match_but_first_is_primary() {
    let img = image("img", &["linux-x64", "fast"]);
    assert!(image_labels_contain(&img, "fast"));
    assert!(image_labels_contain(&img, "linux-x64"));
    assert!(!image_labels_contain(&img, "linux"));
}

#[test]
fn webhook_secret_slice_is_raw_bytes() {
    let a = account("acme", "widgets", "T", "shh");
    assert_eq!(a.get_webhook_secret_slice(), b"shh");
}

#[test]
fn repo_url_is_derived_from_owner_and_repo() {
    let a = account("acme", "widgets", "T", "shh");
    assert_eq!(a.get_repo_url(), "https://github.com/acme/widgets/");
}
