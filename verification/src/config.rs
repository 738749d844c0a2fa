//! The configuration registry: forge account bindings, provider entries and
//! image recipes, with the pure lookup operations the controller uses.
//!
//! The registry is loaded once at process startup and never mutated; the
//! lookups here are therefore plain functions over an immutable `Config`
//! value that callers thread through.

use vstd::prelude::*;

use crate::strutil::str_eq;

verus! {

/// Digest length of SHA-256, in bytes.
pub const SHA256_SIZE: usize = 32;

/// Version string reported by the HTTP surface.
pub const SERVER_VERSION: &'static str = "1.0.0";

/// The whole configuration file: three optional array tables.
/// A missing table stands for the empty list.
pub struct Config {
    pub github_configs: Option<Vec<GithubConfig>>,
    pub provider_configs: Option<Vec<ProviderConfig>>,
    pub image_configs: Option<Vec<ImageConfig>>,
}

/// One configured repository binding on the forge.
pub struct GithubConfig {
    pub owner: String,
    pub repository: String,
    pub api_token: String,
    pub webhook_secret: String,
    pub enabled: bool,
}

/// One configured container backend.
pub struct ProviderConfig {
    pub name: String,
    pub id: String,
    pub provider_type: String,
    pub enabled: bool,
}

/// One provisioning template: `name` is the colon-delimited image
/// specification, `labels` the job labels the recipe satisfies.
pub struct ImageConfig {
    pub name: String,
    pub id: String,
    pub provider_id: String,
    pub enabled: bool,
    pub labels: Vec<String>,
}

/// The UTF-8 encoding of a character sequence.
pub open spec fn utf8_bytes(s: Seq<char>) -> Seq<u8> {
    vstd::utf8::encode_utf8(s)
}

/// The URL of a repository on the forge.
pub open spec fn repo_url_spec(owner: Seq<char>, repository: Seq<char>) -> Seq<char> {
    "https://github.com/"@ + owner + "/"@ + repository + "/"@
}

impl GithubConfig {
    /// The shared HMAC key, as the raw bytes of the configured secret.
    pub fn get_webhook_secret_slice(&self) -> (r: &[u8])
        ensures
            r@ == utf8_bytes(self.webhook_secret@),
    {
        self.webhook_secret.as_str().as_bytes()
    }

    /// The URL of the bound repository.
    pub fn get_repo_url(&self) -> (r: String)
        ensures
            r@ == repo_url_spec(self.owner@, self.repository@),
    {
        let mut url = String::from_str("https://github.com/");
        url.append(self.owner.as_str());
        url.append("/");
        url.append(self.repository.as_str());
        url.append("/");
        url
    }
}

/// The configured accounts, with a missing table standing for none.
pub open spec fn github_accounts(config: Config) -> Seq<GithubConfig> {
    match config.github_configs {
        Some(v) => v@,
        None => Seq::empty(),
    }
}

/// The configured providers, with a missing table standing for none.
pub open spec fn provider_entries(config: Config) -> Seq<ProviderConfig> {
    match config.provider_configs {
        Some(v) => v@,
        None => Seq::empty(),
    }
}

/// The configured image recipes, with a missing table standing for none.
pub open spec fn image_recipes(config: Config) -> Seq<ImageConfig> {
    match config.image_configs {
        Some(v) => v@,
        None => Seq::empty(),
    }
}

/// Whether an account binds the given owner and repository.
pub open spec fn account_matches(c: GithubConfig, owner: Seq<char>, repository: Seq<char>) -> bool {
    c.owner@ == owner && c.repository@ == repository
}

/// Whether a recipe's label list contains the given label.
pub open spec fn image_matches_label(c: ImageConfig, label: Seq<char>) -> bool {
    exists|k: int| 0 <= k < c.labels@.len() && c.labels@[k]@ == label
}

/// Every recipe carries at least one label (its primary label).
/// Configurations that break this are rejected at load time.
pub open spec fn config_wf(config: Config) -> bool {
    forall|i: int|
        0 <= i < image_recipes(config).len() ==> #[trigger] image_recipes(
            config,
        )[i].labels@.len() >= 1
}

/// Linear scan for the first account binding the owner and repository.
pub fn get_github_config_by_owner_and_repo<'a>(
    config: &'a Config,
    owner: &str,
    repository: &str,
) -> (r: Option<&'a GithubConfig>)
    ensures
        match r {
            Some(c) => exists|i: int|
                0 <= i < github_accounts(*config).len() && account_matches(
                    #[trigger] github_accounts(*config)[i],
                    owner@,
                    repository@,
                ) && *c == github_accounts(*config)[i] && (forall|j: int|
                    0 <= j < i ==> !account_matches(
                        #[trigger] github_accounts(*config)[j],
                        owner@,
                        repository@,
                    )),
            None => forall|i: int|
                0 <= i < github_accounts(*config).len() ==> !account_matches(
                    #[trigger] github_accounts(*config)[i],
                    owner@,
                    repository@,
                ),
        },
{
    match &config.github_configs {
        None => None,
        Some(accounts) => {
            let n = accounts.len();
            let mut i: usize = 0;
            while i < n
                invariant
                    n == accounts@.len(),
                    accounts@ == github_accounts(*config),
                    0 <= i <= n,
                    forall|j: int|
                        0 <= j < i ==> !account_matches(
                            #[trigger] accounts@[j],
                            owner@,
                            repository@,
                        ),
                decreases n - i,
            {
                let c = &accounts[i];
                if str_eq(c.owner.as_str(), owner) && str_eq(c.repository.as_str(), repository) {
                    return Some(c);
                }
                i += 1;
            }
            None
        },
    }
}

/// Linear scan for the first recipe whose label list contains `label`.
/// Order of configuration defines priority.
pub fn get_image_config_by_label<'a>(config: &'a Config, label: &str) -> (r: Option<
    &'a ImageConfig,
>)
    ensures
        match r {
            Some(c) => exists|i: int|
                0 <= i < image_recipes(*config).len() && image_matches_label(
                    #[trigger] image_recipes(*config)[i],
                    label@,
                ) && *c == image_recipes(*config)[i] && (forall|j: int|
                    0 <= j < i ==> !image_matches_label(
                        #[trigger] image_recipes(*config)[j],
                        label@,
                    )),
            None => forall|i: int|
                0 <= i < image_recipes(*config).len() ==> !image_matches_label(
                    #[trigger] image_recipes(*config)[i],
                    label@,
                ),
        },
{
    match &config.image_configs {
        None => None,
        Some(recipes) => {
            let n = recipes.len();
            let mut i: usize = 0;
            while i < n
                invariant
                    n == recipes@.len(),
                    recipes@ == image_recipes(*config),
                    0 <= i <= n,
                    forall|j: int|
                        0 <= j < i ==> !image_matches_label(#[trigger] recipes@[j], label@),
                decreases n - i,
            {
                let c = &recipes[i];
                if image_labels_contain(c, label) {
                    return Some(c);
                }
                i += 1;
            }
            None
        },
    }
}

/// Whether a recipe's label list contains `label`.
pub fn image_labels_contain(c: &ImageConfig, label: &str) -> (r: bool)
    ensures
        r == image_matches_label(*c, label@),
{
    let n = c.labels.len();
    let mut k: usize = 0;
    while k < n
        invariant
            n == c.labels@.len(),
            0 <= k <= n,
            forall|j: int| 0 <= j < k ==> c.labels@[j]@ != label@,
        decreases n - k,
    {
        if str_eq(c.labels[k].as_str(), label) {
            return true;
        }
        k += 1;
    }
    false
}

} // verus!
