use hmac::{Hmac, KeyInit, Mac};
use octoling::config::{Config, GithubConfig, ImageConfig};
use octoling::memory::MemoryProvider;
use octoling::provider::ProviderRegistry;
use octoling::webhook::{
    authenticate, dispatch_event, plan_provision, plan_teardown, AuthOutcome, JobAction,
    Repository, User, WorkflowJob, WorkflowJobEvent,
};
use sha2::Sha256;

fn user(login: &str) -> User {
    User {
        login: String::from(login),
        id: 1,
        node_id: String::new(),
        avatar_url: String::new(),
        gravatar_id: String::new(),
        url: String::new(),
        html_url: String::new(),
        followers_url: String::new(),
        following_url: String::new(),
        gists_url: String::new(),
        starred_url: String::new(),
        subscriptions_url: String::new(),
        organizations_url: String::new(),
        repos_url: String::new(),
        events_url: String::new(),
        received_events_url: String::new(),
    }
}

fn event(owner: &str, repo: &str, job_id: u64, status: &str, labels: &[&str]) -> WorkflowJobEvent {
    WorkflowJobEvent {
        repository: Repository {
            id: 7,
            node_id: String::new(),
            name: String::from(repo),
            full_name: format!("{}/{}", owner, repo),
            private: false,
            owner: user(owner),
            html_url: String::new(),
            description: String::new(),
            fork: false,
            url: String::new(),
            visibility: String::from("public"),
            default_branch: String::from("main"),
        },
        sender: user(owner),
        workflow_job: WorkflowJob {
            id: job_id,
            run_id: 1,
            run_attempt: 1,
            node_id: String::new(),
            head_sha: String::new(),
            url: String::new(),
            html_url: String::new(),
            status: String::from(status),
            conclusion: None,
            started_at: String::new(),
            completed_at: None,
            name: String::new(),
            labels: labels.iter().map(|l| String::from(*l)).collect(),
            runner_id: None,
            runner_name: None,
            runner_group_id: None,
            runner_group_name: None,
        },
    }
}

fn account(owner: &str, repo: &str) -> GithubConfig {
    GithubConfig {
        owner: String::from(owner),
        repository: String::from(repo),
        api_token: String::from("T"),
        webhook_secret: String::from("shh"),
        enabled: true,
    }
}

fn image(id: &str, provider_id: &str, labels: &[&str]) -> ImageConfig {
    ImageConfig {
        name: String::from("download:debian:bullseye:amd64"),
        id: String::from(id),
        provider_id: String::from(provider_id),
        enabled: true,
        labels: labels.iter().map(|l| String::from(*l)).collect(),
    }
}

fn config(accounts: Vec<GithubConfig>, images: Vec<ImageConfig>) -> Config {
    Config {
        github_configs: Some(accounts),
        provider_configs: None,
        image_configs: Some(images),
    }
}

#[test]
fn unparseable_workflow_job_body_is_bad_request() {
    let d = dispatch_event("workflow_job", true, None);
    assert_eq!(d.status, 400);
    assert!(matches!(d.action, JobAction::Ignore));
}

#[test]
fn invalid_utf8_body_is_server_error() {
    let d = dispatch_event("workflow_job", false, None);
    assert_eq!(d.status, 500);
    assert!(matches!(d.action, JobAction::Ignore));
}

#[test]
fn other_event_classes_are_accepted_and_ignored() {
    let e = event("acme", "widgets", 42, "queued", &["fast"]);
    let d = dispatch_event("push", true, Some(&e));
    assert_eq!(d.status, 200);
    assert!(matches!(d.action, JobAction::Ignore));
}

#[test]
fn queued_job_spawns_provision() {
    let e = event("acme", "widgets", 42, "queued", &["fast"]);
    let d = dispatch_event("workflow_job", true, Some(&e));
    assert_eq!(d.status, 200);
    assert!(matches!(d.action, JobAction::Provision));
}

#[test]
fn completed_job_spawns_teardown() {
    let e = event("acme", "widgets", 42, "completed", &[]);
    let d = dispatch_event("workflow_job", true, Some(&e));
    assert_eq!(d.status, 200);
    assert!(matches!(d.action, JobAction::Teardown));
}

#[test]
fn in_progress_job_is_ignored() {
    let e = event("acme", "widgets", 42, "in_progress", &["fast"]);
    let d = dispatch_event("workflow_job", true, Some(&e));
    assert_eq!(d.status, 200);
    assert!(matches!(d.action, JobAction::Ignore));
}

#[test]
fn label_selection_prefers_first_matching_job_label() {
    // Labels [A, B, C]; recipes matching {B} and {C}: the recipe for B wins,
    // even though the recipe for C stands first in the configuration.
    let cfg = config(
        vec![account("acme", "widgets")],
        vec![image("img-c", "p1", &["C"]), image("img-b", "p1", &["B"])],
    );
    let e = event("acme", "widgets", 42, "queued", &["A", "B", "C"]);
    let plan = plan_provision(&cfg, &e).expect("a recipe matches");
    assert_eq!(plan.image_index, 1);
    assert_eq!(plan.primary_label, "B");
}

#[test]
fn first_recipe_wins_for_one_label() {
    let cfg = config(
        vec![account("acme", "widgets")],
        vec![
            image("img-1", "p1", &["linux-x64", "fast"]),
            image("img-2", "p2", &["fast"]),
        ],
    );
    let e = event("acme", "widgets", 42, "queued", &["fast"]);
    let plan = plan_provision(&cfg, &e).expect("a recipe matches");
    assert_eq!(plan.image_index, 0);
    assert_eq!(plan.primary_label, "linux-x64");
    assert_eq!(plan.runner_id, "octoling-acme-widgets-42");
}

#[test]
fn queued_event_without_labels_is_unhandled() {
    let cfg = config(
        vec![account("acme", "widgets")],
        vec![image("img-1", "p1", &["fast"])],
    );
    let e = event("acme", "widgets", 42, "queued", &[]);
    assert!(plan_provision(&cfg, &e).is_none());
}

#[test]
fn unknown_repository_is_unhandled() {
    let cfg = config(
        vec![account("acme", "widgets")],
        vec![image("img-1", "p1", &["fast"])],
    );
    let e = event("other", "widgets", 42, "queued", &["fast"]);
    assert!(plan_provision(&cfg, &e).is_none());
}

#[test]
fn unmatched_labels_are_unhandled() {
    let cfg = config(
        vec![account("acme", "widgets")],
        vec![image("img-1", "p1", &["fast"])],
    );
    let e = event("acme", "widgets", 42, "queued", &["slow", "huge"]);
    assert!(plan_provision(&cfg, &e).is_none());
}

#[test]
fn happy_path_from_signature_to_container() {
    let cfg = config(
        vec![account("acme", "widgets")],
        vec![image("img-1", "lxc1", &["linux-x64", "fast"])],
    );

    // A body signed under the configured secret authenticates as account 0.
    let body = br#"{"action":"queued"}"#;
    let mut mac = <Hmac<Sha256> as KeyInit>::new_from_slice(b"shh").unwrap();
    mac.update(body);
    let header = format!("sha256={}", hex::encode(mac.finalize().into_bytes()));
    let accounts = cfg.github_configs.as_ref().unwrap();
    assert!(matches!(
        authenticate(accounts, &header, body),
        AuthOutcome::Authenticated(0)
    ));

    // The queued event is planned and provisioned under its deterministic
    // name, with the recipe's primary label registered alongside octoling.
    let e = event("acme", "widgets", 42, "queued", &["fast"]);
    let d = dispatch_event("workflow_job", true, Some(&e));
    assert_eq!(d.status, 200);
    assert!(matches!(d.action, JobAction::Provision));

    let plan = plan_provision(&cfg, &e).unwrap();
    let img = &cfg.image_configs.as_ref().unwrap()[plan.image_index];
    let acct = &cfg.github_configs.as_ref().unwrap()[plan.account_index];
    let mut reg = ProviderRegistry {
        ids: vec![String::from("lxc1")],
        providers: vec![MemoryProvider::new()],
    };
    let runner = octoling::manager::start_new_runner(
        &mut reg,
        img,
        acct,
        Some(String::from("reg-token")),
        plan.primary_label.as_str(),
        plan.runner_id.as_str(),
    )
    .expect("provisioning succeeds");
    assert_eq!(reg.providers[0].containers, vec!["octoling-acme-widgets-42"]);
    assert!(runner
        .commands
        .iter()
        .any(|argv| argv.iter().any(|a| a == "octoling,linux-x64")));
}

#[test]
fn completed_event_without_runner_name_is_unhandled() {
    let e = event("acme", "widgets", 42, "completed", &[]);
    assert!(plan_teardown(&e).is_none());
}

#[test]
fn completed_event_with_runner_name_tears_down() {
    let mut e = event("acme", "widgets", 42, "completed", &[]);
    e.workflow_job.runner_name = Some(String::from("octoling-acme-widgets-42"));
    assert_eq!(plan_teardown(&e).unwrap(), "octoling-acme-widgets-42");
}
