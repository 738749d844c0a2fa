use octoling::strutil::{str_eq, u64_to_string};
use octoling::webhook::{
    format_workflow_job_prefix, get_runner_id_by_job_event, Repository, User, WorkflowJob,
    WorkflowJobEvent,
};

fn user(login: &str) -> User {
    User {
        login: String::from(login),
        id: 1,
        node_id: String::new(),
        avatar_url: String::new(),
        gravatar_id: String::new(),
        url: String::new(),
        html_url: String::new(),
        followers_url: String::new(),
        following_url: String::new(),
        gists_url: String::new(),
        starred_url: String::new(),
        subscriptions_url: String::new(),
        organizations_url: String::new(),
        repos_url: String::new(),
        events_url: String::new(),
        received_events_url: String::new(),
    }
}

fn event(owner: &str, repo: &str, job_id: u64, status: &str) -> WorkflowJobEvent {
    WorkflowJobEvent {
        repository: Repository {
            id: 7,
            node_id: String::new(),
            name: String::from(repo),
            full_name: format!("{}/{}", owner, repo),
            private: false,
            owner: user(owner),
            html_url: String::new(),
            description: String::new(),
            fork: false,
            url: String::new(),
            visibility: String::from("public"),
            default_branch: String::from("main"),
        },
        sender: user(owner),
        workflow_job: WorkflowJob {
            id: job_id,
            run_id: 1,
            run_attempt: 1,
            node_id: String::new(),
            head_sha: String::new(),
            url: String::new(),
            html_url: String::new(),
            status: String::from(status),
            conclusion: None,
            started_at: String::new(),
            completed_at: None,
            name: String::new(),
            labels: Vec::new(),
            runner_id: None,
            runner_name: None,
            runner_group_id: None,
            runner_group_name: None,
        },
    }
}

#[test]
fn runner_id_matches_naming_rule() {
    let e = event("acme", "widgets", 42, "queued");
    assert_eq!(get_runner_id_by_job_event(&e), "octoling-acme-widgets-42");
}

#[test]
fn runner_id_is_deterministic() {
    let e1 = event("acme", "widgets", 42, "queued");
    let e2 = event("acme", "widgets", 42, "completed");
    assert_eq!(
        get_runner_id_by_job_event(&e1),
        get_runner_id_by_job_event(&e2)
    );
}

#[test]
fn runner_id_distinguishes_jobs() {
    let e1 = event("acme", "widgets", 42, "queued");
    let e2 = event("acme", "widgets", 43, "queued");
    assert_ne!(
        get_runner_id_by_job_event(&e1),
        get_runner_id_by_job_event(&e2)
    );
}

#[test]
fn job_prefix_format() {
    let e = event("acme", "widgets", 42, "queued");
    assert_eq!(
        format_workflow_job_prefix(&e),
        "octoling: Job #42 (acme/widgets):"
    );
}

#[test]
fn decimal_rendering() {
    assert_eq!(u64_to_string(0), "0");
    assert_eq!(u64_to_string(7), "7");
    assert_eq!(u64_to_string(10), "10");
    assert_eq!(u64_to_string(42), "42");
    assert_eq!(u64_to_string(1234567890), "1234567890");
    assert_eq!(u64_to_string(u64::MAX), "18446744073709551615");
}

#[test]
fn str_eq_compares_contents() {
    assert!(str_eq("abc", "abc"));
    assert!(!str_eq("abc", "abd"));
    assert!(!str_eq("abc", "abcd"));
    assert!(str_eq("", ""));
    assert!(!str_eq("", "x"));
}
