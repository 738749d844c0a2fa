//! The webhook dispatcher's verified core: the event payload types, the
//! deterministic runner-naming rule, signature-header validation with hex
//! decoding, HMAC authentication across the configured accounts, and the
//! decision of what to do with an authenticated event.
//!
//! The surrounding HTTP server, body transport and JSON parsing live outside
//! the library; they hand this module plain values.

use vstd::prelude::*;

use crate::config::{Config, GithubConfig, utf8_bytes};
use crate::config::{account_matches, github_accounts, image_matches_label, image_recipes};
use crate::config::config_wf;
use crate::strutil::{decimal_of, str_eq, u64_to_string};

verus! {

/// The forge user object carried by webhook payloads.
pub struct User {
    pub login: String,
    pub id: u64,
    pub node_id: String,
    pub avatar_url: String,
    pub gravatar_id: String,
    pub url: String,
    pub html_url: String,
    pub followers_url: String,
    pub following_url: String,
    pub gists_url: String,
    pub starred_url: String,
    pub subscriptions_url: String,
    pub organizations_url: String,
    pub repos_url: String,
    pub events_url: String,
    pub received_events_url: String,
}

/// The forge repository object carried by webhook payloads.
pub struct Repository {
    pub id: u64,
    pub node_id: String,
    pub name: String,
    pub full_name: String,
    pub private: bool,
    pub owner: User,
    pub html_url: String,
    pub description: String,
    pub fork: bool,
    pub url: String,
    pub visibility: String,
    pub default_branch: String,
}

/// One CI job as reported by the forge.
pub struct WorkflowJob {
    pub id: u64,
    pub run_id: u64,
    pub run_attempt: u64,
    pub node_id: String,
    pub head_sha: String,
    pub url: String,
    pub html_url: String,
    pub status: String,
    pub conclusion: Option<String>,
    pub started_at: String,
    pub completed_at: Option<String>,
    pub name: String,
    pub labels: Vec<String>,
    pub runner_id: Option<u64>,
    pub runner_name: Option<String>,
    pub runner_group_id: Option<u64>,
    pub runner_group_name: Option<String>,
}

/// The `workflow_job` event payload.
pub struct WorkflowJobEvent {
    pub repository: Repository,
    pub sender: User,
    pub workflow_job: WorkflowJob,
}

/// The deterministic runner name for an event:
/// `octoling-<owner>-<repo>-<job id>`.
pub open spec fn runner_id_spec(owner: Seq<char>, repository: Seq<char>, job_id: u64) -> Seq<
    char,
> {
    "octoling-"@ + owner + "-"@ + repository + "-"@ + decimal_of(job_id as nat)
}

/// Builds the runner name for an event.  Uniqueness across events follows
/// from the forge's uniqueness of job ids.
pub fn get_runner_id_by_job_event(event: &WorkflowJobEvent) -> (r: String)
    ensures
        r@ == runner_id_spec(
            event.repository.owner.login@,
            event.repository.name@,
            event.workflow_job.id,
        ),
{
    let mut s = String::from_str("octoling-");
    s.append(event.repository.owner.login.as_str());
    s.append("-");
    s.append(event.repository.name.as_str());
    s.append("-");
    let num = u64_to_string(event.workflow_job.id);
    s.append(num.as_str());
    s
}

/// Law: the runner name is a function of `(owner, repository, job id)`
/// alone, so provisioning the same job twice yields the same name.
pub proof fn lemma_runner_naming_deterministic(e1: WorkflowJobEvent, e2: WorkflowJobEvent)
    requires
        e1.repository.owner.login@ == e2.repository.owner.login@,
        e1.repository.name@ == e2.repository.name@,
        e1.workflow_job.id == e2.workflow_job.id,
    ensures
        runner_id_spec(e1.repository.owner.login@, e1.repository.name@, e1.workflow_job.id)
            == runner_id_spec(e2.repository.owner.login@, e2.repository.name@, e2.workflow_job.id),
{
}

/// The log-line prefix naming a job: `octoling: Job #<id> (<owner>/<repo>):`.
pub open spec fn job_prefix_spec(owner: Seq<char>, repository: Seq<char>, job_id: u64) -> Seq<
    char,
> {
    "octoling: Job #"@ + decimal_of(job_id as nat) + " ("@ + owner + "/"@ + repository + "):"@
}

/// Builds the log-line prefix for an event.
pub fn format_workflow_job_prefix(event: &WorkflowJobEvent) -> (r: String)
    ensures
        r@ == job_prefix_spec(
            event.repository.owner.login@,
            event.repository.name@,
            event.workflow_job.id,
        ),
{
    let mut s = String::from_str("octoling: Job #");
    let num = u64_to_string(event.workflow_job.id);
    s.append(num.as_str());
    s.append(" (");
    s.append(event.repository.owner.login.as_str());
    s.append("/");
    s.append(event.repository.name.as_str());
    s.append("):");
    s
}

/// Whether `c` is an ASCII hexadecimal digit.
pub open spec fn is_hex_digit(c: char) -> bool {
    (48 <= c as u32 <= 57) || (97 <= c as u32 <= 102) || (65 <= c as u32 <= 70)
}

/// The numeric value of a hexadecimal digit.
pub open spec fn hex_digit_value(c: char) -> nat {
    if 48 <= c as u32 <= 57 {
        (c as u32 - 48) as nat
    } else if 97 <= c as u32 <= 102 {
        (c as u32 - 87) as nat
    } else {
        (c as u32 - 55) as nat
    }
}

/// A well-formed signature header: the literal prefix `sha256=` followed by
/// exactly 64 hexadecimal digits.
pub open spec fn valid_signature_header(s: Seq<char>) -> bool {
    &&& s.len() == 71
    &&& s.subrange(0, 7) == "sha256="@
    &&& forall|i: int| 7 <= i < 71 ==> is_hex_digit(#[trigger] s[i])
}

/// The 32-byte digest a well-formed signature header presents.
pub open spec fn decoded_signature(s: Seq<char>) -> Seq<u8> {
    Seq::new(32, |i: int| (hex_digit_value(s[7 + 2 * i]) * 16 + hex_digit_value(s[8 + 2 * i])) as u8)
}

/// The numeric value of one hexadecimal digit character, if it is one.
fn hex_digit_val(c: char) -> (r: Option<u8>)
    ensures
        match r {
            Some(v) => is_hex_digit(c) && v as nat == hex_digit_value(c) && v < 16,
            None => !is_hex_digit(c),
        },
{
    let u = c as u32;
    if 48 <= u && u <= 57 {
        Some((u - 48) as u8)
    } else if 97 <= u && u <= 102 {
        Some((u - 87) as u8)
    } else if 65 <= u && u <= 70 {
        Some((u - 55) as u8)
    } else {
        None
    }
}

/// Validates the signature header and decodes its digest.  Returns `None`
/// exactly on headers of the wrong length, the wrong prefix, or with a
/// non-hexadecimal suffix; such requests are rejected before any HMAC
/// computation.
pub fn parse_signature_header(signature: &str) -> (r: Option<Vec<u8>>)
    ensures
        r is Some <==> valid_signature_header(signature@),
        r matches Some(v) ==> v@ == decoded_signature(signature@) && v@.len() == 32,
{
    proof {
        reveal_strlit("sha256=");
    }
    let n = signature.unicode_len();
    if n != 71 {
        return None;
    }
    if !(signature.get_char(0) == 's' && signature.get_char(1) == 'h' && signature.get_char(2)
        == 'a' && signature.get_char(3) == '2' && signature.get_char(4) == '5'
        && signature.get_char(5) == '6' && signature.get_char(6) == '=') {
        proof {
            assert(valid_signature_header(signature@) ==> signature@.subrange(0, 7)[0] == 's'
                && signature@.subrange(0, 7)[1] == 'h' && signature@.subrange(0, 7)[2] == 'a'
                && signature@.subrange(0, 7)[3] == '2' && signature@.subrange(0, 7)[4] == '5'
                && signature@.subrange(0, 7)[5] == '6' && signature@.subrange(0, 7)[6] == '=');
        }
        return None;
    }
    proof {
        assert(signature@.subrange(0, 7) =~= "sha256="@);
    }
    let mut digest: Vec<u8> = Vec::new();
    let mut i: usize = 0;
    while i < 32
        invariant
            signature@.len() == 71,
            0 <= i <= 32,
            digest@.len() == i,
            forall|j: int| 7 <= j < 7 + 2 * i ==> is_hex_digit(#[trigger] signature@[j]),
            forall|j: int|
                0 <= j < i ==> #[trigger] digest@[j] == (hex_digit_value(signature@[7 + 2 * j]) * 16
                    + hex_digit_value(signature@[8 + 2 * j])) as u8,
        decreases 32 - i,
    {
        let hi = match hex_digit_val(signature.get_char(7 + 2 * i)) {
            Some(v) => v,
            None => {
                return None;
            },
        };
        let lo = match hex_digit_val(signature.get_char(8 + 2 * i)) {
            Some(v) => v,
            None => {
                return None;
            },
        };
        digest.push(hi * 16 + lo);
        i += 1;
    }
    proof {
        assert forall|j: int| 7 <= j < 71 implies is_hex_digit(#[trigger] signature@[j]) by {
            let k = (j - 7) / 2;
            assert(j == 7 + 2 * k || j == 8 + 2 * k);
        }
        assert(digest@ =~= decoded_signature(signature@));
    }
    Some(digest)
}

/// What HMAC-SHA256 of a key and message is.  The digest is a pure function
/// of the two byte strings; its definition is left to the outside
/// implementation.
pub uninterp spec fn hmac_sha256_of(key: Seq<u8>, data: Seq<u8>) -> Seq<u8>;

/// Relies on hmac's `Hmac<Sha256>` (with sha2): the 32-byte digest depends on
/// the key and message bytes alone.  `new_from_slice` accepts keys of any
/// length for HMAC, so it cannot fail here.
#[verifier::external_body]
fn hmac_sha256(key: &[u8], data: &[u8]) -> (r: Vec<u8>)
    ensures
        r@ == hmac_sha256_of(key@, data@),
        r@.len() == 32,
{
    let mut mac = <hmac::Hmac<sha2::Sha256> as hmac::KeyInit>::new_from_slice(key)
        .expect("HMAC accepts keys of any length");
    hmac::Mac::update(&mut mac, data);
    hmac::Mac::finalize(mac).into_bytes().to_vec()
}

/// Byte-wise equality of two byte strings.
fn bytes_eq(a: &Vec<u8>, b: &Vec<u8>) -> (r: bool)
    ensures
        r == (a@ == b@),
{
    if a.len() != b.len() {
        return false;
    }
    let n = a.len();
    let mut i: usize = 0;
    while i < n
        invariant
            n == a@.len(),
            n == b@.len(),
            0 <= i <= n,
            forall|j: int| 0 <= j < i ==> a@[j] == b@[j],
        decreases n - i,
    {
        if a[i] != b[i] {
            return false;
        }
        i += 1;
    }
    proof {
        assert(a@ =~= b@);
    }
    true
}

/// Outcome of authenticating one inbound webhook request.
pub enum AuthOutcome {
    /// The signature header is malformed; reply 400 without computing HMAC.
    BadSignature,
    /// No configured secret produces the presented digest; reply 401.
    Unauthorized,
    /// The request is authenticated as the account at this index.
    Authenticated(usize),
}

/// Trial-verifies the presented digest against every configured account's
/// secret, in iteration order.  A body is accepted exactly when some
/// configured secret produces the presented digest over the exact bytes
/// received.
pub fn authenticate(accounts: &Vec<GithubConfig>, signature: &str, body: &[u8]) -> (r: AuthOutcome)
    ensures
        match r {
            AuthOutcome::BadSignature => !valid_signature_header(signature@),
            AuthOutcome::Unauthorized => valid_signature_header(signature@) && (forall|i: int|
                0 <= i < accounts@.len() ==> hmac_sha256_of(
                    utf8_bytes(#[trigger] accounts@[i].webhook_secret@),
                    body@,
                ) != decoded_signature(signature@)),
            AuthOutcome::Authenticated(i) => valid_signature_header(signature@) && 0 <= i
                < accounts@.len() && hmac_sha256_of(utf8_bytes(accounts@[i as int].webhook_secret@), body@)
                == decoded_signature(signature@) && (forall|j: int|
                0 <= j < i ==> hmac_sha256_of(
                    utf8_bytes(#[trigger] accounts@[j].webhook_secret@),
                    body@,
                ) != decoded_signature(signature@)),
        },
{
    let provided = match parse_signature_header(signature) {
        Some(d) => d,
        None => {
            return AuthOutcome::BadSignature;
        },
    };
    let n = accounts.len();
    let mut i: usize = 0;
    while i < n
        invariant
            n == accounts@.len(),
            0 <= i <= n,
            valid_signature_header(signature@),
            provided@ == decoded_signature(signature@),
            forall|j: int|
                0 <= j < i ==> hmac_sha256_of(
                    utf8_bytes(#[trigger] accounts@[j].webhook_secret@),
                    body@,
                ) != decoded_signature(signature@),
        decreases n - i,
    {
        let computed = hmac_sha256(accounts[i].get_webhook_secret_slice(), body);
        if bytes_eq(&computed, &provided) {
            return AuthOutcome::Authenticated(i);
        }
        i += 1;
    }
    AuthOutcome::Unauthorized
}

/// The HTTP status answering a request with the given authentication
/// outcome, before any dispatch: 400 for a malformed header, 401 when no
/// secret matches, 200 otherwise.
pub fn auth_status(r: &AuthOutcome) -> (s: u16)
    ensures
        s == 400 <==> r is BadSignature,
        s == 401 <==> r is Unauthorized,
        s == 200 <==> r is Authenticated,
{
    match r {
        AuthOutcome::BadSignature => 400,
        AuthOutcome::Unauthorized => 401,
        AuthOutcome::Authenticated(_) => 200,
    }
}

/// The background work an accepted event calls for.
pub enum JobAction {
    /// Provision a fresh runner for a queued job.
    Provision,
    /// Tear the job's runner down.
    Teardown,
    /// Nothing: an event class or job status the controller ignores.
    Ignore,
}

/// The reply to an authenticated request, and the work to start.
pub struct DispatchDecision {
    pub status: u16,
    pub action: JobAction,
}

/// Decides what an authenticated request leads to.  `body_utf8` says whether
/// the body was valid UTF-8; `parsed` is the parse result of a
/// `workflow_job` body (`None` when parsing failed, unused otherwise).  The
/// reply is sent before any background work runs.
pub fn dispatch_event(event_type: &str, body_utf8: bool, parsed: Option<&WorkflowJobEvent>) -> (r:
    DispatchDecision)
    ensures
        !body_utf8 ==> r.status == 500 && r.action is Ignore,
        body_utf8 && event_type@ != "workflow_job"@ ==> r.status == 200 && r.action is Ignore,
        body_utf8 && event_type@ == "workflow_job"@ ==> match parsed {
            None => r.status == 400 && r.action is Ignore,
            Some(e) => r.status == 200 && (r.action is Provision <==> e.workflow_job.status@
                == "queued"@) && (r.action is Teardown <==> e.workflow_job.status@
                == "completed"@),
        },
{
    proof {
        reveal_strlit("queued");
        reveal_strlit("completed");
        assert("queued"@.len() == 6);
        assert("completed"@.len() == 9);
        assert("queued"@ != "completed"@);
    }
    if !body_utf8 {
        return DispatchDecision { status: 500, action: JobAction::Ignore };
    }
    if !str_eq(event_type, "workflow_job") {
        return DispatchDecision { status: 200, action: JobAction::Ignore };
    }
    match parsed {
        None => DispatchDecision { status: 400, action: JobAction::Ignore },
        Some(e) => {
            if str_eq(e.workflow_job.status.as_str(), "queued") {
                DispatchDecision { status: 200, action: JobAction::Provision }
            } else if str_eq(e.workflow_job.status.as_str(), "completed") {
                DispatchDecision { status: 200, action: JobAction::Teardown }
            } else {
                DispatchDecision { status: 200, action: JobAction::Ignore }
            }
        },
    }
}

/// A worked-out provisioning decision for a queued job.
pub struct ProvisionPlan {
    /// Index of the matched account in the configured account list.
    pub account_index: usize,
    /// Index of the selected recipe in the configured recipe list.
    pub image_index: usize,
    /// The deterministic runner name for the job.
    pub runner_id: String,
    /// The selected recipe's first label, appended to the runner's
    /// forge-side label set.
    pub primary_label: String,
}

/// Whether any configured recipe matches the label.
pub open spec fn some_image_matches(config: Config, label: Seq<char>) -> bool {
    exists|i: int|
        0 <= i < image_recipes(config).len() && image_matches_label(
            #[trigger] image_recipes(config)[i],
            label,
        )
}

/// Whether the event names a configured account.
pub open spec fn event_has_account(config: Config, event: WorkflowJobEvent) -> bool {
    exists|i: int|
        0 <= i < github_accounts(config).len() && account_matches(
            #[trigger] github_accounts(config)[i],
            event.repository.owner.login@,
            event.repository.name@,
        )
}

/// Decides whether and how a queued job is provisioned: the job must name a
/// configured account, and the first of its labels that any recipe matches
/// selects that recipe (the first such recipe, in configuration order).
/// Jobs with no account, or none of whose labels match — in particular jobs
/// with no labels at all — cannot be handled, and nothing is created.
pub fn plan_provision(config: &Config, event: &WorkflowJobEvent) -> (r: Option<ProvisionPlan>)
    requires
        config_wf(*config),
    ensures
        r is Some <==> event_has_account(*config, *event) && (exists|li: int|
            0 <= li < event.workflow_job.labels@.len() && some_image_matches(
                *config,
                #[trigger] event.workflow_job.labels@[li]@,
            )),
        r matches Some(plan) ==> {
            &&& plan.account_index < github_accounts(*config).len()
            &&& account_matches(
                github_accounts(*config)[plan.account_index as int],
                event.repository.owner.login@,
                event.repository.name@,
            )
            &&& forall|j: int|
                0 <= j < plan.account_index ==> !account_matches(
                    #[trigger] github_accounts(*config)[j],
                    event.repository.owner.login@,
                    event.repository.name@,
                )
            &&& exists|li: int|
                {
                    &&& 0 <= li < event.workflow_job.labels@.len()
                    &&& some_image_matches(*config, #[trigger] event.workflow_job.labels@[li]@)
                    &&& forall|m: int|
                        0 <= m < li ==> !some_image_matches(
                            *config,
                            #[trigger] event.workflow_job.labels@[m]@,
                        )
                    &&& plan.image_index < image_recipes(*config).len()
                    &&& image_matches_label(
                        image_recipes(*config)[plan.image_index as int],
                        event.workflow_job.labels@[li]@,
                    )
                    &&& forall|j: int|
                        0 <= j < plan.image_index ==> !image_matches_label(
                            #[trigger] image_recipes(*config)[j],
                            event.workflow_job.labels@[li]@,
                        )
                }
            &&& plan.runner_id@ == runner_id_spec(
                event.repository.owner.login@,
                event.repository.name@,
                event.workflow_job.id,
            )
            &&& plan.primary_label@ == image_recipes(
                *config,
            )[plan.image_index as int].labels@[0]@
        },
{
    let account_index = match find_account_index(config, event) {
        Some(i) => i,
        None => {
            return None;
        },
    };
    let labels = &event.workflow_job.labels;
    let n = labels.len();
    let mut li: usize = 0;
    while li < n
        invariant
            config_wf(*config),
            n == labels@.len(),
            labels@ == event.workflow_job.labels@,
            0 <= li <= n,
            account_index < github_accounts(*config).len(),
            account_matches(
                github_accounts(*config)[account_index as int],
                event.repository.owner.login@,
                event.repository.name@,
            ),
            forall|j: int|
                0 <= j < account_index ==> !account_matches(
                    #[trigger] github_accounts(*config)[j],
                    event.repository.owner.login@,
                    event.repository.name@,
                ),
            forall|m: int|
                0 <= m < li ==> !some_image_matches(*config, #[trigger] labels@[m]@),
        decreases n - li,
    {
        match find_image_index(config, labels[li].as_str()) {
            Some(image_index) => {
                let runner_id = get_runner_id_by_job_event(event);
                let primary_label = match &config.image_configs {
                    Some(recipes) => recipes[image_index].labels[0].clone(),
                    None => {
                        proof {
                            assert(false);
                        }
                        String::new()
                    },
                };
                return Some(
                    ProvisionPlan { account_index, image_index, runner_id, primary_label },
                );
            },
            None => {},
        }
        li += 1;
    }
    None
}

/// Index of the first account binding the event's owner and repository.
fn find_account_index(config: &Config, event: &WorkflowJobEvent) -> (r: Option<usize>)
    ensures
        match r {
            Some(i) => 0 <= i < github_accounts(*config).len() && account_matches(
                github_accounts(*config)[i as int],
                event.repository.owner.login@,
                event.repository.name@,
            ) && (forall|j: int|
                0 <= j < i ==> !account_matches(
                    #[trigger] github_accounts(*config)[j],
                    event.repository.owner.login@,
                    event.repository.name@,
                )),
            None => !event_has_account(*config, *event),
        },
{
    match &config.github_configs {
        None => None,
        Some(accounts) => {
            let n = accounts.len();
            let mut i: usize = 0;
            while i < n
                invariant
                    n == accounts@.len(),
                    accounts@ == github_accounts(*config),
                    0 <= i <= n,
                    forall|j: int|
                        0 <= j < i ==> !account_matches(
                            #[trigger] accounts@[j],
                            event.repository.owner.login@,
                            event.repository.name@,
                        ),
                decreases n - i,
            {
                if str_eq(accounts[i].owner.as_str(), event.repository.owner.login.as_str())
                    && str_eq(accounts[i].repository.as_str(), event.repository.name.as_str()) {
                    return Some(i);
                }
                i += 1;
            }
            None
        },
    }
}

/// Index of the first recipe whose labels contain `label`.
fn find_image_index(config: &Config, label: &str) -> (r: Option<usize>)
    ensures
        match r {
            Some(i) => 0 <= i < image_recipes(*config).len() && image_matches_label(
                image_recipes(*config)[i as int],
                label@,
            ) && (forall|j: int|
                0 <= j < i ==> !image_matches_label(#[trigger] image_recipes(*config)[j], label@)),
            None => !some_image_matches(*config, label@),
        },
{
    match &config.image_configs {
        None => None,
        Some(recipes) => {
            let n = recipes.len();
            let mut i: usize = 0;
            while i < n
                invariant
                    n == recipes@.len(),
                    recipes@ == image_recipes(*config),
                    0 <= i <= n,
                    forall|j: int|
                        0 <= j < i ==> !image_matches_label(#[trigger] recipes@[j], label@),
                decreases n - i,
            {
                if crate::config::image_labels_contain(&recipes[i], label) {
                    return Some(i);
                }
                i += 1;
            }
            None
        },
    }
}

/// Decides whether a completed job leads to a teardown: only jobs the forge
/// had assigned a runner carry a runner name; without one there is nothing
/// to destroy and the event cannot be handled.
pub fn plan_teardown<'a>(event: &'a WorkflowJobEvent) -> (r: Option<&'a String>)
    ensures
        r is Some <==> event.workflow_job.runner_name is Some,
        r matches Some(n) ==> event.workflow_job.runner_name matches Some(m) && n@ == m@,
{
    match &event.workflow_job.runner_name {
        Some(n) => Some(n),
        None => None,
    }
}

} // verus!
