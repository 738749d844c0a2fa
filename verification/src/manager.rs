//! The runner lifecycle controller: bootstrapping a freshly created
//! container into a registered forge runner, rolling partial failures back,
//! and locating and destroying the right container on completion.
//!
//! Every guarantee is stated over the ghost operation histories of the
//! provider model (see the provider module): what was created, which
//! commands ran inside the container and in what order, and where a destroy
//! landed.

use vstd::prelude::*;

use crate::config::{GithubConfig, ImageConfig, repo_url_spec};
use crate::provider::{
    DestroyOutcome, Provider, ProviderError, ProviderOp, ProviderRegistry, RunOptions, Runner,
    RunnerOp, default_env_spec, destroy_outcome, env_view, get_provider, run_op,
};

verus! {

/// Errors raised by the lifecycle controller.
#[derive(Debug, PartialEq, Eq)]
pub enum ManagerError {
    /// The recipe names a provider id no backend is registered under.
    ProviderNotFound,
    /// A backend operation failed.
    Provider(ProviderError),
    /// The forge did not hand out a registration token.
    TokenRequestFailed,
    /// A bootstrap command exited non-zero or could not be launched.
    InstallationFailed,
}

impl From<ProviderError> for ManagerError {
    fn from(err: ProviderError) -> (r: ManagerError) {
        ManagerError::Provider(err)
    }
}

impl vstd::std_specs::convert::FromSpecImpl<ProviderError> for ManagerError {
    open spec fn obeys_from_spec() -> bool {
        true
    }

    open spec fn from_spec(err: ProviderError) -> ManagerError {
        ManagerError::Provider(err)
    }
}

/// The pinned release archive of the forge's runner agent for Linux/x86-64.
pub const RUNNER_DL_URL: &'static str =
    "https://github.com/actions/runner/releases/download/v2.283.3/actions-runner-linux-x64-2.283.3.tar.gz";

/// The single shell command appending the runner user's sudoers rule.
pub const SUDOERS_APPEND_CMD: &'static str =
    "echo 'runner ALL=(ALL:ALL) NOPASSWD:ALL' >> /etc/sudoers";

/// Collapses a non-zero bootstrap exit code to `InstallationFailed`.
pub fn ensure_success_error_code(error_code: i32) -> (r: Result<(), ManagerError>)
    ensures
        r is Ok <==> error_code == 0,
        r is Err ==> r == Err::<(), ManagerError>(ManagerError::InstallationFailed),
{
    if error_code != 0 {
        Err(ManagerError::InstallationFailed)
    } else {
        Ok(())
    }
}

/// `op` with its exit code replaced.
pub open spec fn with_exit(op: RunnerOp, e: Option<i32>) -> RunnerOp {
    match op {
        RunnerOp::Run { argv, cwd, env, wait, exit } => RunnerOp::Run {
            argv,
            cwd,
            env,
            wait,
            exit: e,
        },
        _ => op,
    }
}

/// A successful bootstrap command: default environment, waiting, exit 0.
pub open spec fn ok_run(argv: Seq<Seq<char>>, cwd: Seq<char>) -> RunnerOp {
    RunnerOp::Run { argv, cwd, env: default_env_spec(), wait: true, exit: Some(0i32) }
}

/// The bootstrap sequence: the commands that turn a freshly started
/// container into a registered ephemeral forge runner, each owed exit 0.
/// The registration step carries the fixed `octoling` label followed by the
/// recipe's primary label.
pub open spec fn bootstrap_script(
    repository_url: Seq<char>,
    registration_token: Seq<char>,
    runner_id: Seq<char>,
    label: Seq<char>,
) -> Seq<RunnerOp> {
    seq![
        ok_run(seq!["apt-get"@, "update"@], "/"@),
        ok_run(seq!["apt-get"@, "install"@, "-y"@, "curl"@, "tar"@, "gzip"@, "sudo"@], "/"@),
        ok_run(seq!["curl"@, "https://get.docker.com/"@, "-o"@, "install_docker.sh"@], "/"@),
        ok_run(seq!["sh"@, "install_docker.sh"@, "install"@, "runner"@], "/"@),
        ok_run(seq!["curl"@, "-L"@, RUNNER_DL_URL@, "-o"@, "runner.tar.gz"@], "/"@),
        ok_run(seq!["useradd"@, "-m"@, "runner"@], "/"@),
        ok_run(seq!["bash"@, "-c"@, SUDOERS_APPEND_CMD@], "/"@),
        ok_run(seq!["usermod"@, "-a"@, "-G"@, "docker"@, "runner"@], "/"@),
        ok_run(seq!["mkdir"@, "/runner"@], "/"@),
        ok_run(seq!["chown"@, "runner:runner"@, "/runner"@], "/"@),
        ok_run(
            seq!["sudo"@, "-u"@, "runner"@, "tar"@, "xzf"@, "runner.tar.gz"@, "-C"@, "/runner"@],
            "/"@,
        ),
        ok_run(
            seq![
                "sudo"@,
                "-u"@,
                "runner"@,
                "bash"@,
                "config.sh"@,
                "--unattended"@,
                "--ephemeral"@,
                "--url"@,
                repository_url,
                "--token"@,
                registration_token,
                "--name"@,
                runner_id,
                "--labels"@,
                "octoling,"@ + label,
            ],
            "/runner"@,
        ),
        ok_run(seq!["bash"@, "svc.sh"@, "install"@, "runner"@], "/runner"@),
        ok_run(seq!["bash"@, "svc.sh"@, "start"@], "/runner"@),
    ]
}

/// Runs one bootstrap step and demands exit 0.
fn run_step<R: Runner>(runner: &mut R, argv: Vec<String>, options: &RunOptions) -> (r: Result<
    (),
    ManagerError,
>)
    ensures
        final(runner).running() == old(runner).running(),
        r is Ok ==> final(runner).history() == old(runner).history().push(
            run_op(argv.deep_view(), *options, Ok(0i32)),
        ),
        r is Err ==> (exists|e: Option<i32>|
            e != Some(0i32) && final(runner).history() == old(runner).history().push(
                with_exit(run_op(argv.deep_view(), *options, Ok(0i32)), e),
            )) && (r matches Err(me) && (me == ManagerError::InstallationFailed
            || me matches ManagerError::Provider(_))),
{
    let code = match runner.run(&argv, options) {
        Ok(c) => c,
        Err(e) => {
            proof {
                let pushed = run_op(argv.deep_view(), *options, Err::<i32, ProviderError>(e));
                assert(pushed == with_exit(
                    run_op(argv.deep_view(), *options, Ok(0i32)),
                    None::<i32>,
                ));
            }
            return Err(ManagerError::Provider(e));
        },
    };
    proof {
        let pushed = run_op(argv.deep_view(), *options, Ok::<i32, ProviderError>(code));
        assert(pushed == with_exit(run_op(argv.deep_view(), *options, Ok(0i32)), Some(code)));
    }
    ensure_success_error_code(code)
}

/// Runs the bootstrap sequence inside a started container.  On success the
/// handle's history grows by exactly the bootstrap script; on failure by
/// the successful prefix plus the one failing command, and the result is
/// `InstallationFailed` for a non-zero exit or the backend's own error.
pub fn setup_runner<R: Runner>(
    runner: &mut R,
    label: &str,
    registration_token: &str,
    repository_url: &str,
    runner_id: &str,
) -> (r: Result<(), ManagerError>)
    ensures
        final(runner).running() == old(runner).running(),
        r is Ok ==> final(runner).history() == old(runner).history() + bootstrap_script(
            repository_url@,
            registration_token@,
            runner_id@,
            label@,
        ),
        r is Err ==> (exists|j: int, e: Option<i32>|
            0 <= j < bootstrap_script(
                repository_url@,
                registration_token@,
                runner_id@,
                label@,
            ).len() && e != Some(0i32) && final(runner).history() == old(runner).history()
                + bootstrap_script(repository_url@, registration_token@, runner_id@, label@).take(
                j,
            ).push(
                #[trigger] with_exit(
                    bootstrap_script(repository_url@, registration_token@, runner_id@, label@)[j],
                    e,
                ),
            )) && (r matches Err(me) && (me == ManagerError::InstallationFailed
            || me matches ManagerError::Provider(_))),
{
    let ghost script = bootstrap_script(repository_url@, registration_token@, runner_id@, label@);
    let ghost h0 = runner.history();
    let mut options = RunOptions::default();

    let argv1 = vec![String::from_str("apt-get"), String::from_str("update")];
    proof {
        assert(argv1.deep_view() =~= seq!["apt-get"@, "update"@]);
        assert(script.take(0int).push(with_exit(script[0], Some(0i32))) =~= script.take(1int));
    }
    match run_step(runner, argv1, &options) {
        Ok(()) => {},
        Err(e) => {
            proof {
                assert(script.take(0int) =~= Seq::<RunnerOp>::empty());
            }
            return Err(e);
        },
    }
    proof {
        assert(runner.history() =~= h0 + script.take(1int));
    }

    let argv2 = vec![
        String::from_str("apt-get"),
        String::from_str("install"),
        String::from_str("-y"),
        String::from_str("curl"),
        String::from_str("tar"),
        String::from_str("gzip"),
        String::from_str("sudo"),
    ];
    proof {
        assert(argv2.deep_view() =~= seq![
            "apt-get"@,
            "install"@,
            "-y"@,
            "curl"@,
            "tar"@,
            "gzip"@,
            "sudo"@,
        ]);
    }
    match run_step(runner, argv2, &options) {
        Ok(()) => {},
        Err(e) => {
            return Err(e);
        },
    }
    proof {
        assert(h0 + script.take(1int) + seq![script[1]] =~= h0 + script.take(2int));
    }

    let argv3 = vec![
        String::from_str("curl"),
        String::from_str("https://get.docker.com/"),
        String::from_str("-o"),
        String::from_str("install_docker.sh"),
    ];
    proof {
        assert(argv3.deep_view() =~= seq![
            "curl"@,
            "https://get.docker.com/"@,
            "-o"@,
            "install_docker.sh"@,
        ]);
    }
    match run_step(runner, argv3, &options) {
        Ok(()) => {},
        Err(e) => {
            return Err(e);
        },
    }
    proof {
        assert(h0 + script.take(2int) + seq![script[2]] =~= h0 + script.take(3int));
    }

    let argv4 = vec![
        String::from_str("sh"),
        String::from_str("install_docker.sh"),
        String::from_str("install"),
        String::from_str("runner"),
    ];
    proof {
        assert(argv4.deep_view() =~= seq!["sh"@, "install_docker.sh"@, "install"@, "runner"@]);
    }
    match run_step(runner, argv4, &options) {
        Ok(()) => {},
        Err(e) => {
            return Err(e);
        },
    }
    proof {
        assert(h0 + script.take(3int) + seq![script[3]] =~= h0 + script.take(4int));
    }

    let argv5 = vec![
        String::from_str("curl"),
        String::from_str("-L"),
        String::from_str(RUNNER_DL_URL),
        String::from_str("-o"),
        String::from_str("runner.tar.gz"),
    ];
    proof {
        assert(argv5.deep_view() =~= seq!["curl"@, "-L"@, RUNNER_DL_URL@, "-o"@, "runner.tar.gz"@]);
    }
    match run_step(runner, argv5, &options) {
        Ok(()) => {},
        Err(e) => {
            return Err(e);
        },
    }
    proof {
        assert(h0 + script.take(4int) + seq![script[4]] =~= h0 + script.take(5int));
    }

    let argv6 = vec![
        String::from_str("useradd"),
        String::from_str("-m"),
        String::from_str("runner"),
    ];
    proof {
        assert(argv6.deep_view() =~= seq!["useradd"@, "-m"@, "runner"@]);
    }
    match run_step(runner, argv6, &options) {
        Ok(()) => {},
        Err(e) => {
            return Err(e);
        },
    }
    proof {
        assert(h0 + script.take(5int) + seq![script[5]] =~= h0 + script.take(6int));
    }

    let argv7 = vec![
        String::from_str("bash"),
        String::from_str("-c"),
        String::from_str(SUDOERS_APPEND_CMD),
    ];
    proof {
        assert(argv7.deep_view() =~= seq!["bash"@, "-c"@, SUDOERS_APPEND_CMD@]);
    }
    match run_step(runner, argv7, &options) {
        Ok(()) => {},
        Err(e) => {
            return Err(e);
        },
    }
    proof {
        assert(h0 + script.take(6int) + seq![script[6]] =~= h0 + script.take(7int));
    }

    let argv8 = vec![
        String::from_str("usermod"),
        String::from_str("-a"),
        String::from_str("-G"),
        String::from_str("docker"),
        String::from_str("runner"),
    ];
    proof {
        assert(argv8.deep_view() =~= seq!["usermod"@, "-a"@, "-G"@, "docker"@, "runner"@]);
    }
    match run_step(runner, argv8, &options) {
        Ok(()) => {},
        Err(e) => {
            return Err(e);
        },
    }
    proof {
        assert(h0 + script.take(7int) + seq![script[7]] =~= h0 + script.take(8int));
    }

    let argv9 = vec![String::from_str("mkdir"), String::from_str("/runner")];
    proof {
        assert(argv9.deep_view() =~= seq!["mkdir"@, "/runner"@]);
    }
    match run_step(runner, argv9, &options) {
        Ok(()) => {},
        Err(e) => {
            return Err(e);
        },
    }
    proof {
        assert(h0 + script.take(8int) + seq![script[8]] =~= h0 + script.take(9int));
    }

    let argv10 = vec![
        String::from_str("chown"),
        String::from_str("runner:runner"),
        String::from_str("/runner"),
    ];
    proof {
        assert(argv10.deep_view() =~= seq!["chown"@, "runner:runner"@, "/runner"@]);
    }
    match run_step(runner, argv10, &options) {
        Ok(()) => {},
        Err(e) => {
            return Err(e);
        },
    }
    proof {
        assert(h0 + script.take(9int) + seq![script[9]] =~= h0 + script.take(10int));
    }

    let argv11 = vec![
        String::from_str("sudo"),
        String::from_str("-u"),
        String::from_str("runner"),
        String::from_str("tar"),
        String::from_str("xzf"),
        String::from_str("runner.tar.gz"),
        String::from_str("-C"),
        String::from_str("/runner"),
    ];
    proof {
        assert(argv11.deep_view() =~= seq![
            "sudo"@,
            "-u"@,
            "runner"@,
            "tar"@,
            "xzf"@,
            "runner.tar.gz"@,
            "-C"@,
            "/runner"@,
        ]);
    }
    match run_step(runner, argv11, &options) {
        Ok(()) => {},
        Err(e) => {
            return Err(e);
        },
    }
    proof {
        assert(h0 + script.take(10int) + seq![script[10]] =~= h0 + script.take(11int));
    }

    options.cwd = String::from_str("/runner");

    let mut labels = String::from_str("octoling,");
    labels.append(label);

    let argv12 = vec![
        String::from_str("sudo"),
        String::from_str("-u"),
        String::from_str("runner"),
        String::from_str("bash"),
        String::from_str("config.sh"),
        String::from_str("--unattended"),
        String::from_str("--ephemeral"),
        String::from_str("--url"),
        String::from_str(repository_url),
        String::from_str("--token"),
        String::from_str(registration_token),
        String::from_str("--name"),
        String::from_str(runner_id),
        String::from_str("--labels"),
        labels,
    ];
    proof {
        assert(argv12.deep_view() =~= seq![
            "sudo"@,
            "-u"@,
            "runner"@,
            "bash"@,
            "config.sh"@,
            "--unattended"@,
            "--ephemeral"@,
            "--url"@,
            repository_url@,
            "--token"@,
            registration_token@,
            "--name"@,
            runner_id@,
            "--labels"@,
            "octoling,"@ + label@,
        ]);
    }
    match run_step(runner, argv12, &options) {
        Ok(()) => {},
        Err(e) => {
            return Err(e);
        },
    }
    proof {
        assert(h0 + script.take(11int) + seq![script[11]] =~= h0 + script.take(12int));
    }

    let argv13 = vec![
        String::from_str("bash"),
        String::from_str("svc.sh"),
        String::from_str("install"),
        String::from_str("runner"),
    ];
    proof {
        assert(argv13.deep_view() =~= seq!["bash"@, "svc.sh"@, "install"@, "runner"@]);
    }
    match run_step(runner, argv13, &options) {
        Ok(()) => {},
        Err(e) => {
            return Err(e);
        },
    }
    proof {
        assert(h0 + script.take(12int) + seq![script[12]] =~= h0 + script.take(13int));
    }

    let argv14 = vec![
        String::from_str("bash"),
        String::from_str("svc.sh"),
        String::from_str("start"),
    ];
    proof {
        assert(argv14.deep_view() =~= seq!["bash"@, "svc.sh"@, "start"@]);
    }
    match run_step(runner, argv14, &options) {
        Ok(()) => {},
        Err(e) => {
            return Err(e);
        },
    }
    proof {
        assert(h0 + script.take(13int) + seq![script[13]] =~= h0 + script.take(14int));
        assert(script.take(14int) =~= script);
    }
    Ok(())
}

/// `i` is the position of the first registry entry named `id`.
pub open spec fn is_first_index(ids: Seq<String>, id: Seq<char>, i: int) -> bool {
    &&& 0 <= i < ids.len()
    &&& ids[i]@ == id
    &&& forall|j: int| 0 <= j < i ==> #[trigger] ids[j]@ != id
}

/// Some registry entry is named `id`.
pub open spec fn has_id(ids: Seq<String>, id: Seq<char>) -> bool {
    exists|i: int| is_first_index(ids, id, i)
}

/// The backends after an operation: only the one at `i` changed, and its
/// history grew by exactly `added`.
pub open spec fn only_at<P: Provider>(
    olds: Seq<P>,
    news: Seq<P>,
    i: int,
    added: Seq<ProviderOp>,
) -> bool {
    &&& news.len() == olds.len()
    &&& news == olds.update(i, news[i])
    &&& news[i].history() == olds[i].history() + added
}

/// A provider error lifted into the controller's error type.
pub open spec fn lift_provider_result(dr: Result<(), ProviderError>) -> Result<(), ManagerError> {
    match dr {
        Ok(u) => Ok(u),
        Err(e) => Err(ManagerError::Provider(e)),
    }
}

/// Creates a container for the recipe under the given runner id and starts
/// it.  A start failure destroys the partial container before the error is
/// surfaced, so no stopped half-made container is left behind.
pub fn start_new_clean_runner<P: Provider>(
    registry: &mut ProviderRegistry<P>,
    image_config: &ImageConfig,
    runner_id: &str,
) -> (r: Result<P::R, ManagerError>)
    requires
        old(registry).wf(),
    ensures
        final(registry).wf(),
        final(registry).ids@ == old(registry).ids@,
        !has_id(old(registry).ids@, image_config.provider_id@) ==> (r matches Err(e) && e
            == ManagerError::ProviderNotFound) && final(registry).providers@ == old(
            registry,
        ).providers@,
        forall|i: int|
            #[trigger] is_first_index(old(registry).ids@, image_config.provider_id@, i) ==> match r {
                Ok(runner) => only_at(
                    old(registry).providers@,
                    final(registry).providers@,
                    i,
                    seq![ProviderOp::Create { runner_id: runner_id@, ok: true }],
                ) && runner.history() == seq![RunnerOp::Start { ok: true }] && runner.running()
                    && final(registry).providers@[i].defined() == old(
                    registry,
                ).providers@[i].defined().insert(runner_id@),
                Err(me) => me matches ManagerError::Provider(_) && {
                    ||| only_at(
                        old(registry).providers@,
                        final(registry).providers@,
                        i,
                        seq![ProviderOp::Create { runner_id: runner_id@, ok: false }],
                    )
                    ||| exists|d: DestroyOutcome|
                        only_at(
                            old(registry).providers@,
                            final(registry).providers@,
                            i,
                            seq![
                                ProviderOp::Create { runner_id: runner_id@, ok: true },
                                ProviderOp::Destroy {
                                    runner_id: runner_id@,
                                    outcome: #[trigger] d_witness(d),
                                },
                            ],
                        )
                },
            },
{
    let idx = match get_provider(registry, image_config.provider_id.as_str()) {
        Some(i) => i,
        None => {
            proof {
                assert forall|i: int|
                    !is_first_index(
                        old(registry).ids@,
                        image_config.provider_id@,
                        i,
                    ) by {}
            }
            return Err(ManagerError::ProviderNotFound);
        },
    };
    proof {
        assert(is_first_index(registry.ids@, image_config.provider_id@, idx as int));
        assert forall|i: int|
            is_first_index(registry.ids@, image_config.provider_id@, i) implies i
            == idx as int by {}
    }
    let ghost h_prov = registry.providers@[idx as int].history();
    let provider = &mut registry.providers[idx];
    let mut runner = match provider.create(image_config, runner_id) {
        Ok(h) => h,
        Err(e) => {
            proof {
                assert(h_prov.push(ProviderOp::Create { runner_id: runner_id@, ok: false })
                    =~= h_prov + seq![ProviderOp::Create { runner_id: runner_id@, ok: false }]);
            }
            return Err(ManagerError::Provider(e));
        },
    };
    match runner.start() {
        Ok(()) => {
            proof {
                assert(runner.history() =~= seq![RunnerOp::Start { ok: true }]);
                assert(h_prov.push(ProviderOp::Create { runner_id: runner_id@, ok: true })
                    =~= h_prov + seq![ProviderOp::Create { runner_id: runner_id@, ok: true }]);
            }
            Ok(runner)
        },
        Err(startup_error) => {
            // Ensure that the partial container is destroyed; the original
            // start error is the one surfaced.
            let dr = provider.destroy(runner_id);
            proof {
                assert(d_witness(destroy_outcome(dr)) == destroy_outcome(dr));
                assert(h_prov.push(ProviderOp::Create { runner_id: runner_id@, ok: true }).push(
                    ProviderOp::Destroy { runner_id: runner_id@, outcome: destroy_outcome(dr) },
                ) =~= h_prov + seq![
                    ProviderOp::Create { runner_id: runner_id@, ok: true },
                    ProviderOp::Destroy {
                        runner_id: runner_id@,
                        outcome: d_witness(destroy_outcome(dr)),
                    },
                ]);
            }
            Err(ManagerError::Provider(startup_error))
        },
    }
}

/// Identity on destroy outcomes, used as a quantifier handle.
pub open spec fn d_witness(d: DestroyOutcome) -> DestroyOutcome {
    d
}

/// Asks one configured provider, by id, to destroy a runner's container.
pub fn destroy_runner<P: Provider>(
    registry: &mut ProviderRegistry<P>,
    provider_id: &str,
    runner_id: &str,
) -> (r: Result<(), ManagerError>)
    requires
        old(registry).wf(),
    ensures
        final(registry).wf(),
        final(registry).ids@ == old(registry).ids@,
        !has_id(old(registry).ids@, provider_id@) ==> (r matches Err(e) && e
            == ManagerError::ProviderNotFound) && final(registry).providers@ == old(
            registry,
        ).providers@,
        forall|i: int|
            #[trigger] is_first_index(old(registry).ids@, provider_id@, i) ==> exists|
                dr: Result<(), ProviderError>,
            |
                only_at(
                    old(registry).providers@,
                    final(registry).providers@,
                    i,
                    seq![
                        ProviderOp::Destroy {
                            runner_id: runner_id@,
                            outcome: destroy_outcome(dr),
                        },
                    ],
                ) && r == #[trigger] lift_provider_result(dr) && (dr is Ok
                    ==> final(registry).providers@[i].defined()
                    == old(registry).providers@[i].defined().remove(runner_id@)) && (dr is Err
                    ==> final(registry).providers@[i].defined()
                    == old(registry).providers@[i].defined()),
{
    let idx = match get_provider(registry, provider_id) {
        Some(i) => i,
        None => {
            proof {
                assert forall|i: int|
                    !is_first_index(old(registry).ids@, provider_id@, i) by {}
            }
            return Err(ManagerError::ProviderNotFound);
        },
    };
    proof {
        assert(is_first_index(registry.ids@, provider_id@, idx as int));
        assert forall|i: int| is_first_index(registry.ids@, provider_id@, i) implies i
            == idx as int by {}
    }
    let ghost h_prov = registry.providers@[idx as int].history();
    let provider = &mut registry.providers[idx];
    let dr = provider.destroy(runner_id);
    proof {
        assert(h_prov.push(
            ProviderOp::Destroy { runner_id: runner_id@, outcome: destroy_outcome(dr) },
        ) =~= h_prov + seq![
            ProviderOp::Destroy { runner_id: runner_id@, outcome: destroy_outcome(dr) },
        ]);
    }
    match dr {
        Ok(()) => {
            proof {
                assert(lift_provider_result(Ok::<(), ProviderError>(())) == Ok::<
                    (),
                    ManagerError,
                >(()));
            }
            Ok(())
        },
        Err(e) => {
            proof {
                assert(lift_provider_result(Err::<(), ProviderError>(e)) == Err::<
                    (),
                    ManagerError,
                >(ManagerError::Provider(e)));
            }
            Err(ManagerError::Provider(e))
        },
    }
}

/// The providers before `k` were each asked to destroy the runner and
/// answered `RunnerNotFound`.
pub open spec fn scanned_not_found<P: Provider>(
    olds: Seq<P>,
    news: Seq<P>,
    runner_id: Seq<char>,
    k: int,
) -> bool {
    forall|j: int|
        0 <= j < k ==> (#[trigger] news[j]).history() == olds[j].history().push(
            ProviderOp::Destroy { runner_id, outcome: DestroyOutcome::NotFound },
        )
}

/// Locates and destroys the container behind a finished runner without
/// knowing which provider owns it: providers are asked in registry order;
/// `RunnerNotFound` means "not this provider's" and the scan goes on; the
/// first other answer — success or a real failure — ends it.  When every
/// provider disclaims the runner the teardown fails with `RunnerNotFound`.
pub fn destroy_runner_with_runner_id<P: Provider>(
    registry: &mut ProviderRegistry<P>,
    runner_id: &str,
) -> (r: Result<(), ManagerError>)
    requires
        old(registry).wf(),
    ensures
        final(registry).wf(),
        final(registry).ids@ == old(registry).ids@,
        final(registry).providers@.len() == old(registry).providers@.len(),
        match r {
            Ok(_) => exists|k: int|
                0 <= k < old(registry).providers@.len() && #[trigger] scanned_not_found(
                    old(registry).providers@,
                    final(registry).providers@,
                    runner_id@,
                    k,
                ) && final(registry).providers@[k].history() == old(
                    registry,
                ).providers@[k].history().push(
                    ProviderOp::Destroy {
                        runner_id: runner_id@,
                        outcome: DestroyOutcome::Destroyed,
                    },
                ) && final(registry).providers@[k].defined() == old(
                    registry,
                ).providers@[k].defined().remove(runner_id@) && (forall|j: int|
                    k < j < old(registry).providers@.len() ==> final(registry).providers@[j]
                        == #[trigger] old(registry).providers@[j]),
            Err(me) => {
                &&& me matches ManagerError::Provider(_)
                &&& me == ManagerError::Provider(ProviderError::RunnerNotFound)
                    ==> scanned_not_found(
                    old(registry).providers@,
                    final(registry).providers@,
                    runner_id@,
                    old(registry).providers@.len() as int,
                )
                &&& me != ManagerError::Provider(ProviderError::RunnerNotFound) ==> exists|k: int|
                    0 <= k < old(registry).providers@.len() && #[trigger] scanned_not_found(
                        old(registry).providers@,
                        final(registry).providers@,
                        runner_id@,
                        k,
                    ) && final(registry).providers@[k].history() == old(
                        registry,
                    ).providers@[k].history().push(
                        ProviderOp::Destroy {
                            runner_id: runner_id@,
                            outcome: DestroyOutcome::Failed,
                        },
                    ) && (forall|j: int|
                        k < j < old(registry).providers@.len() ==> final(registry).providers@[j]
                            == #[trigger] old(registry).providers@[j])
            },
        },
{
    let n = registry.ids.len();
    let mut k: usize = 0;
    while k < n
        invariant
            registry.wf(),
            n == registry.ids@.len(),
            registry.ids@ == old(registry).ids@,
            registry.providers@.len() == old(registry).providers@.len(),
            0 <= k <= n,
            scanned_not_found(
                old(registry).providers@,
                registry.providers@,
                runner_id@,
                k as int,
            ),
            forall|j: int|
                k <= j < n ==> registry.providers@[j] == #[trigger] old(registry).providers@[j],
        decreases n - k,
    {
        let provider_id = registry.ids[k].clone();
        proof {
            assert(is_first_index(registry.ids@, provider_id@, k as int));
        }
        let ghost before = registry.providers@;
        let step = destroy_runner(registry, provider_id.as_str(), runner_id);
        proof {
            let dr = choose|dr: Result<(), ProviderError>|
                only_at(
                    before,
                    registry.providers@,
                    k as int,
                    seq![
                        ProviderOp::Destroy { runner_id: runner_id@, outcome: destroy_outcome(dr) },
                    ],
                ) && step == lift_provider_result(dr) && (dr is Ok ==> registry.providers@[k as int].defined()
                    == before[k as int].defined().remove(runner_id@)) && (dr is Err
                    ==> registry.providers@[k as int].defined() == before[k as int].defined());
            assert(registry.providers@[k as int].history() =~= before[k as int].history().push(
                ProviderOp::Destroy { runner_id: runner_id@, outcome: destroy_outcome(dr) },
            ));
        }
        match &step {
            Ok(_) => {
                proof {
                    assert(scanned_not_found(
                        old(registry).providers@,
                        registry.providers@,
                        runner_id@,
                        k as int,
                    ));
                }
                return Ok(());
            },
            Err(ManagerError::Provider(ProviderError::RunnerNotFound)) => {
                proof {
                    assert(scanned_not_found(
                        old(registry).providers@,
                        registry.providers@,
                        runner_id@,
                        k + 1 as int,
                    ));
                }
            },
            Err(_) => {
                proof {
                    assert(scanned_not_found(
                        old(registry).providers@,
                        registry.providers@,
                        runner_id@,
                        k as int,
                    ));
                }
                return step;
            },
        }
        k += 1;
    }
    Err(ManagerError::Provider(ProviderError::RunnerNotFound))
}

/// Best-effort cleanup after a failed bootstrap: stop the container, then
/// ask the recipe's provider to destroy it.  Cleanup errors are swallowed
/// so the originating error stays the one surfaced.
pub fn rollback_failed_install<P: Provider>(
    registry: &mut ProviderRegistry<P>,
    runner: &mut P::R,
    provider_id: &str,
    runner_id: &str,
)
    requires
        old(registry).wf(),
    ensures
        final(registry).wf(),
        final(registry).ids@ == old(registry).ids@,
        exists|b: bool|
            final(runner).history() == old(runner).history().push(
                RunnerOp::Stop { ok: #[trigger] b_witness(b) },
            ),
        !has_id(old(registry).ids@, provider_id@) ==> final(registry).providers@ == old(
            registry,
        ).providers@,
        forall|i: int|
            #[trigger] is_first_index(old(registry).ids@, provider_id@, i) ==> exists|
                d: DestroyOutcome,
            |
                only_at(
                    old(registry).providers@,
                    final(registry).providers@,
                    i,
                    seq![
                        ProviderOp::Destroy { runner_id: runner_id@, outcome: #[trigger] d_witness(d) },
                    ],
                ),
{
    let stopped = runner.stop();
    proof {
        assert(b_witness(stopped is Ok) == (stopped is Ok));
    }
    let cleanup = destroy_runner(registry, provider_id, runner_id);
    proof {
        assert forall|i: int|
            is_first_index(old(registry).ids@, provider_id@, i) implies exists|d: DestroyOutcome|
            only_at(
                old(registry).providers@,
                registry.providers@,
                i,
                seq![
                    ProviderOp::Destroy { runner_id: runner_id@, outcome: #[trigger] d_witness(d) },
                ],
            ) by {
            let dr = choose|dr: Result<(), ProviderError>|
                only_at(
                    old(registry).providers@,
                    registry.providers@,
                    i,
                    seq![
                        ProviderOp::Destroy { runner_id: runner_id@, outcome: destroy_outcome(dr) },
                    ],
                ) && cleanup == lift_provider_result(dr);
            assert(d_witness(destroy_outcome(dr)) == destroy_outcome(dr));
        }
    }
}

/// Identity on booleans, used as a quantifier handle.
pub open spec fn b_witness(b: bool) -> bool {
    b
}

/// Provisions a registered ephemeral runner for a queued job: with the
/// registration token already minted by the forge, create and start a fresh
/// container for the recipe, then run the bootstrap sequence inside it.  A
/// missing token fails with `TokenRequestFailed` before anything is
/// created; a bootstrap failure stops the container, asks the recipe's
/// provider to destroy it, and surfaces the original error.
pub fn start_new_runner<P: Provider>(
    registry: &mut ProviderRegistry<P>,
    image_config: &ImageConfig,
    github_config: &GithubConfig,
    runner_token: Option<String>,
    label: &str,
    runner_id: &str,
) -> (r: Result<P::R, ManagerError>)
    requires
        old(registry).wf(),
    ensures
        final(registry).wf(),
        final(registry).ids@ == old(registry).ids@,
        (r matches Err(e) && e == ManagerError::TokenRequestFailed) <==> runner_token is None,
        runner_token is None ==> final(registry).providers@ == old(registry).providers@,
        runner_token is Some && !has_id(old(registry).ids@, image_config.provider_id@) ==> (
        r matches Err(e) && e == ManagerError::ProviderNotFound) && final(registry).providers@
            == old(registry).providers@,
        forall|i: int|
            #[trigger] is_first_index(old(registry).ids@, image_config.provider_id@, i)
                ==> match runner_token {
                None => true,
                Some(tok) => match r {
                    Ok(runner) => {
                        &&& only_at(
                            old(registry).providers@,
                            final(registry).providers@,
                            i,
                            seq![ProviderOp::Create { runner_id: runner_id@, ok: true }],
                        )
                        &&& runner.history() == seq![RunnerOp::Start { ok: true }]
                            + bootstrap_script(
                            repo_url_spec(github_config.owner@, github_config.repository@),
                            tok@,
                            runner_id@,
                            label@,
                        )
                        &&& runner.running()
                        &&& final(registry).providers@[i].defined()
                            == old(registry).providers@[i].defined().insert(runner_id@)
                    },
                    Err(me) => {
                        ||| (only_at(
                            old(registry).providers@,
                            final(registry).providers@,
                            i,
                            seq![ProviderOp::Create { runner_id: runner_id@, ok: false }],
                        ) && me matches ManagerError::Provider(_))
                        ||| exists|d: DestroyOutcome|
                            only_at(
                                old(registry).providers@,
                                final(registry).providers@,
                                i,
                                seq![
                                    ProviderOp::Create { runner_id: runner_id@, ok: true },
                                    ProviderOp::Destroy {
                                        runner_id: runner_id@,
                                        outcome: #[trigger] d_witness(d),
                                    },
                                ],
                            ) && (me == ManagerError::InstallationFailed
                                || me matches ManagerError::Provider(_))
                    },
                },
            },
{
    let token = match runner_token {
        Some(t) => t,
        None => {
            return Err(ManagerError::TokenRequestFailed);
        },
    };
    let repository_url = github_config.get_repo_url();
    let mut runner = match start_new_clean_runner(registry, image_config, runner_id) {
        Ok(h) => h,
        Err(e) => {
            proof {
                if has_id(old(registry).ids@, image_config.provider_id@) {
                    let i = choose|i: int|
                        is_first_index(old(registry).ids@, image_config.provider_id@, i);
                    assert(is_first_index(old(registry).ids@, image_config.provider_id@, i));
                }
            }
            return Err(e);
        },
    };
    // The backend performs its network-settling wait as part of `start`,
    // before the first bootstrap command can run.
    match setup_runner(&mut runner, label, token.as_str(), repository_url.as_str(), runner_id) {
        Ok(()) => {
            proof {
                assert(runner.history() =~= seq![RunnerOp::Start { ok: true }]
                    + bootstrap_script(
                    repo_url_spec(github_config.owner@, github_config.repository@),
                    token@,
                    runner_id@,
                    label@,
                ));
            }
            Ok(runner)
        },
        Err(error) => {
            let ghost mid = registry.providers@;
            rollback_failed_install(
                registry,
                &mut runner,
                image_config.provider_id.as_str(),
                runner_id,
            );
            proof {
                assert forall|i: int|
                    is_first_index(
                        old(registry).ids@,
                        image_config.provider_id@,
                        i,
                    ) implies exists|d: DestroyOutcome|
                    only_at(
                        old(registry).providers@,
                        registry.providers@,
                        i,
                        seq![
                            ProviderOp::Create { runner_id: runner_id@, ok: true },
                            ProviderOp::Destroy {
                                runner_id: runner_id@,
                                outcome: #[trigger] d_witness(d),
                            },
                        ],
                    ) by {
                    let d = choose|d: DestroyOutcome|
                        only_at(
                            mid,
                            registry.providers@,
                            i,
                            seq![
                                ProviderOp::Destroy {
                                    runner_id: runner_id@,
                                    outcome: d_witness(d),
                                },
                            ],
                        );
                    assert(old(registry).providers@[i].history() + seq![
                        ProviderOp::Create { runner_id: runner_id@, ok: true },
                    ] + seq![
                        ProviderOp::Destroy { runner_id: runner_id@, outcome: d_witness(d) },
                    ] =~= old(registry).providers@[i].history() + seq![
                        ProviderOp::Create { runner_id: runner_id@, ok: true },
                        ProviderOp::Destroy { runner_id: runner_id@, outcome: d_witness(d) },
                    ]);
                    assert(registry.providers@ =~= old(registry).providers@.update(
                        i,
                        registry.providers@[i],
                    ));
                }
            }
            Err(error)
        },
    }
}

/// One bootstrap command registering the runner with the forge: a
/// `config.sh` invocation with `--ephemeral` that names the runner
/// `--name <runner id>`.
pub open spec fn is_registration(op: RunnerOp, runner_id: Seq<char>) -> bool {
    match op {
        RunnerOp::Run { argv, .. } => {
            &&& argv.contains("config.sh"@)
            &&& argv.contains("--ephemeral"@)
            &&& exists|k: int|
                0 <= k && k + 1 < argv.len() && (#[trigger] argv[k]) == "--name"@ && argv[k + 1]
                    == runner_id
        },
        _ => false,
    }
}

/// Law: a successful provision registers the runner with the forge exactly
/// once — the bootstrap sequence holds one `config.sh --ephemeral`
/// registration, under the deterministic runner name, and no other step
/// registers anything.
pub proof fn lemma_provision_registers_once(
    repository_url: Seq<char>,
    registration_token: Seq<char>,
    runner_id: Seq<char>,
    label: Seq<char>,
)
    ensures
        is_registration(
            bootstrap_script(repository_url, registration_token, runner_id, label)[11],
            runner_id,
        ),
        forall|j: int|
            0 <= j < bootstrap_script(repository_url, registration_token, runner_id, label).len()
                && j != 11 ==> !is_registration(
                #[trigger] bootstrap_script(
                    repository_url,
                    registration_token,
                    runner_id,
                    label,
                )[j],
                runner_id,
            ),
{
    let script = bootstrap_script(repository_url, registration_token, runner_id, label);
    reveal_strlit("--name");
    reveal_strlit("config.sh");
    reveal_strlit("--ephemeral");
    reveal_strlit("update");
    reveal_strlit("docker");
    reveal_strlit("runner");
    reveal_strlit("svc.sh");
    reveal_strlit("apt-get");
    reveal_strlit("install");
    reveal_strlit("-y");
    reveal_strlit("curl");
    reveal_strlit("tar");
    reveal_strlit("gzip");
    reveal_strlit("sudo");
    reveal_strlit("https://get.docker.com/");
    reveal_strlit("-o");
    reveal_strlit("install_docker.sh");
    reveal_strlit("sh");
    reveal_strlit("-L");
    reveal_strlit(
        "https://github.com/actions/runner/releases/download/v2.283.3/actions-runner-linux-x64-2.283.3.tar.gz",
    );
    reveal_strlit("runner.tar.gz");
    reveal_strlit("useradd");
    reveal_strlit("-m");
    reveal_strlit("bash");
    reveal_strlit("-c");
    reveal_strlit("echo 'runner ALL=(ALL:ALL) NOPASSWD:ALL' >> /etc/sudoers");
    reveal_strlit("usermod");
    reveal_strlit("-a");
    reveal_strlit("-G");
    reveal_strlit("mkdir");
    reveal_strlit("/runner");
    reveal_strlit("chown");
    reveal_strlit("runner:runner");
    reveal_strlit("-u");
    reveal_strlit("xzf");
    reveal_strlit("-C");
    reveal_strlit("start");

    assert(is_registration(script[11], runner_id)) by {
        let argv = seq![
            "sudo"@,
            "-u"@,
            "runner"@,
            "bash"@,
            "config.sh"@,
            "--unattended"@,
            "--ephemeral"@,
            "--url"@,
            repository_url,
            "--token"@,
            registration_token,
            "--name"@,
            runner_id,
            "--labels"@,
            "octoling,"@ + label,
        ];
        assert(argv[4] == "config.sh"@);
        assert(argv.contains("config.sh"@));
        assert(argv[6] == "--ephemeral"@);
        assert(argv.contains("--ephemeral"@));
        assert(argv[11] == "--name"@ && argv[12] == runner_id);
    }

    assert(RUNNER_DL_URL@ == "https://github.com/actions/runner/releases/download/v2.283.3/actions-runner-linux-x64-2.283.3.tar.gz"@);
    assert(SUDOERS_APPEND_CMD@ == "echo 'runner ALL=(ALL:ALL) NOPASSWD:ALL' >> /etc/sudoers"@);
    assert("--name"@.len() == 6 && "--name"@[0] == '-');
    assert("apt-get"@.len() != 6);
    assert("update"@.len() == 6 && "update"@[0] == 'u');
    assert("install"@.len() != 6);
    assert("-y"@.len() != 6);
    assert("curl"@.len() != 6);
    assert("tar"@.len() != 6);
    assert("gzip"@.len() != 6);
    assert("sudo"@.len() != 6);
    assert("https://get.docker.com/"@.len() != 6);
    assert("-o"@.len() != 6);
    assert("install_docker.sh"@.len() != 6);
    assert("sh"@.len() != 6);
    assert("runner"@.len() == 6 && "runner"@[0] == 'r');
    assert("-L"@.len() != 6);
    assert(RUNNER_DL_URL@.len() != 6);
    assert("runner.tar.gz"@.len() != 6);
    assert("useradd"@.len() != 6);
    assert("-m"@.len() != 6);
    assert("bash"@.len() != 6);
    assert("-c"@.len() != 6);
    assert(SUDOERS_APPEND_CMD@.len() != 6);
    assert("usermod"@.len() != 6);
    assert("-a"@.len() != 6);
    assert("-G"@.len() != 6);
    assert("docker"@.len() == 6 && "docker"@[0] == 'd');
    assert("mkdir"@.len() != 6);
    assert("/runner"@.len() != 6);
    assert("chown"@.len() != 6);
    assert("runner:runner"@.len() != 6);
    assert("-u"@.len() != 6);
    assert("xzf"@.len() != 6);
    assert("-C"@.len() != 6);
    assert("svc.sh"@.len() == 6 && "svc.sh"@[0] == 's');
    assert("start"@.len() != 6);

    assert forall|j: int| 0 <= j < script.len() && j != 11 implies !is_registration(
        script[j],
        runner_id,
    ) by {
        if j == 0 {
            assert(!has_name_flag(seq!["apt-get"@, "update"@]));
        } else if j == 1 {
            assert(!has_name_flag(
                seq!["apt-get"@, "install"@, "-y"@, "curl"@, "tar"@, "gzip"@, "sudo"@],
            ));
        } else if j == 2 {
            assert(!has_name_flag(
                seq!["curl"@, "https://get.docker.com/"@, "-o"@, "install_docker.sh"@],
            ));
        } else if j == 3 {
            assert(!has_name_flag(seq!["sh"@, "install_docker.sh"@, "install"@, "runner"@]));
        } else if j == 4 {
            assert(!has_name_flag(
                seq!["curl"@, "-L"@, RUNNER_DL_URL@, "-o"@, "runner.tar.gz"@],
            ));
        } else if j == 5 {
            assert(!has_name_flag(seq!["useradd"@, "-m"@, "runner"@]));
        } else if j == 6 {
            assert(!has_name_flag(seq!["bash"@, "-c"@, SUDOERS_APPEND_CMD@]));
        } else if j == 7 {
            assert(!has_name_flag(seq!["usermod"@, "-a"@, "-G"@, "docker"@, "runner"@]));
        } else if j == 8 {
            assert(!has_name_flag(seq!["mkdir"@, "/runner"@]));
        } else if j == 9 {
            assert(!has_name_flag(seq!["chown"@, "runner:runner"@, "/runner"@]));
        } else if j == 10 {
            assert(!has_name_flag(
                seq![
                    "sudo"@,
                    "-u"@,
                    "runner"@,
                    "tar"@,
                    "xzf"@,
                    "runner.tar.gz"@,
                    "-C"@,
                    "/runner"@,
                ],
            ));
        } else if j == 12 {
            assert(!has_name_flag(seq!["bash"@, "svc.sh"@, "install"@, "runner"@]));
        } else if j == 13 {
            assert(!has_name_flag(seq!["bash"@, "svc.sh"@, "start"@]));
        }
    }
}

/// Whether an argv carries a `--name` flag with a following value.
pub open spec fn has_name_flag(argv: Seq<Seq<char>>) -> bool {
    exists|k: int| 0 <= k && k + 1 < argv.len() && (#[trigger] argv[k]) == "--name"@
}

/// Law: when a provision fails after its container was created, the
/// recipe's provider has been asked to destroy that container — the destroy
/// request stands in its operation history.
pub proof fn lemma_failed_provision_destroys<P: Provider>(
    olds: Seq<P>,
    news: Seq<P>,
    i: int,
    runner_id: Seq<char>,
    d: DestroyOutcome,
)
    requires
        0 <= i < olds.len(),
        only_at(
            olds,
            news,
            i,
            seq![
                ProviderOp::Create { runner_id, ok: true },
                ProviderOp::Destroy { runner_id, outcome: d },
            ],
        ),
    ensures
        exists|k: int|
            0 <= k < news[i].history().len() && #[trigger] news[i].history()[k]
                == (ProviderOp::Destroy { runner_id, outcome: d }),
{
    let h = news[i].history();
    assert(h[h.len() - 1] == ProviderOp::Destroy { runner_id, outcome: d });
}

} // verus!


