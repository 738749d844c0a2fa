use octoling::config::{GithubConfig, ImageConfig};
use octoling::manager::{
    destroy_runner, destroy_runner_with_runner_id, ensure_success_error_code,
    rollback_failed_install, setup_runner, start_new_clean_runner, start_new_runner, ManagerError,
};
use octoling::memory::{MemoryProvider, MemoryRunner};
use octoling::provider::{get_provider, Provider, ProviderError, ProviderRegistry, Runner};

fn github() -> GithubConfig {
    GithubConfig {
        owner: String::from("acme"),
        repository: String::from("widgets"),
        api_token: String::from("T"),
        webhook_secret: String::from("shh"),
        enabled: true,
    }
}

fn image() -> ImageConfig {
    ImageConfig {
        name: String::from("download:debian:bullseye:amd64"),
        id: String::from("img-1"),
        provider_id: String::from("lxc1"),
        enabled: true,
        labels: vec![String::from("linux-x64"), String::from("fast")],
    }
}

fn registry(provider: MemoryProvider) -> ProviderRegistry<MemoryProvider> {
    ProviderRegistry {
        ids: vec![String::from("lxc1")],
        providers: vec![provider],
    }
}

const RUNNER_ID: &str = "octoling-acme-widgets-42";

#[test]
fn happy_path_provisions_and_registers() {
    let mut reg = registry(MemoryProvider::new());
    let runner = start_new_runner(
        &mut reg,
        &image(),
        &github(),
        Some(String::from("tok-123")),
        "linux-x64",
        RUNNER_ID,
    )
    .expect("provisioning succeeds");

    let p = &reg.providers[0];
    assert_eq!(p.create_calls, vec![RUNNER_ID]);
    assert!(p.destroy_calls.is_empty());
    assert_eq!(p.containers, vec![RUNNER_ID]);

    assert!(runner.is_running);
    assert_eq!(runner.commands.len(), 14);
    assert_eq!(runner.commands[0], vec!["apt-get", "update"]);
    assert_eq!(
        runner.commands[11],
        vec![
            "sudo",
            "-u",
            "runner",
            "bash",
            "config.sh",
            "--unattended",
            "--ephemeral",
            "--url",
            "https://github.com/acme/widgets/",
            "--token",
            "tok-123",
            "--name",
            RUNNER_ID,
            "--labels",
            "octoling,linux-x64",
        ]
    );
    for i in 0..11 {
        assert_eq!(runner.cwds[i], "/");
    }
    for i in 11..14 {
        assert_eq!(runner.cwds[i], "/runner");
    }
    // Exactly one registration command in the whole sequence.
    let registrations = runner
        .commands
        .iter()
        .filter(|argv| argv.iter().any(|a| a == "--ephemeral"))
        .count();
    assert_eq!(registrations, 1);
}

#[test]
fn token_failure_creates_nothing() {
    let mut reg = registry(MemoryProvider::new());
    let err = start_new_runner(&mut reg, &image(), &github(), None, "linux-x64", RUNNER_ID)
        .err().unwrap();
    assert_eq!(err, ManagerError::TokenRequestFailed);
    assert!(reg.providers[0].create_calls.is_empty());
    assert!(reg.providers[0].containers.is_empty());
}

#[test]
fn install_failure_rolls_back() {
    // The fourth bootstrap step exits 1.
    let mut provider = MemoryProvider::new();
    provider.exit_codes = vec![0, 0, 0, 1];
    let mut reg = registry(provider);
    let err = start_new_runner(
        &mut reg,
        &image(),
        &github(),
        Some(String::from("tok")),
        "linux-x64",
        RUNNER_ID,
    )
    .err().unwrap();
    assert_eq!(err, ManagerError::InstallationFailed);
    let p = &reg.providers[0];
    assert_eq!(p.destroy_calls, vec![RUNNER_ID]);
    assert!(p.containers.is_empty());
}

#[test]
fn install_failure_stops_before_destroying() {
    let mut reg = registry(MemoryProvider::new());
    let mut runner = start_new_clean_runner(&mut reg, &image(), RUNNER_ID).unwrap();
    runner.exit_codes = vec![0, 0, 0, 1];
    let err = setup_runner(
        &mut runner,
        "linux-x64",
        "tok",
        "https://github.com/acme/widgets/",
        RUNNER_ID,
    )
    .err().unwrap();
    assert_eq!(err, ManagerError::InstallationFailed);
    assert_eq!(runner.commands.len(), 4);
    assert!(runner.is_running);
    rollback_failed_install(&mut reg, &mut runner, "lxc1", RUNNER_ID);
    assert!(!runner.is_running);
    assert_eq!(reg.providers[0].destroy_calls, vec![RUNNER_ID]);
    assert!(reg.providers[0].containers.is_empty());
}

#[test]
fn start_failure_destroys_partial_container() {
    let mut provider = MemoryProvider::new();
    provider.fail_start = true;
    let mut reg = registry(provider);
    let err = start_new_runner(
        &mut reg,
        &image(),
        &github(),
        Some(String::from("tok")),
        "linux-x64",
        RUNNER_ID,
    )
    .err().unwrap();
    assert_eq!(err, ManagerError::Provider(ProviderError::RunnerStartFailed));
    let p = &reg.providers[0];
    assert_eq!(p.create_calls, vec![RUNNER_ID]);
    assert_eq!(p.destroy_calls, vec![RUNNER_ID]);
    assert!(p.containers.is_empty());
}

#[test]
fn run_launch_failure_rolls_back() {
    let mut provider = MemoryProvider::new();
    provider.fail_run = true;
    let mut reg = registry(provider);
    let err = start_new_runner(
        &mut reg,
        &image(),
        &github(),
        Some(String::from("tok")),
        "linux-x64",
        RUNNER_ID,
    )
    .err().unwrap();
    assert_eq!(err, ManagerError::Provider(ProviderError::RunnerRunFailed));
    assert_eq!(reg.providers[0].destroy_calls, vec![RUNNER_ID]);
}

#[test]
fn unknown_provider_id_fails() {
    let mut reg = registry(MemoryProvider::new());
    let mut img = image();
    img.provider_id = String::from("nope");
    let err = start_new_runner(
        &mut reg,
        &img,
        &github(),
        Some(String::from("tok")),
        "linux-x64",
        RUNNER_ID,
    )
    .err().unwrap();
    assert_eq!(err, ManagerError::ProviderNotFound);
    assert_eq!(destroy_runner(&mut reg, "nope", RUNNER_ID).err().unwrap(), ManagerError::ProviderNotFound);
    assert_eq!(get_provider(&reg, "lxc1"), Some(0));
    assert_eq!(get_provider(&reg, "nope"), None);
}

#[test]
fn completion_scan_finds_the_owning_provider() {
    let p1 = MemoryProvider::new();
    let mut p2 = MemoryProvider::new();
    p2.containers = vec![String::from(RUNNER_ID)];
    let mut reg = ProviderRegistry {
        ids: vec![String::from("p1"), String::from("p2")],
        providers: vec![p1, p2],
    };
    destroy_runner_with_runner_id(&mut reg, RUNNER_ID).expect("scan succeeds");
    assert_eq!(reg.providers[0].destroy_calls, vec![RUNNER_ID]);
    assert_eq!(reg.providers[1].destroy_calls, vec![RUNNER_ID]);
    assert!(reg.providers[1].containers.is_empty());
}

#[test]
fn completion_scan_fails_when_nobody_owns_the_runner() {
    let mut reg = ProviderRegistry {
        ids: vec![String::from("p1"), String::from("p2")],
        providers: vec![MemoryProvider::new(), MemoryProvider::new()],
    };
    let err = destroy_runner_with_runner_id(&mut reg, RUNNER_ID).err().unwrap();
    assert_eq!(err, ManagerError::Provider(ProviderError::RunnerNotFound));
    assert_eq!(reg.providers[0].destroy_calls, vec![RUNNER_ID]);
    assert_eq!(reg.providers[1].destroy_calls, vec![RUNNER_ID]);
}

#[test]
fn completion_scan_aborts_on_real_failure() {
    let mut p1 = MemoryProvider::new();
    p1.containers = vec![String::from(RUNNER_ID)];
    p1.fail_destroy = true;
    let p2 = MemoryProvider::new();
    let mut reg = ProviderRegistry {
        ids: vec![String::from("p1"), String::from("p2")],
        providers: vec![p1, p2],
    };
    let err = destroy_runner_with_runner_id(&mut reg, RUNNER_ID).err().unwrap();
    assert_eq!(
        err,
        ManagerError::Provider(ProviderError::RunnerDestructionFailed)
    );
    assert!(reg.providers[1].destroy_calls.is_empty());
}

#[test]
fn start_and_stop_are_idempotent() {
    let mut provider = MemoryProvider::new();
    let mut runner = provider.create(&image(), RUNNER_ID).unwrap();
    assert!(!runner.is_running);
    runner.start().expect("first start");
    assert!(runner.is_running);
    runner.start().expect("start on a running container is a no-op success");
    assert!(runner.is_running);
    runner.stop().expect("first stop");
    assert!(!runner.is_running);
    runner.stop().expect("stop on a stopped container is a no-op success");
    assert!(!runner.is_running);
}

#[test]
fn create_refuses_an_already_defined_id() {
    let mut provider = MemoryProvider::new();
    provider.create(&image(), RUNNER_ID).unwrap();
    let err = provider.create(&image(), RUNNER_ID).err().unwrap();
    assert_eq!(err, ProviderError::RunnerCreationFailed);
}

#[test]
fn create_refuses_a_malformed_image() {
    let mut provider = MemoryProvider::new();
    let mut img = image();
    img.name = String::from("download:debian");
    let err = provider.create(&img, RUNNER_ID).err().unwrap();
    assert_eq!(err, ProviderError::InvalidImage);
}

#[test]
fn get_of_an_undefined_runner_fails() {
    let mut provider = MemoryProvider::new();
    let err = provider.get(RUNNER_ID).err().unwrap();
    assert_eq!(err, ProviderError::RunnerNotFound);
    provider.containers = vec![String::from(RUNNER_ID)];
    let handle: MemoryRunner = provider.get(RUNNER_ID).unwrap();
    assert_eq!(handle.id().unwrap(), RUNNER_ID);
}

#[test]
fn scripted_stop_failure_surfaces() {
    let mut provider = MemoryProvider::new();
    provider.fail_stop = true;
    let mut runner = provider.create(&image(), RUNNER_ID).unwrap();
    runner.start().unwrap();
    assert_eq!(runner.stop().err().unwrap(), ProviderError::RunnerStopFailed);
}

#[test]
fn nonzero_exit_collapses_to_installation_failed() {
    assert!(ensure_success_error_code(0).is_ok());
    assert_eq!(
        ensure_success_error_code(1).err().unwrap(),
        ManagerError::InstallationFailed
    );
    assert_eq!(
        ensure_success_error_code(-7).err().unwrap(),
        ManagerError::InstallationFailed
    );
}

#[test]
fn provider_errors_lift_into_manager_errors() {
    assert_eq!(
        ManagerError::from(ProviderError::RunnerNotFound),
        ManagerError::Provider(ProviderError::RunnerNotFound)
    );
}
