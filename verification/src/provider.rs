//! The provider interface: a uniform contract over heterogeneous container
//! backends, and the registry the controller looks backends up in.
//!
//! Verification works against an abstract model of a backend: every
//! operation a backend performs is recorded, in order, in a ghost history of
//! [`ProviderOp`] and [`RunnerOp`] values.  The controller's own guarantees
//! — what was created, destroyed, and run inside a container, and in what
//! order — are stated over those histories.  Backend implementations live
//! outside the library and are trusted to meet the trait contracts.

use vstd::prelude::*;

use crate::config::ImageConfig;

verus! {

/// Errors raised by providers and runner handles.
#[derive(Debug, PartialEq, Eq)]
pub enum ProviderError {
    InvalidImage,
    RunnerCreationFailed,
    RunnerNotFound,
    RunnerDestructionFailed,
    RunnerStartFailed,
    RunnerStopFailed,
    RunnerRunFailed,
    Unknown(String),
}

/// Options for one command execution inside a container.  The container's
/// own environment is cleared and replaced by `env`; the entries are applied
/// in order.
pub struct RunOptions {
    pub cwd: String,
    pub env: Vec<(String, String)>,
    pub wait: bool,
}

/// The view of an environment list: each entry as a pair of character
/// sequences.
pub open spec fn env_view(env: Seq<(String, String)>) -> Seq<(Seq<char>, Seq<char>)> {
    env.map(|i: int, p: (String, String)| (p.0@, p.1@))
}

/// The default environment handed to bootstrap commands.
pub open spec fn default_env_spec() -> Seq<(Seq<char>, Seq<char>)> {
    seq![
        ("PATH"@, "/sbin:/bin:/usr/sbin:/usr/bin:/usr/local/bin:/usr/local/sbin"@),
        ("HOME"@, "/"@),
        ("DEBIAN_FRONTEND"@, "noninteractive"@),
    ]
}

impl Default for RunOptions {
    /// The defaults the controller uses: working directory `/`, a minimal
    /// environment, and waiting for the command to exit.
    fn default() -> (r: Self)
        ensures
            r.cwd@ == "/"@,
            env_view(r.env@) == default_env_spec(),
            r.wait == true,
    {
        let mut env: Vec<(String, String)> = Vec::new();
        env.push(
            (
                String::from_str("PATH"),
                String::from_str("/sbin:/bin:/usr/sbin:/usr/bin:/usr/local/bin:/usr/local/sbin"),
            ),
        );
        env.push((String::from_str("HOME"), String::from_str("/")));
        env.push((String::from_str("DEBIAN_FRONTEND"), String::from_str("noninteractive")));
        let r = RunOptions { cwd: String::from_str("/"), env, wait: true };
        proof {
            assert(env_view(r.env@) =~= default_env_spec());
        }
        r
    }
}

/// One recorded operation on a runner handle.
pub enum RunnerOp {
    /// A `start` call and whether it succeeded.
    Start { ok: bool },
    /// A `stop` call and whether it succeeded.
    Stop { ok: bool },
    /// A command execution: its argv, options, and the exit code it
    /// returned (`None` when the backend failed to launch it).
    Run {
        argv: Seq<Seq<char>>,
        cwd: Seq<char>,
        env: Seq<(Seq<char>, Seq<char>)>,
        wait: bool,
        exit: Option<i32>,
    },
}

/// How one `destroy` call ended.
pub enum DestroyOutcome {
    /// The container was stopped if needed and its definition removed.
    Destroyed,
    /// No container under that id is defined on this provider.
    NotFound,
    /// The container exists but stopping or removing it failed.
    Failed,
}

/// One recorded operation on a provider.
pub enum ProviderOp {
    Create { runner_id: Seq<char>, ok: bool },
    Get { runner_id: Seq<char>, ok: bool },
    Destroy { runner_id: Seq<char>, outcome: DestroyOutcome },
}

/// The recorded operation for a `run` call with the given arguments and
/// result.
pub open spec fn run_op(
    argv: Seq<Seq<char>>,
    options: RunOptions,
    r: Result<i32, ProviderError>,
) -> RunnerOp {
    RunnerOp::Run {
        argv,
        cwd: options.cwd@,
        env: env_view(options.env@),
        wait: options.wait,
        exit: match r {
            Ok(c) => Some(c),
            Err(_) => None,
        },
    }
}

/// The outcome a `destroy` result records.
pub open spec fn destroy_outcome(r: Result<(), ProviderError>) -> DestroyOutcome {
    match r {
        Ok(_) => DestroyOutcome::Destroyed,
        Err(ProviderError::RunnerNotFound) => DestroyOutcome::NotFound,
        Err(_) => DestroyOutcome::Failed,
    }
}

/// A handle on one live container.  `start` and `stop` are idempotent: on a
/// container already in the requested state they are no-op successes.
/// Non-zero command exits are reported as values, not errors.
pub trait Runner: Sized {
    /// The operations performed through this handle, in order.  The default
    /// stands for implementations outside the library, whose histories are
    /// not modelled.
    open spec fn history(&self) -> Seq<RunnerOp> {
        Seq::empty()
    }

    /// Whether the container is running.
    open spec fn running(&self) -> bool {
        false
    }

    /// A stable identifier for the container.
    fn id(&self) -> (r: Result<String, ProviderError>);

    /// Brings the container to running state.
    fn start(&mut self) -> (r: Result<(), ProviderError>)
        ensures
            final(self).history() == old(self).history().push(RunnerOp::Start { ok: r is Ok }),
            old(self).running() ==> r is Ok,
            r is Ok ==> final(self).running(),
            r is Err ==> final(self).running() == old(self).running(),
    ;

    /// Brings the container down.
    fn stop(&mut self) -> (r: Result<(), ProviderError>)
        ensures
            final(self).history() == old(self).history().push(RunnerOp::Stop { ok: r is Ok }),
            !old(self).running() ==> r is Ok,
            r is Ok ==> !final(self).running(),
            r is Err ==> final(self).running() == old(self).running(),
    ;

    /// Executes a command inside the container and reports its exit code.
    fn run(&mut self, argv: &Vec<String>, options: &RunOptions) -> (r: Result<i32, ProviderError>)
        ensures
            final(self).history() == old(self).history().push(
                run_op(argv.deep_view(), *options, r),
            ),
            final(self).running() == old(self).running(),
    ;
}

/// A container backend: defines, looks up and removes containers by runner
/// id, yielding handles.
pub trait Provider: Sized {
    /// The handle type this backend yields.
    type R: Runner;

    /// The operations performed on this provider, in order.  The default
    /// stands for implementations outside the library, whose histories are
    /// not modelled.
    open spec fn history(&self) -> Seq<ProviderOp> {
        Seq::empty()
    }

    /// The ids of the containers currently defined on this backend.  The
    /// default stands for implementations outside the library, whose
    /// container sets are not modelled.
    open spec fn defined(&self) -> Set<Seq<char>> {
        Set::empty()
    }

    /// Defines a new container under the given id, not yet started.  It
    /// must fail when a container with that id is already defined.  A fresh
    /// handle carries an empty history.
    fn create(&mut self, image_config: &ImageConfig, runner_id: &str) -> (r: Result<
        Self::R,
        ProviderError,
    >)
        ensures
            final(self).history() == old(self).history().push(
                ProviderOp::Create { runner_id: runner_id@, ok: r is Ok },
            ),
            r matches Ok(h) ==> h.history() == Seq::<RunnerOp>::empty() && !h.running(),
            old(self).defined().contains(runner_id@) ==> r is Err,
            r is Ok ==> final(self).defined() == old(self).defined().insert(runner_id@),
            r is Err ==> final(self).defined() == old(self).defined(),
    ;

    /// Returns a handle referring to an existing (possibly stopped)
    /// container; an undefined id fails with `RunnerNotFound`.
    fn get(&mut self, runner_id: &str) -> (r: Result<Self::R, ProviderError>)
        ensures
            final(self).history() == old(self).history().push(
                ProviderOp::Get { runner_id: runner_id@, ok: r is Ok },
            ),
            final(self).defined() == old(self).defined(),
            r is Ok ==> old(self).defined().contains(runner_id@),
            !old(self).defined().contains(runner_id@) ==> r == Err::<Self::R, ProviderError>(
                ProviderError::RunnerNotFound,
            ),
    ;

    /// Stops the container if running, then removes its definition; an
    /// undefined id fails with `RunnerNotFound`.
    fn destroy(&mut self, runner_id: &str) -> (r: Result<(), ProviderError>)
        ensures
            final(self).history() == old(self).history().push(
                ProviderOp::Destroy { runner_id: runner_id@, outcome: destroy_outcome(r) },
            ),
            !old(self).defined().contains(runner_id@) ==> r == Err::<(), ProviderError>(
                ProviderError::RunnerNotFound,
            ),
            r is Ok ==> final(self).defined() == old(self).defined().remove(runner_id@),
            r is Err ==> final(self).defined() == old(self).defined(),
    ;
}

/// The process-wide set of configured backends, keyed by provider id.
/// Lookups scan `ids`; the backend for `ids[i]` is `providers[i]`.
pub struct ProviderRegistry<P> {
    pub ids: Vec<String>,
    pub providers: Vec<P>,
}

impl<P> ProviderRegistry<P> {
    /// Each id names exactly one backend, and no id occurs twice.
    pub open spec fn wf(&self) -> bool {
        &&& self.ids@.len() == self.providers@.len()
        &&& forall|i: int, j: int|
            0 <= i < j < self.ids@.len() ==> #[trigger] self.ids@[i]@ != #[trigger] self.ids@[j]@
    }
}

/// Index of the backend configured under `id`, if any.
pub fn get_provider<P>(registry: &ProviderRegistry<P>, id: &str) -> (r: Option<usize>)
    ensures
        match r {
            Some(i) => i < registry.ids@.len() && registry.ids@[i as int]@ == id@ && (forall|
                j: int,
            |
                0 <= j < i ==> #[trigger] registry.ids@[j]@ != id@),
            None => forall|j: int|
                0 <= j < registry.ids@.len() ==> #[trigger] registry.ids@[j]@ != id@,
        },
{
    let n = registry.ids.len();
    let mut i: usize = 0;
    while i < n
        invariant
            n == registry.ids@.len(),
            0 <= i <= n,
            forall|j: int| 0 <= j < i ==> #[trigger] registry.ids@[j]@ != id@,
        decreases n - i,
    {
        if crate::strutil::str_eq(registry.ids[i].as_str(), id) {
            return Some(i);
        }
        i += 1;
    }
    None
}

} // verus!
