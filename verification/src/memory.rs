//! An in-memory container backend, verified against the provider traits.
//!
//! It keeps the set of defined containers in a vector, answers `run` with
//! scripted exit codes, and can be told to fail any operation.  It serves
//! as the reference implementation of the trait contracts and lets the
//! whole lifecycle — provision, bootstrap, rollback, teardown scan — be
//! exercised without a real container runtime.

use vstd::prelude::*;

use crate::config::ImageConfig;
use crate::lxc::parse_image_spec;
use crate::provider::{
    DestroyOutcome, Provider, ProviderError, ProviderOp, RunOptions, Runner, RunnerOp, run_op,
};

verus! {

/// Index of the first entry of `v` equal to `s`.
fn index_of_str(v: &Vec<String>, s: &str) -> (r: Option<usize>)
    ensures
        r matches Some(i) ==> i < v@.len() && v@[i as int]@ == s@,
        r is None ==> forall|j: int| 0 <= j < v@.len() ==> (#[trigger] v@[j])@ != s@,
{
    let n = v.len();
    let mut i: usize = 0;
    while i < n
        invariant
            n == v@.len(),
            0 <= i <= n,
            forall|j: int| 0 <= j < i ==> (#[trigger] v@[j])@ != s@,
        decreases n - i,
    {
        if crate::strutil::str_eq(v[i].as_str(), s) {
            return Some(i);
        }
        i += 1;
    }
    None
}

/// A handle on one in-memory container.
pub struct MemoryRunner {
    pub runner_id: String,
    pub is_running: bool,
    /// Exit codes handed out to successive `run` calls; exhausted entries
    /// answer 0.
    pub exit_codes: Vec<i32>,
    pub next_exit: usize,
    pub fail_start: bool,
    pub fail_stop: bool,
    pub fail_run: bool,
    /// The argv of every `run` call, in order.
    pub commands: Vec<Vec<String>>,
    /// The working directory of every `run` call, in order.
    pub cwds: Vec<String>,
    pub ops: Ghost<Seq<RunnerOp>>,
}

impl Runner for MemoryRunner {
    open spec fn history(&self) -> Seq<RunnerOp> {
        self.ops@
    }

    open spec fn running(&self) -> bool {
        self.is_running
    }

    fn id(&self) -> (r: Result<String, ProviderError>) {
        Ok(self.runner_id.clone())
    }

    fn start(&mut self) -> (r: Result<(), ProviderError>) {
        if self.is_running {
            self.ops = Ghost(self.ops@.push(RunnerOp::Start { ok: true }));
            Ok(())
        } else if self.fail_start {
            self.ops = Ghost(self.ops@.push(RunnerOp::Start { ok: false }));
            Err(ProviderError::RunnerStartFailed)
        } else {
            self.is_running = true;
            self.ops = Ghost(self.ops@.push(RunnerOp::Start { ok: true }));
            Ok(())
        }
    }

    fn stop(&mut self) -> (r: Result<(), ProviderError>) {
        if !self.is_running {
            self.ops = Ghost(self.ops@.push(RunnerOp::Stop { ok: true }));
            Ok(())
        } else if self.fail_stop {
            self.ops = Ghost(self.ops@.push(RunnerOp::Stop { ok: false }));
            Err(ProviderError::RunnerStopFailed)
        } else {
            self.is_running = false;
            self.ops = Ghost(self.ops@.push(RunnerOp::Stop { ok: true }));
            Ok(())
        }
    }

    fn run(&mut self, argv: &Vec<String>, options: &RunOptions) -> (r: Result<i32, ProviderError>) {
        self.commands.push(argv.clone());
        self.cwds.push(options.cwd.clone());
        if self.fail_run {
            self.ops = Ghost(
                self.ops@.push(
                    run_op(
                        argv.deep_view(),
                        *options,
                        Err::<i32, ProviderError>(ProviderError::RunnerRunFailed),
                    ),
                ),
            );
            return Err(ProviderError::RunnerRunFailed);
        }
        let code: i32 = if self.next_exit < self.exit_codes.len() {
            let c = self.exit_codes[self.next_exit];
            self.next_exit = self.next_exit + 1;
            c
        } else {
            0
        };
        self.ops = Ghost(
            self.ops@.push(run_op(argv.deep_view(), *options, Ok::<i32, ProviderError>(code))),
        );
        Ok(code)
    }
}

/// An in-memory container backend.
pub struct MemoryProvider {
    /// Ids of the containers currently defined.
    pub containers: Vec<String>,
    /// Exit codes handed to every runner this provider creates.
    pub exit_codes: Vec<i32>,
    pub fail_create: bool,
    pub fail_start: bool,
    pub fail_stop: bool,
    pub fail_run: bool,
    pub fail_destroy: bool,
    /// The runner id of every `create` call, in order.
    pub create_calls: Vec<String>,
    /// The runner id of every `destroy` call, in order.
    pub destroy_calls: Vec<String>,
    pub ops: Ghost<Seq<ProviderOp>>,
}

impl MemoryProvider {
    /// A fresh backend: nothing defined, nothing scripted to fail, every
    /// command answering exit 0.
    pub fn new() -> (r: MemoryProvider)
        ensures
            r.history() == Seq::<ProviderOp>::empty(),
            r.containers@.len() == 0,
            r.exit_codes@.len() == 0,
            !r.fail_create && !r.fail_start && !r.fail_stop && !r.fail_run && !r.fail_destroy,
            r.create_calls@.len() == 0,
            r.destroy_calls@.len() == 0,
    {
        MemoryProvider {
            containers: Vec::new(),
            exit_codes: Vec::new(),
            fail_create: false,
            fail_start: false,
            fail_stop: false,
            fail_run: false,
            fail_destroy: false,
            create_calls: Vec::new(),
            destroy_calls: Vec::new(),
            ops: Ghost(Seq::empty()),
        }
    }

    /// Whether a container under the given id is defined.
    pub fn is_defined(&self, runner_id: &str) -> (r: bool)
        ensures
            r == self.defined().contains(runner_id@),
    {
        match index_of_str(&self.containers, runner_id) {
            Some(i) => {
                proof {
                    assert((self.containers@[i as int])@ == runner_id@);
                }
                true
            },
            None => false,
        }
    }

    /// A fresh handle for this backend's scripted behaviour.
    fn fresh_runner(&self, runner_id: &str) -> (r: MemoryRunner)
        ensures
            r.history() == Seq::<RunnerOp>::empty(),
            !r.running(),
    {
        MemoryRunner {
            runner_id: String::from_str(runner_id),
            is_running: false,
            exit_codes: self.exit_codes.clone(),
            next_exit: 0,
            fail_start: self.fail_start,
            fail_stop: self.fail_stop,
            fail_run: self.fail_run,
            commands: Vec::new(),
            cwds: Vec::new(),
            ops: Ghost(Seq::empty()),
        }
    }
}

/// The set of views of a vector's entries.
pub open spec fn id_set(v: Seq<String>) -> Set<Seq<char>> {
    Set::new(|x: Seq<char>| exists|j: int| 0 <= j < v.len() && (#[trigger] v[j])@ == x)
}

impl Provider for MemoryProvider {
    type R = MemoryRunner;

    open spec fn history(&self) -> Seq<ProviderOp> {
        self.ops@
    }

    open spec fn defined(&self) -> Set<Seq<char>> {
        id_set(self.containers@)
    }

    fn create(&mut self, image_config: &ImageConfig, runner_id: &str) -> (r: Result<
        MemoryRunner,
        ProviderError,
    >) {
        self.create_calls.push(String::from_str(runner_id));
        proof {
            assert(self.defined() =~= old(self).defined());
        }
        if let Some(i) = index_of_str(&self.containers, runner_id) {
            proof {
                assert((self.containers@[i as int])@ == runner_id@);
            }
            self.ops = Ghost(
                self.ops@.push(ProviderOp::Create { runner_id: runner_id@, ok: false }),
            );
            return Err(ProviderError::RunnerCreationFailed);
        }
        match parse_image_spec(image_config.name.as_str()) {
            Err(_) => {
                self.ops = Ghost(
                    self.ops@.push(ProviderOp::Create { runner_id: runner_id@, ok: false }),
                );
                return Err(ProviderError::InvalidImage);
            },
            Ok(_) => {},
        }
        if self.fail_create {
            self.ops = Ghost(
                self.ops@.push(ProviderOp::Create { runner_id: runner_id@, ok: false }),
            );
            return Err(ProviderError::RunnerCreationFailed);
        }
        let runner = self.fresh_runner(runner_id);
        let ghost pre = self.containers@;
        self.containers.push(String::from_str(runner_id));
        proof {
            assert forall|x: Seq<char>|
                id_set(self.containers@).contains(x) <==> id_set(pre).insert(
                    runner_id@,
                ).contains(x) by {
                if id_set(self.containers@).contains(x) {
                    let j = choose|j: int|
                        0 <= j < self.containers@.len() && (#[trigger] self.containers@[j])@ == x;
                    if j < pre.len() {
                        assert(pre[j]@ == x);
                        assert(id_set(pre).contains(x));
                    } else {
                        assert(x == runner_id@);
                    }
                }
                if id_set(pre).insert(runner_id@).contains(x) {
                    if x == runner_id@ {
                        assert((self.containers@[pre.len() as int])@ == x);
                    } else {
                        let j = choose|j: int|
                            0 <= j < pre.len() && (#[trigger] pre[j])@ == x;
                        assert((self.containers@[j])@ == x);
                    }
                    assert(id_set(self.containers@).contains(x));
                }
            }
            assert(self.defined() =~= old(self).defined().insert(runner_id@));
        }
        self.ops = Ghost(self.ops@.push(ProviderOp::Create { runner_id: runner_id@, ok: true }));
        Ok(runner)
    }

    fn get(&mut self, runner_id: &str) -> (r: Result<MemoryRunner, ProviderError>) {
        proof {
            assert(self.defined() =~= old(self).defined());
        }
        match index_of_str(&self.containers, runner_id) {
            Some(i) => {
                proof {
                    assert((self.containers@[i as int])@ == runner_id@);
                }
                let runner = self.fresh_runner(runner_id);
                self.ops = Ghost(
                    self.ops@.push(ProviderOp::Get { runner_id: runner_id@, ok: true }),
                );
                Ok(runner)
            },
            None => {
                self.ops = Ghost(
                    self.ops@.push(ProviderOp::Get { runner_id: runner_id@, ok: false }),
                );
                Err(ProviderError::RunnerNotFound)
            },
        }
    }

    fn destroy(&mut self, runner_id: &str) -> (r: Result<(), ProviderError>) {
        self.destroy_calls.push(String::from_str(runner_id));
        proof {
            assert(self.defined() =~= old(self).defined());
        }
        match index_of_str(&self.containers, runner_id) {
            None => {
                self.ops = Ghost(
                    self.ops@.push(
                        ProviderOp::Destroy {
                            runner_id: runner_id@,
                            outcome: DestroyOutcome::NotFound,
                        },
                    ),
                );
                Err(ProviderError::RunnerNotFound)
            },
            Some(i) => {
                proof {
                    assert((self.containers@[i as int])@ == runner_id@);
                }
                if self.fail_destroy {
                    self.ops = Ghost(
                        self.ops@.push(
                            ProviderOp::Destroy {
                                runner_id: runner_id@,
                                outcome: DestroyOutcome::Failed,
                            },
                        ),
                    );
                    Err(ProviderError::RunnerDestructionFailed)
                } else {
                    let ghost pre = self.containers@;
                    // Remove every entry under the id.  Creation refuses
                    // duplicates, but the fields are public, so nothing
                    // guarantees their absence.
                    let n = self.containers.len();
                    let mut kept: Vec<String> = Vec::new();
                    let mut idx: usize = 0;
                    while idx < n
                        invariant
                            n == pre.len(),
                            self.containers@ == pre,
                            0 <= idx <= n,
                            forall|j: int|
                                0 <= j < kept@.len() ==> (#[trigger] kept@[j])@ != runner_id@,
                            forall|j: int|
                                0 <= j < kept@.len() ==> exists|j2: int|
                                    0 <= j2 < idx && pre[j2]@ == (#[trigger] kept@[j])@,
                            forall|j2: int|
                                0 <= j2 < idx && (#[trigger] pre[j2])@ != runner_id@
                                    ==> exists|j: int|
                                    0 <= j < kept@.len() && kept@[j]@ == pre[j2]@,
                        decreases n - idx,
                    {
                        if !crate::strutil::str_eq(self.containers[idx].as_str(), runner_id) {
                            let ghost kept_pre = kept@;
                            kept.push(self.containers[idx].clone());
                            proof {
                                assert(kept@.last()@ == pre[idx as int]@);
                                assert forall|j2: int|
                                    0 <= j2 < idx + 1 && (#[trigger] pre[j2])@
                                        != runner_id@ implies exists|j: int|
                                    0 <= j < kept@.len() && kept@[j]@ == pre[j2]@ by {
                                    if j2 == idx {
                                        assert(kept@[kept@.len() - 1]@ == pre[j2]@);
                                    } else {
                                        let j = choose|j: int|
                                            0 <= j < kept_pre.len() && kept_pre[j]@ == pre[j2]@;
                                        assert(kept@[j]@ == pre[j2]@);
                                    }
                                }
                            }
                        }
                        idx += 1;
                    }
                    self.containers = kept;
                    proof {
                        assert forall|x: Seq<char>|
                            id_set(self.containers@).contains(x) <==> id_set(pre).remove(
                                runner_id@,
                            ).contains(x) by {
                            if id_set(self.containers@).contains(x) {
                                let j = choose|j: int|
                                    0 <= j < self.containers@.len() && (
                                    #[trigger] self.containers@[j])@ == x;
                                let j2 = choose|j2: int|
                                    0 <= j2 < pre.len() && pre[j2]@ == (
                                    #[trigger] self.containers@[j])@;
                                assert(id_set(pre).contains(x));
                                assert(x != runner_id@);
                            }
                            if id_set(pre).remove(runner_id@).contains(x) {
                                let j2 = choose|j2: int|
                                    0 <= j2 < pre.len() && (#[trigger] pre[j2])@ == x;
                                assert(pre[j2]@ != runner_id@);
                                assert(id_set(self.containers@).contains(x));
                            }
                        }
                        assert(self.defined() =~= old(self).defined().remove(runner_id@));
                    }
                    self.ops = Ghost(
                        self.ops@.push(
                            ProviderOp::Destroy {
                                runner_id: runner_id@,
                                outcome: DestroyOutcome::Destroyed,
                            },
                        ),
                    );
                    Ok(())
                }
            },
        }
    }
}

} // verus!
