//! The provisioning state machine. It consumes events describing what the
//! outside world did (probe results, file contents, tool exit statuses) and
//! answers with the single next action to perform, so that every decision the
//! engine takes — when to rebuild, when to refresh, when to launch — is a
//! verified function of the recorded state and the event.

use vstd::prelude::*;

use crate::fingerprint::dependencies_match;
use crate::fingerprint::dependencies_match_spec;
use crate::fingerprint::opt_view;
use crate::fingerprint::runtime_matches;
use crate::fingerprint::runtime_matches_spec;

verus! {

/// How an external tool invocation ended.
#[derive(Clone, Copy, Debug, PartialEq, Eq, Structural)]
pub enum ToolOutcome {
    /// The tool ran and exited successfully.
    Success,
    /// The tool could not be started at all (missing binary, spawn error).
    SpawnFailed,
    /// The tool ran but exited unsuccessfully.
    ExitFailure,
}

/// The terminal causes of a failed provisioning run, one per pipeline step
/// that can go wrong.
#[derive(Clone, Copy, Debug, PartialEq, Eq, Structural)]
pub enum FailureKind {
    /// A bundled resource could not be found or copied into the environment
    /// directory: a broken application build, never retried.
    StagingFailed,
    /// The environment manager could not be started for its install step.
    EnvInstallSpawn,
    /// The environment manager's install step exited unsuccessfully.
    EnvInstallExit,
    /// The environment manager could not be started for the runtime build.
    CompileSpawn,
    /// The runtime build exited unsuccessfully.
    CompileExit,
    /// The dependency installer could not be started.
    DepsInstallSpawn,
    /// The dependency installer exited unsuccessfully.
    DepsInstallExit,
    /// The sidecar process could not be spawned.
    SidecarSpawn,
}

/// Where the engine stands. `Staging` and `InstallingDeps` record whether
/// they belong to a full rebuild (`full == true`) or to a dependency-only
/// refresh.
#[derive(Clone, Copy, Debug, PartialEq, Eq, Structural)]
pub enum Phase {
    Idle,
    CheckingRuntime,
    CheckingDeps,
    RemovingEnvDir,
    Staging { full: bool },
    EnvInstalling,
    CompilingRuntime,
    InstallingDeps { full: bool },
    LaunchingSidecar,
    Done,
    Failed { cause: FailureKind },
}

/// The single next thing the engine asks its surroundings to do.
#[derive(Clone, Copy, Debug, PartialEq, Eq, Structural)]
pub enum Action {
    /// Run the installed runtime's version query and report its output.
    ProbeRuntime,
    /// Read the installed dependency list and report its contents.
    ReadInstalledManifest,
    /// Delete the environment directory.
    RemoveEnvDir,
    /// Copy the bundled resources into the environment directory.
    StageResources,
    /// Run the environment manager's install step.
    RunEnvInstall,
    /// Run the environment manager's runtime build step.
    RunCompileRuntime,
    /// Run the dependency installer on the staged dependency list.
    RunInstallDeps,
    /// Start the sidecar process.
    LaunchSidecar,
    /// Report the terminal error and stop; the sidecar is never started.
    Report { cause: FailureKind },
    /// Provisioning is complete: dismiss the provisioning surface.
    Finish,
    /// The event does not belong to the current phase; nothing changes.
    Ignore,
}

/// What the outside world reports back to the engine. Stated over byte
/// sequences; the executable entry points below take the corresponding
/// byte vectors.
pub enum Event {
    Start,
    RuntimeProbed { output: Option<Seq<u8>> },
    InstalledManifestRead { contents: Option<Seq<u8>> },
    EnvDirRemoved,
    ResourcesStaged { ok: bool },
    EnvInstallFinished { outcome: ToolOutcome },
    CompileFinished { outcome: ToolOutcome },
    DepsInstallFinished { outcome: ToolOutcome },
    SidecarLaunched { ok: bool },
}

/// The fixed inputs of one provisioning run: the exact line the version probe
/// must print, and the bundled dependency list.
pub struct Config {
    pub expected_runtime_line: Seq<u8>,
    pub bundled_manifest: Seq<u8>,
}

/// The terminal pair a failure leads to.
pub open spec fn failed(cause: FailureKind) -> (Phase, Action) {
    (Phase::Failed { cause }, Action::Report { cause })
}

/// The complete transition function of the engine: from a phase and an event
/// to the next phase and the action the surroundings must perform. Events
/// that do not belong to the current phase change nothing.
pub open spec fn spec_step(p: Phase, e: Event, cfg: Config) -> (Phase, Action) {
    match (p, e) {
        (Phase::Idle, Event::Start) => (Phase::CheckingRuntime, Action::ProbeRuntime),
        (Phase::CheckingRuntime, Event::RuntimeProbed { output }) => {
            if runtime_matches_spec(output, cfg.expected_runtime_line) {
                (Phase::CheckingDeps, Action::ReadInstalledManifest)
            } else {
                (Phase::RemovingEnvDir, Action::RemoveEnvDir)
            }
        },
        (Phase::CheckingDeps, Event::InstalledManifestRead { contents }) => {
            if dependencies_match_spec(contents, cfg.bundled_manifest) {
                (Phase::LaunchingSidecar, Action::LaunchSidecar)
            } else {
                (Phase::Staging { full: false }, Action::StageResources)
            }
        },
        (Phase::RemovingEnvDir, Event::EnvDirRemoved) => {
            (Phase::Staging { full: true }, Action::StageResources)
        },
        (Phase::Staging { full }, Event::ResourcesStaged { ok }) => {
            if !ok {
                failed(FailureKind::StagingFailed)
            } else if full {
                (Phase::EnvInstalling, Action::RunEnvInstall)
            } else {
                (Phase::InstallingDeps { full: false }, Action::RunInstallDeps)
            }
        },
        (Phase::EnvInstalling, Event::EnvInstallFinished { outcome }) => {
            match outcome {
                ToolOutcome::Success => (Phase::CompilingRuntime, Action::RunCompileRuntime),
                ToolOutcome::SpawnFailed => failed(FailureKind::EnvInstallSpawn),
                ToolOutcome::ExitFailure => failed(FailureKind::EnvInstallExit),
            }
        },
        (Phase::CompilingRuntime, Event::CompileFinished { outcome }) => {
            match outcome {
                ToolOutcome::Success => (
                    Phase::InstallingDeps { full: true },
                    Action::RunInstallDeps,
                ),
                ToolOutcome::SpawnFailed => failed(FailureKind::CompileSpawn),
                ToolOutcome::ExitFailure => failed(FailureKind::CompileExit),
            }
        },
        (Phase::InstallingDeps { full: _ }, Event::DepsInstallFinished { outcome }) => {
            match outcome {
                ToolOutcome::Success => (Phase::LaunchingSidecar, Action::LaunchSidecar),
                ToolOutcome::SpawnFailed => failed(FailureKind::DepsInstallSpawn),
                ToolOutcome::ExitFailure => failed(FailureKind::DepsInstallExit),
            }
        },
        (Phase::LaunchingSidecar, Event::SidecarLaunched { ok }) => {
            if ok {
                (Phase::Done, Action::Finish)
            } else {
                failed(FailureKind::SidecarSpawn)
            }
        },
        (_, _) => (p, Action::Ignore),
    }
}

/// The state of the environment directory, computed fresh from the two
/// fingerprint checks each run; the directory itself is the only store of
/// this information.
#[derive(Clone, Copy, Debug, PartialEq, Eq, Structural)]
pub enum EnvState {
    /// No environment directory exists at all.
    Absent,
    /// The installed runtime does not answer with the expected version.
    VersionStale,
    /// The runtime is current but the installed dependency list differs
    /// from the bundled one.
    DependenciesStale,
    /// Runtime and dependency list both match; nothing to do.
    Ready,
}

/// What one provisioning run will do to the environment directory.
#[derive(Clone, Copy, Debug, PartialEq, Eq, Structural)]
pub enum Plan {
    /// Touch nothing; proceed straight to the launch.
    NoOp,
    /// Re-stage the bundled resources and reinstall the dependencies only.
    RefreshDependencies,
    /// Delete the directory, re-stage everything and run the full pipeline.
    FullReinstall,
}

/// The environment state as a function of what is on disk: absence wins,
/// then the runtime check, then the dependency check.
pub open spec fn classify_spec(
    env_dir_exists: bool,
    probe: Option<Seq<u8>>,
    installed: Option<Seq<u8>>,
    cfg: Config,
) -> EnvState {
    if !env_dir_exists {
        EnvState::Absent
    } else if !runtime_matches_spec(probe, cfg.expected_runtime_line) {
        EnvState::VersionStale
    } else if !dependencies_match_spec(installed, cfg.bundled_manifest) {
        EnvState::DependenciesStale
    } else {
        EnvState::Ready
    }
}

/// Computes the environment state from the raw observations: whether the
/// directory exists, the version probe's output, and the installed
/// dependency list.
pub fn classify(
    env_dir_exists: bool,
    probe: &Option<Vec<u8>>,
    installed: &Option<Vec<u8>>,
    expected_runtime_line: &Vec<u8>,
    bundled_manifest: &Vec<u8>,
) -> (s: EnvState)
    ensures
        s == classify_spec(
            env_dir_exists,
            opt_view(*probe),
            opt_view(*installed),
            Config {
                expected_runtime_line: expected_runtime_line@,
                bundled_manifest: bundled_manifest@,
            },
        ),
{
    if !env_dir_exists {
        EnvState::Absent
    } else if !runtime_matches(probe, expected_runtime_line) {
        EnvState::VersionStale
    } else if !dependencies_match(installed, bundled_manifest) {
        EnvState::DependenciesStale
    } else {
        EnvState::Ready
    }
}

/// The decision table as a total function over the environment state: a
/// missing or version-stale directory is rebuilt from scratch, a stale
/// dependency list is refreshed in place, and a ready directory is left
/// untouched.
pub open spec fn plan_for_spec(s: EnvState) -> Plan {
    match s {
        EnvState::Absent => Plan::FullReinstall,
        EnvState::VersionStale => Plan::FullReinstall,
        EnvState::DependenciesStale => Plan::RefreshDependencies,
        EnvState::Ready => Plan::NoOp,
    }
}

/// Picks the provisioning plan for an environment state.
pub fn plan_for(s: EnvState) -> (p: Plan)
    ensures
        p == plan_for_spec(s),
{
    match s {
        EnvState::Absent => Plan::FullReinstall,
        EnvState::VersionStale => Plan::FullReinstall,
        EnvState::DependenciesStale => Plan::RefreshDependencies,
        EnvState::Ready => Plan::NoOp,
    }
}

/// The provisioning engine: the current phase plus the run's fixed inputs.
pub struct Orchestrator {
    pub phase: Phase,
    pub expected_runtime_line: Vec<u8>,
    pub bundled_manifest: Vec<u8>,
}

impl Orchestrator {
    /// The run's fixed inputs as the mathematical configuration the
    /// transition function is stated over.
    pub open spec fn config(self) -> Config {
        Config {
            expected_runtime_line: self.expected_runtime_line@,
            bundled_manifest: self.bundled_manifest@,
        }
    }

    /// One step of the engine: the phase advances exactly as the transition
    /// function says, the configuration never changes.
    pub open spec fn steps_to(pre: Orchestrator, post: Orchestrator, e: Event, a: Action) -> bool {
        &&& post.config() == pre.config()
        &&& (post.phase, a) == spec_step(pre.phase, e, pre.config())
    }

    /// A fresh engine for one provisioning run.
    pub fn new(expected_runtime_line: Vec<u8>, bundled_manifest: Vec<u8>) -> (o: Orchestrator)
        ensures
            o.phase == Phase::Idle,
            o.config() == (Config {
                expected_runtime_line: expected_runtime_line@,
                bundled_manifest: bundled_manifest@,
            }),
    {
        Orchestrator { phase: Phase::Idle, expected_runtime_line, bundled_manifest }
    }

    /// The run begins: ask for the runtime version probe.
    pub fn start(&mut self) -> (a: Action)
        ensures
            Orchestrator::steps_to(*old(self), *final(self), Event::Start, a),
    {
        match self.phase {
            Phase::Idle => {
                self.phase = Phase::CheckingRuntime;
                Action::ProbeRuntime
            },
            _ => Action::Ignore,
        }
    }

    /// The version probe came back; `output` is its standard output, or
    /// `None` when the probe could not be run at all.
    pub fn runtime_probed(&mut self, output: Option<Vec<u8>>) -> (a: Action)
        ensures
            Orchestrator::steps_to(
                *old(self),
                *final(self),
                Event::RuntimeProbed { output: opt_view(output) },
                a,
            ),
    {
        match self.phase {
            Phase::CheckingRuntime => {
                if runtime_matches(&output, &self.expected_runtime_line) {
                    self.phase = Phase::CheckingDeps;
                    Action::ReadInstalledManifest
                } else {
                    self.phase = Phase::RemovingEnvDir;
                    Action::RemoveEnvDir
                }
            },
            _ => Action::Ignore,
        }
    }

    /// The installed dependency list was read; `contents` is `None` when the
    /// file does not exist or could not be read.
    pub fn installed_manifest_read(&mut self, contents: Option<Vec<u8>>) -> (a: Action)
        ensures
            Orchestrator::steps_to(
                *old(self),
                *final(self),
                Event::InstalledManifestRead { contents: opt_view(contents) },
                a,
            ),
    {
        match self.phase {
            Phase::CheckingDeps => {
                if dependencies_match(&contents, &self.bundled_manifest) {
                    self.phase = Phase::LaunchingSidecar;
                    Action::LaunchSidecar
                } else {
                    self.phase = Phase::Staging { full: false };
                    Action::StageResources
                }
            },
            _ => Action::Ignore,
        }
    }

    /// The environment directory was deleted (a directory that was already
    /// absent counts as deleted).
    pub fn env_dir_removed(&mut self) -> (a: Action)
        ensures
            Orchestrator::steps_to(*old(self), *final(self), Event::EnvDirRemoved, a),
    {
        match self.phase {
            Phase::RemovingEnvDir => {
                self.phase = Phase::Staging { full: true };
                Action::StageResources
            },
            _ => Action::Ignore,
        }
    }

    /// Staging the bundled resources finished; `ok == false` means a resource
    /// was missing or a copy failed, which is fatal.
    pub fn resources_staged(&mut self, ok: bool) -> (a: Action)
        ensures
            Orchestrator::steps_to(*old(self), *final(self), Event::ResourcesStaged { ok }, a),
    {
        match self.phase {
            Phase::Staging { full } => {
                if !ok {
                    self.phase = Phase::Failed { cause: FailureKind::StagingFailed };
                    Action::Report { cause: FailureKind::StagingFailed }
                } else if full {
                    self.phase = Phase::EnvInstalling;
                    Action::RunEnvInstall
                } else {
                    self.phase = Phase::InstallingDeps { full: false };
                    Action::RunInstallDeps
                }
            },
            _ => Action::Ignore,
        }
    }

    /// The environment manager's install step finished.
    pub fn env_install_finished(&mut self, outcome: ToolOutcome) -> (a: Action)
        ensures
            Orchestrator::steps_to(
                *old(self),
                *final(self),
                Event::EnvInstallFinished { outcome },
                a,
            ),
    {
        match self.phase {
            Phase::EnvInstalling => {
                match outcome {
                    ToolOutcome::Success => {
                        self.phase = Phase::CompilingRuntime;
                        Action::RunCompileRuntime
                    },
                    ToolOutcome::SpawnFailed => {
                        self.phase = Phase::Failed { cause: FailureKind::EnvInstallSpawn };
                        Action::Report { cause: FailureKind::EnvInstallSpawn }
                    },
                    ToolOutcome::ExitFailure => {
                        self.phase = Phase::Failed { cause: FailureKind::EnvInstallExit };
                        Action::Report { cause: FailureKind::EnvInstallExit }
                    },
                }
            },
            _ => Action::Ignore,
        }
    }

    /// The runtime build step finished.
    pub fn compile_finished(&mut self, outcome: ToolOutcome) -> (a: Action)
        ensures
            Orchestrator::steps_to(*old(self), *final(self), Event::CompileFinished { outcome }, a),
    {
        match self.phase {
            Phase::CompilingRuntime => {
                match outcome {
                    ToolOutcome::Success => {
                        self.phase = Phase::InstallingDeps { full: true };
                        Action::RunInstallDeps
                    },
                    ToolOutcome::SpawnFailed => {
                        self.phase = Phase::Failed { cause: FailureKind::CompileSpawn };
                        Action::Report { cause: FailureKind::CompileSpawn }
                    },
                    ToolOutcome::ExitFailure => {
                        self.phase = Phase::Failed { cause: FailureKind::CompileExit };
                        Action::Report { cause: FailureKind::CompileExit }
                    },
                }
            },
            _ => Action::Ignore,
        }
    }

    /// The dependency installer finished.
    pub fn deps_install_finished(&mut self, outcome: ToolOutcome) -> (a: Action)
        ensures
            Orchestrator::steps_to(
                *old(self),
                *final(self),
                Event::DepsInstallFinished { outcome },
                a,
            ),
    {
        match self.phase {
            Phase::InstallingDeps { full: _ } => {
                match outcome {
                    ToolOutcome::Success => {
                        self.phase = Phase::LaunchingSidecar;
                        Action::LaunchSidecar
                    },
                    ToolOutcome::SpawnFailed => {
                        self.phase = Phase::Failed { cause: FailureKind::DepsInstallSpawn };
                        Action::Report { cause: FailureKind::DepsInstallSpawn }
                    },
                    ToolOutcome::ExitFailure => {
                        self.phase = Phase::Failed { cause: FailureKind::DepsInstallExit };
                        Action::Report { cause: FailureKind::DepsInstallExit }
                    },
                }
            },
            _ => Action::Ignore,
        }
    }

    /// The sidecar spawn attempt finished.
    pub fn sidecar_launched(&mut self, ok: bool) -> (a: Action)
        ensures
            Orchestrator::steps_to(*old(self), *final(self), Event::SidecarLaunched { ok }, a),
    {
        match self.phase {
            Phase::LaunchingSidecar => {
                if ok {
                    self.phase = Phase::Done;
                    Action::Finish
                } else {
                    self.phase = Phase::Failed { cause: FailureKind::SidecarSpawn };
                    Action::Report { cause: FailureKind::SidecarSpawn }
                }
            },
            _ => Action::Ignore,
        }
    }
}

} // verus!
