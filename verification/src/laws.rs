//! The engine's laws: a mathematical model of the environment directory and
//! proofs that the state machine drives it as the decision table promises —
//! an untouched directory stays untouched, a stale one is rebuilt from a
//! clean slate, a successful run leaves the directory ready, and a failed
//! pipeline step ends the run without ever launching the sidecar.

use vstd::prelude::*;

use crate::fingerprint::dependencies_match_spec;
use crate::fingerprint::runtime_matches_spec;
use crate::fingerprint::trimmed;
use crate::orchestrator::Action;
use crate::orchestrator::Config;
use crate::orchestrator::EnvState;
use crate::orchestrator::Event;
use crate::orchestrator::FailureKind;
use crate::orchestrator::Phase;
use crate::orchestrator::Plan;
use crate::orchestrator::ToolOutcome;
use crate::orchestrator::classify_spec;
use crate::orchestrator::plan_for_spec;
use crate::orchestrator::spec_step;

verus! {

/// Everything the engine can observe of the machine it runs on: whether the
/// environment directory exists, what the runtime's version probe prints
/// (`None` when no runtime answers), and the installed dependency list
/// (`None` when the file is missing).
pub struct World {
    pub env_dir_exists: bool,
    pub probe_output: Option<Seq<u8>>,
    pub installed_manifest: Option<Seq<u8>>,
}

/// The world of a machine with no environment directory at all.
pub open spec fn empty_world() -> World {
    World { env_dir_exists: false, probe_output: None, installed_manifest: None }
}

/// A world is coherent when a missing directory holds neither a runtime nor
/// a dependency list.
pub open spec fn coherent(w: World) -> bool {
    !w.env_dir_exists ==> w.probe_output is None && w.installed_manifest is None
}

/// The environment state of a world.
pub open spec fn classify_world(w: World, cfg: Config) -> EnvState {
    classify_spec(w.env_dir_exists, w.probe_output, w.installed_manifest, cfg)
}

/// The actions that change the environment directory.
pub open spec fn mutates_env_dir(a: Action) -> bool {
    match a {
        Action::RemoveEnvDir => true,
        Action::StageResources => true,
        Action::RunEnvInstall => true,
        Action::RunCompileRuntime => true,
        Action::RunInstallDeps => true,
        _ => false,
    }
}

/// The actions that invoke an external tool.
pub open spec fn invokes_tool(a: Action) -> bool {
    match a {
        Action::RunEnvInstall => true,
        Action::RunCompileRuntime => true,
        Action::RunInstallDeps => true,
        _ => false,
    }
}

/// How a successfully performed action changes the world. Removal empties
/// the directory; staging creates it and overwrites the installed dependency
/// list with the bundled one; the runtime build installs the pinned runtime,
/// so afterwards the version probe answers with the expected line. The
/// remaining actions only read, install packages, or run processes, and leave
/// both fingerprints as they are.
pub open spec fn apply_action(w: World, a: Action, cfg: Config) -> World {
    match a {
        Action::RemoveEnvDir => empty_world(),
        Action::StageResources => World {
            env_dir_exists: true,
            probe_output: w.probe_output,
            installed_manifest: Some(cfg.bundled_manifest),
        },
        Action::RunCompileRuntime => World {
            env_dir_exists: w.env_dir_exists,
            probe_output: Some(cfg.expected_runtime_line),
            installed_manifest: w.installed_manifest,
        },
        _ => w,
    }
}

/// The world after a sequence of successfully performed actions.
pub open spec fn world_after(w: World, actions: Seq<Action>, cfg: Config) -> World
    decreases actions.len(),
{
    if actions.len() == 0 {
        w
    } else {
        world_after(apply_action(w, actions[0], cfg), actions.subrange(1, actions.len() as int), cfg)
    }
}

/// The event a world answers with when the action asked of it succeeds.
pub open spec fn success_event_in(p: Phase, w: World) -> Event {
    match p {
        Phase::Idle => Event::Start,
        Phase::CheckingRuntime => Event::RuntimeProbed { output: w.probe_output },
        Phase::CheckingDeps => Event::InstalledManifestRead { contents: w.installed_manifest },
        Phase::RemovingEnvDir => Event::EnvDirRemoved,
        Phase::Staging { full: _ } => Event::ResourcesStaged { ok: true },
        Phase::EnvInstalling => Event::EnvInstallFinished { outcome: ToolOutcome::Success },
        Phase::CompilingRuntime => Event::CompileFinished { outcome: ToolOutcome::Success },
        Phase::InstallingDeps { full: _ } => Event::DepsInstallFinished {
            outcome: ToolOutcome::Success,
        },
        Phase::LaunchingSidecar => Event::SidecarLaunched { ok: true },
        Phase::Done => Event::Start,
        Phase::Failed { cause: _ } => Event::Start,
    }
}

/// How far a phase still is from the end of a run; every transition under
/// success events strictly lowers it.
pub open spec fn phase_rank(p: Phase) -> nat {
    match p {
        Phase::Idle => 9,
        Phase::CheckingRuntime => 8,
        Phase::CheckingDeps => 7,
        Phase::RemovingEnvDir => 7,
        Phase::Staging { full: _ } => 6,
        Phase::EnvInstalling => 5,
        Phase::CompilingRuntime => 4,
        Phase::InstallingDeps { full: _ } => 3,
        Phase::LaunchingSidecar => 2,
        Phase::Done => 0,
        Phase::Failed { cause: _ } => 0,
    }
}

/// A whole provisioning run in which every action the engine asks for
/// succeeds: from a phase and a world to the final phase, the final world,
/// and the actions performed along the way, in order.
pub open spec fn run_to_completion(p: Phase, w: World, cfg: Config) -> (Phase, World, Seq<Action>)
    decreases phase_rank(p),
{
    if p is Done || p is Failed {
        (p, w, Seq::<Action>::empty())
    } else {
        let next = spec_step(p, success_event_in(p, w), cfg);
        if phase_rank(next.0) < phase_rank(p) {
            let rest = run_to_completion(next.0, apply_action(w, next.1, cfg), cfg);
            (rest.0, rest.1, seq![next.1] + rest.2)
        } else {
            (p, w, Seq::<Action>::empty())
        }
    }
}

/// The actions each plan stands for.
pub open spec fn plan_actions(p: Plan) -> Seq<Action> {
    match p {
        Plan::NoOp => seq![
            Action::ProbeRuntime,
            Action::ReadInstalledManifest,
            Action::LaunchSidecar,
            Action::Finish,
        ],
        Plan::RefreshDependencies => seq![
            Action::ProbeRuntime,
            Action::ReadInstalledManifest,
            Action::StageResources,
            Action::RunInstallDeps,
            Action::LaunchSidecar,
            Action::Finish,
        ],
        Plan::FullReinstall => seq![
            Action::ProbeRuntime,
            Action::RemoveEnvDir,
            Action::StageResources,
            Action::RunEnvInstall,
            Action::RunCompileRuntime,
            Action::RunInstallDeps,
            Action::LaunchSidecar,
            Action::Finish,
        ],
    }
}

/// When everything the engine asks for succeeds, a run from a coherent world
/// completes, and performs exactly the actions of the plan that the decision
/// table picks for that world's environment state.
pub proof fn lemma_run_follows_plan(w: World, cfg: Config)
    requires
        coherent(w),
    ensures
        run_to_completion(Phase::Idle, w, cfg).0 == Phase::Done,
        run_to_completion(Phase::Idle, w, cfg).2 =~= plan_actions(
            plan_for_spec(classify_world(w, cfg)),
        ),
{
    reveal_with_fuel(run_to_completion, 10);
}

/// A ready environment is only read: the run touches nothing on disk,
/// invokes no external tool, and goes straight to the launch.
pub proof fn lemma_ready_run_is_readonly(w: World, cfg: Config)
    requires
        classify_world(w, cfg) == EnvState::Ready,
    ensures
        run_to_completion(Phase::Idle, w, cfg).0 == Phase::Done,
        run_to_completion(Phase::Idle, w, cfg).1 == w,
        run_to_completion(Phase::Idle, w, cfg).2 =~= plan_actions(Plan::NoOp),
        forall|i: int|
            0 <= i < run_to_completion(Phase::Idle, w, cfg).2.len() ==> !mutates_env_dir(
                #[trigger] run_to_completion(Phase::Idle, w, cfg).2[i],
            ) && !invokes_tool(run_to_completion(Phase::Idle, w, cfg).2[i]),
{
    reveal_with_fuel(run_to_completion, 10);
}

/// Provisioning is idempotent: one successful run leaves the environment
/// directory ready, so a second run with unchanged bundled resources takes
/// the no-op path and mutates nothing. The expected probe line must carry no
/// surrounding whitespace, else even a freshly built runtime could not match
/// it.
pub proof fn lemma_provisioning_idempotent(w: World, cfg: Config)
    requires
        coherent(w),
        trimmed(cfg.expected_runtime_line) == cfg.expected_runtime_line,
    ensures
        run_to_completion(Phase::Idle, w, cfg).0 == Phase::Done,
        classify_world(run_to_completion(Phase::Idle, w, cfg).1, cfg) == EnvState::Ready,
        run_to_completion(Phase::Idle, run_to_completion(Phase::Idle, w, cfg).1, cfg).2
            =~= plan_actions(Plan::NoOp),
        forall|i: int|
            0 <= i < run_to_completion(
                Phase::Idle,
                run_to_completion(Phase::Idle, w, cfg).1,
                cfg,
            ).2.len() ==> !mutates_env_dir(
                #[trigger] run_to_completion(
                    Phase::Idle,
                    run_to_completion(Phase::Idle, w, cfg).1,
                    cfg,
                ).2[i],
            ),
{
    reveal_with_fuel(run_to_completion, 10);
    lemma_run_follows_plan(w, cfg);
    let after = run_to_completion(Phase::Idle, w, cfg).1;
    assert(classify_world(after, cfg) == EnvState::Ready);
    lemma_ready_run_is_readonly(after, cfg);
}

/// A version mismatch is destructive: the run deletes the environment
/// directory before it stages anything, so nothing of the prior contents
/// survives into the rebuilt directory.
pub proof fn lemma_version_mismatch_is_destructive(w: World, cfg: Config)
    requires
        !runtime_matches_spec(w.probe_output, cfg.expected_runtime_line),
    ensures
        run_to_completion(Phase::Idle, w, cfg).2 =~= plan_actions(Plan::FullReinstall),
        run_to_completion(Phase::Idle, w, cfg).2[1] == Action::RemoveEnvDir,
        run_to_completion(Phase::Idle, w, cfg).2[2] == Action::StageResources,
        world_after(w, run_to_completion(Phase::Idle, w, cfg).2.subrange(0, 2), cfg)
            == empty_world(),
{
    reveal_with_fuel(run_to_completion, 10);
    reveal_with_fuel(world_after, 4);
    let trace = run_to_completion(Phase::Idle, w, cfg).2;
    assert(trace =~= plan_actions(Plan::FullReinstall));
    let pre = trace.subrange(0, 2);
    assert(pre[0] == Action::ProbeRuntime);
    assert(pre[1] == Action::RemoveEnvDir);
    assert(pre.subrange(1, 2)[0] == Action::RemoveEnvDir);
    assert(pre.subrange(1, 2).subrange(1, 1) =~= Seq::<Action>::empty());
}

/// A dependency-list mismatch alone is repaired in place: the bundled
/// resources are re-staged and the dependencies reinstalled, but the
/// environment manager's install and runtime build steps never run.
pub proof fn lemma_manifest_mismatch_partial_refresh(w: World, cfg: Config)
    requires
        runtime_matches_spec(w.probe_output, cfg.expected_runtime_line),
        !dependencies_match_spec(w.installed_manifest, cfg.bundled_manifest),
    ensures
        run_to_completion(Phase::Idle, w, cfg).0 == Phase::Done,
        run_to_completion(Phase::Idle, w, cfg).2 =~= plan_actions(Plan::RefreshDependencies),
        !run_to_completion(Phase::Idle, w, cfg).2.contains(Action::RunEnvInstall),
        !run_to_completion(Phase::Idle, w, cfg).2.contains(Action::RunCompileRuntime),
{
    reveal_with_fuel(run_to_completion, 10);
    let trace = run_to_completion(Phase::Idle, w, cfg).2;
    assert(trace =~= plan_actions(Plan::RefreshDependencies));
    assert forall|i: int| 0 <= i < trace.len() implies trace[i] != Action::RunEnvInstall
        && trace[i] != Action::RunCompileRuntime by {}
}

/// On a fresh machine — no environment directory at all — the full pipeline
/// runs: staging, environment install, runtime build and dependency install,
/// in that order, and the run completes.
pub proof fn lemma_fresh_machine_runs_full_pipeline(cfg: Config)
    ensures
        classify_world(empty_world(), cfg) == EnvState::Absent,
        run_to_completion(Phase::Idle, empty_world(), cfg).0 == Phase::Done,
        run_to_completion(Phase::Idle, empty_world(), cfg).2 =~= plan_actions(
            Plan::FullReinstall,
        ),
{
    reveal_with_fuel(run_to_completion, 10);
}

/// A run driven by an explicit sequence of events: the final phase and the
/// actions the engine answered with, in order.
pub open spec fn run_events(p: Phase, events: Seq<Event>, cfg: Config) -> (Phase, Seq<Action>)
    decreases events.len(),
{
    if events.len() == 0 {
        (p, Seq::<Action>::empty())
    } else {
        let next = spec_step(p, events[0], cfg);
        let rest = run_events(next.0, events.subrange(1, events.len() as int), cfg);
        (rest.0, seq![next.1] + rest.1)
    }
}

/// A failed run is terminal: no later event moves the engine anywhere.
pub proof fn lemma_failed_is_terminal(cause: FailureKind, e: Event, cfg: Config)
    ensures
        spec_step(Phase::Failed { cause }, e, cfg) == (Phase::Failed { cause }, Action::Ignore),
{
}

/// Whatever happens after a failure, the engine stays failed and answers
/// every event with `Ignore`; in particular the sidecar is never launched.
pub proof fn lemma_failure_never_launches(cause: FailureKind, events: Seq<Event>, cfg: Config)
    ensures
        run_events(Phase::Failed { cause }, events, cfg).0 == (Phase::Failed { cause }),
        forall|i: int|
            0 <= i < run_events(Phase::Failed { cause }, events, cfg).1.len()
                ==> run_events(Phase::Failed { cause }, events, cfg).1[i] == Action::Ignore,
    decreases events.len(),
{
    reveal_with_fuel(run_events, 2);
    if events.len() > 0 {
        lemma_failure_never_launches(cause, events.subrange(1, events.len() as int), cfg);
    }
}

/// When the environment manager cannot be started for its install step, the
/// run aborts right there: a single report names that step, and no later
/// pipeline stage and no launch ever happens.
pub proof fn lemma_missing_tool_aborts(w: World, cfg: Config)
    requires
        !runtime_matches_spec(w.probe_output, cfg.expected_runtime_line),
    ensures
        ({
            let events = seq![
                Event::Start,
                Event::RuntimeProbed { output: w.probe_output },
                Event::EnvDirRemoved,
                Event::ResourcesStaged { ok: true },
                Event::EnvInstallFinished { outcome: ToolOutcome::SpawnFailed },
            ];
            let outcome = run_events(Phase::Idle, events, cfg);
            &&& outcome.0 == Phase::Failed { cause: FailureKind::EnvInstallSpawn }
            &&& outcome.1 =~= seq![
                Action::ProbeRuntime,
                Action::RemoveEnvDir,
                Action::StageResources,
                Action::RunEnvInstall,
                Action::Report { cause: FailureKind::EnvInstallSpawn },
            ]
            &&& !outcome.1.contains(Action::LaunchSidecar)
        }),
{
    reveal_with_fuel(run_events, 7);
    let events = seq![
        Event::Start,
        Event::RuntimeProbed { output: w.probe_output },
        Event::EnvDirRemoved,
        Event::ResourcesStaged { ok: true },
        Event::EnvInstallFinished { outcome: ToolOutcome::SpawnFailed },
    ];
    let outcome = run_events(Phase::Idle, events, cfg);
    assert(events.subrange(1, 5).subrange(1, 4) =~= events.subrange(2, 5));
    assert(events.subrange(2, 5).subrange(1, 3) =~= events.subrange(3, 5));
    assert(events.subrange(3, 5).subrange(1, 2) =~= events.subrange(4, 5));
    assert(events.subrange(4, 5).subrange(1, 1) =~= Seq::<Event>::empty());
    assert(outcome.1 =~= seq![
        Action::ProbeRuntime,
        Action::RemoveEnvDir,
        Action::StageResources,
        Action::RunEnvInstall,
        Action::Report { cause: FailureKind::EnvInstallSpawn },
    ]);
    assert forall|i: int| 0 <= i < outcome.1.len() implies outcome.1[i]
        != Action::LaunchSidecar by {}
}

} // verus!

