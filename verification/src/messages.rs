//! The human-readable messages the engine sends to the presentation layer:
//! a progress line for each transition of the state machine, and one
//! terminal error line per failure cause, naming the step that failed.

use vstd::prelude::*;

use crate::orchestrator::FailureKind;
use crate::orchestrator::Phase;

verus! {

/// The progress messages announced when the engine moves from `before` to
/// `after`, in emission order; transitions that say nothing give the empty
/// sequence.
pub open spec fn progress_messages_spec(before: Phase, after: Phase) -> Seq<Seq<char>> {
    match (before, after) {
        (Phase::Idle, Phase::CheckingRuntime) => seq!["Checking for existing python..."@],
        (Phase::CheckingRuntime, Phase::CheckingDeps) => seq![
            "Correct Python already exists"@,
            "Checking packages are up to date..."@,
        ],
        (Phase::CheckingRuntime, Phase::RemovingEnvDir) => seq![
            "Correct version of Python doesn't exist, installing... This might take a couple of minutes"@,
        ],
        (Phase::CheckingDeps, Phase::Staging { full: false }) => seq!["Updating packages..."@],
        (Phase::CheckingDeps, Phase::LaunchingSidecar) => seq![
            "Packages are up to date"@,
            "Starting network analysis app"@,
        ],
        (Phase::CompilingRuntime, Phase::InstallingDeps { full: true }) => seq![
            "Python installed! Installing packages..."@,
        ],
        (Phase::InstallingDeps { full: false }, Phase::LaunchingSidecar) => seq![
            "Packages are up to date"@,
            "Starting network analysis app"@,
        ],
        (Phase::InstallingDeps { full: true }, Phase::LaunchingSidecar) => seq![
            "Starting network analysis app"@,
        ],
        (_, _) => Seq::<Seq<char>>::empty(),
    }
}

/// The progress messages for a transition of the engine, in emission order.
pub fn progress_messages(before: &Phase, after: &Phase) -> (msgs: Vec<&'static str>)
    ensures
        msgs@.len() == progress_messages_spec(*before, *after).len(),
        forall|i: int|
            0 <= i < msgs@.len() ==> msgs@[i]@ == progress_messages_spec(*before, *after)[i],
{
    let mut msgs: Vec<&'static str> = Vec::new();
    match (before, after) {
        (Phase::Idle, Phase::CheckingRuntime) => {
            msgs.push("Checking for existing python...");
        },
        (Phase::CheckingRuntime, Phase::CheckingDeps) => {
            msgs.push("Correct Python already exists");
            msgs.push("Checking packages are up to date...");
        },
        (Phase::CheckingRuntime, Phase::RemovingEnvDir) => {
            msgs.push(
                "Correct version of Python doesn't exist, installing... This might take a couple of minutes",
            );
        },
        (Phase::CheckingDeps, Phase::Staging { full: false }) => {
            msgs.push("Updating packages...");
        },
        (Phase::CheckingDeps, Phase::LaunchingSidecar) => {
            msgs.push("Packages are up to date");
            msgs.push("Starting network analysis app");
        },
        (Phase::CompilingRuntime, Phase::InstallingDeps { full: true }) => {
            msgs.push("Python installed! Installing packages...");
        },
        (Phase::InstallingDeps { full: false }, Phase::LaunchingSidecar) => {
            msgs.push("Packages are up to date");
            msgs.push("Starting network analysis app");
        },
        (Phase::InstallingDeps { full: true }, Phase::LaunchingSidecar) => {
            msgs.push("Starting network analysis app");
        },
        (_, _) => {},
    }
    msgs
}

/// The terminal error line for each failure cause; each names the step that
/// failed.
pub open spec fn error_message_spec(cause: FailureKind) -> Seq<char> {
    match cause {
        FailureKind::StagingFailed => "failed to find resource file in app resources"@,
        FailureKind::EnvInstallSpawn => "Failed to pixi install. Do you have pixi on the system?"@,
        FailureKind::EnvInstallExit => "Failed to set up environment with pixi"@,
        FailureKind::CompileSpawn => "Failed to run pixi command. Do you have pixi on the system?"@,
        FailureKind::CompileExit => "Failed to compile python"@,
        FailureKind::DepsInstallSpawn => "Failed to run pip. Is your python install ok?"@,
        FailureKind::DepsInstallExit => "Failed to install kiara"@,
        FailureKind::SidecarSpawn => "Failed to spawn sidecar"@,
    }
}

/// The terminal error line reported for a failure cause.
pub fn error_message(cause: FailureKind) -> (r: &'static str)
    ensures
        r@ == error_message_spec(cause),
{
    match cause {
        FailureKind::StagingFailed => "failed to find resource file in app resources",
        FailureKind::EnvInstallSpawn => "Failed to pixi install. Do you have pixi on the system?",
        FailureKind::EnvInstallExit => "Failed to set up environment with pixi",
        FailureKind::CompileSpawn => "Failed to run pixi command. Do you have pixi on the system?",
        FailureKind::CompileExit => "Failed to compile python",
        FailureKind::DepsInstallSpawn => "Failed to run pip. Is your python install ok?",
        FailureKind::DepsInstallExit => "Failed to install kiara",
        FailureKind::SidecarSpawn => "Failed to spawn sidecar",
    }
}

} // verus!
