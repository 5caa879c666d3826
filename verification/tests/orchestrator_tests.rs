use provisioner::messages::error_message;
use provisioner::messages::progress_messages;
use provisioner::orchestrator::classify;
use provisioner::orchestrator::plan_for;
use provisioner::orchestrator::Action;
use provisioner::orchestrator::EnvState;
use provisioner::orchestrator::FailureKind;
use provisioner::orchestrator::Orchestrator;
use provisioner::orchestrator::Phase;
use provisioner::orchestrator::Plan;
use provisioner::orchestrator::ToolOutcome;

fn expected() -> Vec<u8> {
    b"Python 3.11.5".to_vec()
}

fn bundled() -> Vec<u8> {
    b"kiara==0.5\nnetworkx\n".to_vec()
}

#[test]
fn fresh_machine_runs_the_full_pipeline_in_order() {
    let mut orch = Orchestrator::new(expected(), bundled());
    assert_eq!(orch.start(), Action::ProbeRuntime);
    assert_eq!(orch.runtime_probed(None), Action::RemoveEnvDir);
    assert_eq!(orch.env_dir_removed(), Action::StageResources);
    assert_eq!(orch.resources_staged(true), Action::RunEnvInstall);
    assert_eq!(orch.env_install_finished(ToolOutcome::Success), Action::RunCompileRuntime);
    assert_eq!(orch.compile_finished(ToolOutcome::Success), Action::RunInstallDeps);
    assert_eq!(orch.deps_install_finished(ToolOutcome::Success), Action::LaunchSidecar);
    assert_eq!(orch.sidecar_launched(true), Action::Finish);
    assert_eq!(orch.phase, Phase::Done);
}

#[test]
fn unchanged_machine_launches_without_any_tool_invocation() {
    let mut orch = Orchestrator::new(expected(), bundled());
    assert_eq!(orch.start(), Action::ProbeRuntime);
    assert_eq!(
        orch.runtime_probed(Some(b"Python 3.11.5\n".to_vec())),
        Action::ReadInstalledManifest
    );
    assert_eq!(orch.installed_manifest_read(Some(bundled())), Action::LaunchSidecar);
    assert_eq!(orch.sidecar_launched(true), Action::Finish);
    assert_eq!(orch.phase, Phase::Done);
}

#[test]
fn dependency_bump_reinstalls_dependencies_only() {
    let mut orch = Orchestrator::new(expected(), bundled());
    assert_eq!(orch.start(), Action::ProbeRuntime);
    assert_eq!(
        orch.runtime_probed(Some(b"Python 3.11.5\n".to_vec())),
        Action::ReadInstalledManifest
    );
    let stale = b"kiara==0.4\nnetworkx\n".to_vec();
    assert_eq!(orch.installed_manifest_read(Some(stale)), Action::StageResources);
    assert_eq!(orch.resources_staged(true), Action::RunInstallDeps);
    assert_eq!(orch.deps_install_finished(ToolOutcome::Success), Action::LaunchSidecar);
    assert_eq!(orch.sidecar_launched(true), Action::Finish);
    assert_eq!(orch.phase, Phase::Done);
}

#[test]
fn a_version_mismatch_removes_the_directory_before_staging() {
    let mut orch = Orchestrator::new(expected(), bundled());
    orch.start();
    assert_eq!(
        orch.runtime_probed(Some(b"Python 3.10.2\n".to_vec())),
        Action::RemoveEnvDir
    );
    assert_eq!(orch.phase, Phase::RemovingEnvDir);
    assert_eq!(orch.env_dir_removed(), Action::StageResources);
}

#[test]
fn missing_environment_manager_aborts_and_names_the_install_step() {
    let mut orch = Orchestrator::new(expected(), bundled());
    orch.start();
    orch.runtime_probed(None);
    orch.env_dir_removed();
    orch.resources_staged(true);
    let action = orch.env_install_finished(ToolOutcome::SpawnFailed);
    assert_eq!(action, Action::Report { cause: FailureKind::EnvInstallSpawn });
    assert_eq!(orch.phase, Phase::Failed { cause: FailureKind::EnvInstallSpawn });
    assert_eq!(
        error_message(FailureKind::EnvInstallSpawn),
        "Failed to pixi install. Do you have pixi on the system?"
    );
    // the failure is terminal: later events change nothing and never launch
    assert_eq!(orch.compile_finished(ToolOutcome::Success), Action::Ignore);
    assert_eq!(orch.sidecar_launched(true), Action::Ignore);
    assert_eq!(orch.phase, Phase::Failed { cause: FailureKind::EnvInstallSpawn });
}

#[test]
fn failed_tool_exits_abort_with_their_own_cause() {
    let mut orch = Orchestrator::new(expected(), bundled());
    orch.start();
    orch.runtime_probed(None);
    orch.env_dir_removed();
    orch.resources_staged(true);
    assert_eq!(
        orch.env_install_finished(ToolOutcome::ExitFailure),
        Action::Report { cause: FailureKind::EnvInstallExit }
    );

    let mut orch2 = Orchestrator::new(expected(), bundled());
    orch2.start();
    orch2.runtime_probed(None);
    orch2.env_dir_removed();
    orch2.resources_staged(true);
    orch2.env_install_finished(ToolOutcome::Success);
    assert_eq!(
        orch2.compile_finished(ToolOutcome::ExitFailure),
        Action::Report { cause: FailureKind::CompileExit }
    );
}

#[test]
fn a_staging_failure_is_fatal() {
    let mut orch = Orchestrator::new(expected(), bundled());
    orch.start();
    orch.runtime_probed(None);
    orch.env_dir_removed();
    assert_eq!(
        orch.resources_staged(false),
        Action::Report { cause: FailureKind::StagingFailed }
    );
    assert_eq!(orch.phase, Phase::Failed { cause: FailureKind::StagingFailed });
}

#[test]
fn a_sidecar_spawn_failure_is_fatal() {
    let mut orch = Orchestrator::new(expected(), bundled());
    orch.start();
    orch.runtime_probed(Some(b"Python 3.11.5".to_vec()));
    orch.installed_manifest_read(Some(bundled()));
    assert_eq!(
        orch.sidecar_launched(false),
        Action::Report { cause: FailureKind::SidecarSpawn }
    );
    assert_eq!(orch.phase, Phase::Failed { cause: FailureKind::SidecarSpawn });
}

#[test]
fn events_outside_their_phase_are_ignored() {
    let mut orch = Orchestrator::new(expected(), bundled());
    assert_eq!(orch.env_dir_removed(), Action::Ignore);
    assert_eq!(orch.compile_finished(ToolOutcome::Success), Action::Ignore);
    assert_eq!(orch.phase, Phase::Idle);
    orch.start();
    assert_eq!(orch.start(), Action::Ignore);
    assert_eq!(orch.phase, Phase::CheckingRuntime);
}

#[test]
fn the_decision_table_is_total_over_the_environment_state() {
    assert_eq!(plan_for(EnvState::Absent), Plan::FullReinstall);
    assert_eq!(plan_for(EnvState::VersionStale), Plan::FullReinstall);
    assert_eq!(plan_for(EnvState::DependenciesStale), Plan::RefreshDependencies);
    assert_eq!(plan_for(EnvState::Ready), Plan::NoOp);
}

#[test]
fn classification_orders_absence_before_version_before_dependencies() {
    let exp = expected();
    let bun = bundled();
    let good_probe = Some(b"Python 3.11.5\n".to_vec());
    let good_list = Some(bundled());
    assert_eq!(classify(false, &None, &None, &exp, &bun), EnvState::Absent);
    assert_eq!(classify(true, &None, &good_list, &exp, &bun), EnvState::VersionStale);
    assert_eq!(
        classify(true, &Some(b"Python 3.9.1".to_vec()), &good_list, &exp, &bun),
        EnvState::VersionStale
    );
    assert_eq!(classify(true, &good_probe, &None, &exp, &bun), EnvState::DependenciesStale);
    assert_eq!(classify(true, &good_probe, &good_list, &exp, &bun), EnvState::Ready);
}

#[test]
fn progress_messages_follow_the_original_announcements() {
    assert_eq!(
        progress_messages(&Phase::Idle, &Phase::CheckingRuntime),
        vec!["Checking for existing python..."]
    );
    assert_eq!(
        progress_messages(&Phase::CheckingRuntime, &Phase::CheckingDeps),
        vec!["Correct Python already exists", "Checking packages are up to date..."]
    );
    assert_eq!(
        progress_messages(&Phase::CheckingRuntime, &Phase::RemovingEnvDir),
        vec![
            "Correct version of Python doesn't exist, installing... This might take a couple of minutes"
        ]
    );
    assert_eq!(
        progress_messages(&Phase::CheckingDeps, &Phase::Staging { full: false }),
        vec!["Updating packages..."]
    );
    assert_eq!(
        progress_messages(&Phase::CheckingDeps, &Phase::LaunchingSidecar),
        vec!["Packages are up to date", "Starting network analysis app"]
    );
    assert_eq!(
        progress_messages(&Phase::CompilingRuntime, &Phase::InstallingDeps { full: true }),
        vec!["Python installed! Installing packages..."]
    );
    assert_eq!(
        progress_messages(&Phase::Idle, &Phase::Done),
        Vec::<&str>::new()
    );
}

#[test]
fn every_failure_cause_has_its_own_error_line() {
    assert_eq!(
        error_message(FailureKind::StagingFailed),
        "failed to find resource file in app resources"
    );
    assert_eq!(
        error_message(FailureKind::EnvInstallExit),
        "Failed to set up environment with pixi"
    );
    assert_eq!(
        error_message(FailureKind::CompileSpawn),
        "Failed to run pixi command. Do you have pixi on the system?"
    );
    assert_eq!(error_message(FailureKind::CompileExit), "Failed to compile python");
    assert_eq!(
        error_message(FailureKind::DepsInstallSpawn),
        "Failed to run pip. Is your python install ok?"
    );
    assert_eq!(error_message(FailureKind::DepsInstallExit), "Failed to install kiara");
    assert_eq!(error_message(FailureKind::SidecarSpawn), "Failed to spawn sidecar");
}
