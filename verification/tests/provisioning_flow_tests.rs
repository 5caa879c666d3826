use provisioner::layout::expected_runtime_line;
use provisioner::orchestrator::Action;
use provisioner::orchestrator::Orchestrator;
use provisioner::orchestrator::Phase;
use provisioner::orchestrator::ToolOutcome;

/// A machine as the engine sees it: whether the environment directory
/// exists, what the version probe prints, and the installed dependency list.
#[derive(Clone, PartialEq, Debug)]
struct FakeMachine {
    exists: bool,
    probe: Option<Vec<u8>>,
    manifest: Option<Vec<u8>>,
}

impl FakeMachine {
    fn fresh() -> FakeMachine {
        FakeMachine { exists: false, probe: None, manifest: None }
    }
}

fn bundled() -> Vec<u8> {
    b"kiara==0.5\nnetworkx\n".to_vec()
}

/// Runs one whole provisioning flow against the fake machine, with every
/// external step succeeding, and returns the actions the engine asked for.
fn drive(machine: &mut FakeMachine) -> (Phase, Vec<Action>) {
    let expected = expected_runtime_line("3.11.5");
    let mut orch = Orchestrator::new(expected.clone(), bundled());
    let mut actions = Vec::new();
    let mut action = orch.start();
    loop {
        actions.push(action);
        action = match action {
            Action::ProbeRuntime => orch.runtime_probed(machine.probe.clone()),
            Action::ReadInstalledManifest => {
                orch.installed_manifest_read(machine.manifest.clone())
            }
            Action::RemoveEnvDir => {
                *machine = FakeMachine::fresh();
                orch.env_dir_removed()
            }
            Action::StageResources => {
                machine.exists = true;
                machine.manifest = Some(bundled());
                orch.resources_staged(true)
            }
            Action::RunEnvInstall => orch.env_install_finished(ToolOutcome::Success),
            Action::RunCompileRuntime => {
                let mut out = expected.clone();
                out.push(b'\n');
                machine.probe = Some(out);
                orch.compile_finished(ToolOutcome::Success)
            }
            Action::RunInstallDeps => orch.deps_install_finished(ToolOutcome::Success),
            Action::LaunchSidecar => orch.sidecar_launched(true),
            Action::Finish => break,
            Action::Report { .. } => break,
            Action::Ignore => break,
        };
    }
    (orch.phase, actions)
}

#[test]
fn a_fresh_machine_gets_the_full_pipeline_and_ends_ready() {
    let mut machine = FakeMachine::fresh();
    let (phase, actions) = drive(&mut machine);
    assert_eq!(phase, Phase::Done);
    assert_eq!(
        actions,
        vec![
            Action::ProbeRuntime,
            Action::RemoveEnvDir,
            Action::StageResources,
            Action::RunEnvInstall,
            Action::RunCompileRuntime,
            Action::RunInstallDeps,
            Action::LaunchSidecar,
            Action::Finish,
        ]
    );
}

#[test]
fn the_second_run_after_a_successful_one_is_a_no_op() {
    let mut machine = FakeMachine::fresh();
    drive(&mut machine);
    let before_second = machine.clone();
    let (phase, actions) = drive(&mut machine);
    assert_eq!(phase, Phase::Done);
    assert_eq!(
        actions,
        vec![
            Action::ProbeRuntime,
            Action::ReadInstalledManifest,
            Action::LaunchSidecar,
            Action::Finish,
        ]
    );
    // nothing on the machine changed
    assert_eq!(machine, before_second);
}

#[test]
fn a_stale_version_loses_every_prior_file() {
    let mut machine = FakeMachine {
        exists: true,
        probe: Some(b"Python 3.10.0\n".to_vec()),
        manifest: Some(bundled()),
    };
    let (phase, actions) = drive(&mut machine);
    assert_eq!(phase, Phase::Done);
    // the removal came before the staging, so the old manifest and probe
    // were gone before anything new was written
    assert_eq!(actions[1], Action::RemoveEnvDir);
    assert_eq!(actions[2], Action::StageResources);
    assert_eq!(actions.len(), 8);
}

#[test]
fn a_dependency_bump_skips_install_and_compile() {
    let mut machine = FakeMachine {
        exists: true,
        probe: Some(b"Python 3.11.5\n".to_vec()),
        manifest: Some(b"kiara==0.4\n".to_vec()),
    };
    let (phase, actions) = drive(&mut machine);
    assert_eq!(phase, Phase::Done);
    assert_eq!(
        actions,
        vec![
            Action::ProbeRuntime,
            Action::ReadInstalledManifest,
            Action::StageResources,
            Action::RunInstallDeps,
            Action::LaunchSidecar,
            Action::Finish,
        ]
    );
    assert!(!actions.contains(&Action::RunEnvInstall));
    assert!(!actions.contains(&Action::RunCompileRuntime));
}
