use exe_deploy::DeployError;
use exe_deploy::deploy::{Step, StepEvent, action_of, deploy_start, run_exe};
use exe_deploy::executable::{DeployAction, Executable};

fn svc() -> Executable {
    Executable::new(
        String::from("svc"),
        String::from("/srv/app"),
        String::from("/local/bin"),
    )
    .unwrap()
}

fn command_of(exe: &Executable, step: &Step) -> String {
    match action_of(exe, step) {
        Some(DeployAction::RunCommand { command }) => command,
        other => panic!("expected a command, got {:?}", other),
    }
}

/// Drives one full deploy, answering the probe with `probe_output`, and
/// returns the visited states plus the requested commands in order.
fn drive(exe: &Executable, dir_exists: bool, probe_output: &str) -> (Vec<Step>, Vec<String>) {
    let mut states = Vec::new();
    let mut commands = Vec::new();
    let mut step = deploy_start();
    loop {
        states.push(step);
        let event = match action_of(exe, &step) {
            None => break,
            Some(DeployAction::CheckDirExists { .. }) => StepEvent::DirExists(dir_exists),
            Some(DeployAction::MakeDirectory { .. }) => StepEvent::Completed,
            Some(DeployAction::UploadFile { .. }) => StepEvent::Completed,
            Some(DeployAction::CheckPathsAreDirs { .. }) => StepEvent::PathsChecked {
                temp_is_dir: false,
                dest_is_dir: false,
            },
            Some(DeployAction::RunCommand { command }) => {
                commands.push(command);
                if step == Step::Probe {
                    StepEvent::CommandOutput(String::from(probe_output))
                } else {
                    StepEvent::Completed
                }
            }
        };
        step = run_exe(exe, step, event);
    }
    (states, commands)
}

#[test]
fn deploy_with_running_process_kills_then_restarts() {
    let exe = svc();
    let (states, commands) = drive(&exe, true, "1\n");
    assert_eq!(
        states,
        vec![
            Step::CheckDir,
            Step::Upload,
            Step::Probe,
            Step::Kill,
            Step::CheckPaths,
            Step::Remove,
            Step::Rename,
            Step::Start,
            Step::Done,
        ]
    );
    assert_eq!(
        commands,
        vec![
            String::from("ps -ef | grep svc | grep -v grep | wc -l"),
            String::from("killall -9 svc"),
            String::from("rm -rf /srv/app/svc"),
            String::from("mv /srv/app/svc.temp /srv/app/svc"),
            String::from("nohup /srv/app/svc > /srv/app/svc.log 2>&1 &"),
        ]
    );
    assert!(exe.check_remote_server_process_is_running("1"));
}

#[test]
fn deploy_creates_missing_directory() {
    let exe = svc();
    let (states, _) = drive(&exe, false, "1\n");
    assert_eq!(states[0], Step::CheckDir);
    assert_eq!(states[1], Step::MakeDir);
    assert_eq!(states[2], Step::Upload);
    assert_eq!(*states.last().unwrap(), Step::Done);
}

#[test]
fn deploy_twice_when_stopped_is_idempotent() {
    let exe = svc();
    let (states_one, commands_one) = drive(&exe, true, "0\n");
    let (states_two, commands_two) = drive(&exe, true, "0\n");
    // Both runs take the same path to the same end state.
    assert_eq!(states_one, states_two);
    assert_eq!(commands_one, commands_two);
    assert_eq!(*states_one.last().unwrap(), Step::Done);
    // The terminate step was a no-op: no kill command was ever requested.
    assert!(!states_one.contains(&Step::Kill));
    assert!(commands_one.iter().all(|c| !c.starts_with("killall")));
}

#[test]
fn swap_refusal_fails_the_deploy() {
    let exe = svc();
    let step = run_exe(
        &exe,
        Step::CheckPaths,
        StepEvent::PathsChecked { temp_is_dir: true, dest_is_dir: false },
    );
    assert_eq!(step, Step::Failed(DeployError::TransferError));
    assert!(action_of(&exe, &step).is_none());
    let step = run_exe(
        &exe,
        Step::CheckPaths,
        StepEvent::PathsChecked { temp_is_dir: false, dest_is_dir: true },
    );
    assert_eq!(step, Step::Failed(DeployError::TransferError));
}

#[test]
fn transport_failure_aborts_any_step() {
    let exe = svc();
    assert_eq!(
        run_exe(&exe, Step::Upload, StepEvent::TransportFailed(DeployError::TransferError)),
        Step::Failed(DeployError::TransferError)
    );
    assert_eq!(
        run_exe(&exe, Step::Kill, StepEvent::TransportFailed(DeployError::RemoteExecError)),
        Step::Failed(DeployError::RemoteExecError)
    );
}

#[test]
fn terminal_states_absorb_events() {
    let exe = svc();
    assert_eq!(run_exe(&exe, Step::Done, StepEvent::Completed), Step::Done);
    assert_eq!(
        run_exe(
            &exe,
            Step::Failed(DeployError::TransferError),
            StepEvent::TransportFailed(DeployError::RemoteExecError)
        ),
        Step::Failed(DeployError::TransferError)
    );
}

#[test]
fn mismatched_outcome_counts_as_remote_exec_failure() {
    let exe = svc();
    assert_eq!(
        run_exe(&exe, Step::MakeDir, StepEvent::DirExists(true)),
        Step::Failed(DeployError::RemoteExecError)
    );
    assert_eq!(
        run_exe(&exe, Step::Probe, StepEvent::Completed),
        Step::Failed(DeployError::RemoteExecError)
    );
}

#[test]
fn probe_answers_drive_the_terminate_branch() {
    let exe = svc();
    assert_eq!(
        run_exe(&exe, Step::Probe, StepEvent::CommandOutput(String::from("1\n"))),
        Step::Kill
    );
    assert_eq!(
        run_exe(&exe, Step::Probe, StepEvent::CommandOutput(String::from("0\n"))),
        Step::CheckPaths
    );
    assert_eq!(
        run_exe(&exe, Step::Probe, StepEvent::CommandOutput(String::from("2\n"))),
        Step::CheckPaths
    );
    assert_eq!(
        run_exe(&exe, Step::Probe, StepEvent::CommandOutput(String::new())),
        Step::CheckPaths
    );
}
