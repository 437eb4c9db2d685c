//! The deploy state machine: stage, terminate, swap, restart. Each state
//! names the remote operation awaited; [`run_exe`] advances the machine on
//! the operation's outcome and [`action_of`] says which operation the
//! unverified shell must perform next. A transport-level failure in any step
//! aborts the remaining steps for this target only.

use vstd::prelude::*;

use crate::DeployError;
use crate::executable::{ActionModel, DeployAction, Executable, FULL_ACCESS_MODE};
use crate::text::trimmed;

verus! {

/// The state of one target's deploy sequence; every non-terminal state names
/// the remote operation whose outcome the machine is waiting for.
#[derive(Clone, Copy, Debug, PartialEq, Eq, Structural)]
pub enum Step {
    /// Stage: asking whether the remote directory exists.
    CheckDir,
    /// Stage: creating the absent remote directory.
    MakeDir,
    /// Stage: uploading the artifact to the staging path.
    Upload,
    /// Terminate: probing whether the process is running.
    Probe,
    /// Terminate: killing the running process.
    Kill,
    /// Swap: asking whether the staged or destination path is a directory.
    CheckPaths,
    /// Swap: removing the previously installed binary.
    Remove,
    /// Swap: renaming the staged file onto the live binary.
    Rename,
    /// Restart: launching the new binary.
    Start,
    /// The whole sequence completed.
    Done,
    /// The sequence aborted; no further action is requested.
    Failed(DeployError),
}

/// The outcome of one remote operation, fed back by the unverified shell.
#[derive(Clone, Debug)]
pub enum StepEvent {
    /// Answer to a directory-existence check.
    DirExists(bool),
    /// The requested operation completed at the transport level.
    Completed,
    /// Captured standard output of the requested command.
    CommandOutput(String),
    /// Answer to a staged/destination path check.
    PathsChecked { temp_is_dir: bool, dest_is_dir: bool },
    /// The operation failed at the transport level.
    TransportFailed(DeployError),
}

/// The transition relation of the deploy sequence. Terminal states absorb
/// every event; a transport failure aborts any step; an outcome of a shape
/// the awaited operation cannot produce counts as a remote execution failure.
pub open spec fn deploy_next(exe: Executable, step: Step, event: StepEvent) -> Step {
    match (step, event) {
        (Step::Done, _) => Step::Done,
        (Step::Failed(e), _) => Step::Failed(e),
        (_, StepEvent::TransportFailed(e)) => Step::Failed(e),
        (Step::CheckDir, StepEvent::DirExists(present)) => if present {
            Step::Upload
        } else {
            Step::MakeDir
        },
        (Step::MakeDir, StepEvent::Completed) => Step::Upload,
        (Step::Upload, StepEvent::Completed) => Step::Probe,
        (Step::Probe, StepEvent::CommandOutput(out)) => if trimmed(out@) == "1"@ {
            Step::Kill
        } else {
            Step::CheckPaths
        },
        (Step::Kill, StepEvent::Completed) => Step::CheckPaths,
        (Step::CheckPaths, StepEvent::PathsChecked { temp_is_dir, dest_is_dir }) => if temp_is_dir
            || dest_is_dir {
            Step::Failed(DeployError::TransferError)
        } else {
            Step::Remove
        },
        (Step::Remove, StepEvent::Completed) => Step::Rename,
        (Step::Rename, StepEvent::Completed) => Step::Start,
        (Step::Start, StepEvent::Completed) => Step::Done,
        _ => Step::Failed(DeployError::RemoteExecError),
    }
}

/// The remote operation awaited in a state, or nothing in a terminal state.
pub open spec fn action_model(exe: Executable, step: Step) -> Option<ActionModel> {
    match step {
        Step::CheckDir => Some(ActionModel::CheckDirExists { path: exe.remote_path@ }),
        Step::MakeDir => Some(exe.make_dir_action()),
        Step::Upload => Some(exe.upload_action()),
        Step::Probe => Some(ActionModel::RunCommand { command: exe.probe_command() }),
        Step::Kill => Some(ActionModel::RunCommand { command: exe.kill_command() }),
        Step::CheckPaths => Some(ActionModel::CheckPathsAreDirs {
            temp_file: exe.temp_file(),
            dest_file: exe.remote_file(),
        }),
        Step::Remove => Some(ActionModel::RunCommand { command: exe.remove_command() }),
        Step::Rename => Some(ActionModel::RunCommand { command: exe.rename_command() }),
        Step::Start => Some(ActionModel::RunCommand { command: exe.start_command() }),
        Step::Done => None,
        Step::Failed(_) => None,
    }
}

/// The first state of a deploy sequence.
pub fn deploy_start() -> (r: Step)
    ensures
        r == Step::CheckDir,
{
    Step::CheckDir
}

/// Builds the remote operation the shell must perform in the given state.
pub fn action_of(exe: &Executable, step: &Step) -> (r: Option<DeployAction>)
    ensures
        match r {
            Some(a) => action_model(*exe, *step) == Some(a@),
            None => action_model(*exe, *step) is None,
        },
{
    match step {
        Step::CheckDir => Some(DeployAction::CheckDirExists { path: exe.remote_path.clone() }),
        Step::MakeDir => Some(DeployAction::MakeDirectory {
            path: exe.remote_path.clone(),
            mode: FULL_ACCESS_MODE,
        }),
        Step::Upload => Some(DeployAction::UploadFile {
            local_file: exe.local_file_path(),
            remote_file: exe.temp_file_path(),
            mode: FULL_ACCESS_MODE,
        }),
        Step::Probe => Some(DeployAction::RunCommand { command: exe.process_count_command() }),
        Step::Kill => Some(DeployAction::RunCommand { command: exe.kill_command_string() }),
        Step::CheckPaths => Some(DeployAction::CheckPathsAreDirs {
            temp_file: exe.temp_file_path(),
            dest_file: exe.remote_file_path(),
        }),
        Step::Remove => Some(DeployAction::RunCommand { command: exe.remove_command_string() }),
        Step::Rename => Some(DeployAction::RunCommand { command: exe.rename_command_string() }),
        Step::Start => Some(DeployAction::RunCommand {
            command: exe.start_remote_server_process(),
        }),
        Step::Done => None,
        Step::Failed(_) => None,
    }
}

/// Advances one target's deploy sequence by one step, on the outcome of the
/// operation the current state was waiting for.
pub fn run_exe(exe: &Executable, step: Step, event: StepEvent) -> (r: Step)
    ensures
        r == deploy_next(*exe, step, event),
{
    match (step, event) {
        (Step::Done, _) => Step::Done,
        (Step::Failed(e), _) => Step::Failed(e),
        (_, StepEvent::TransportFailed(e)) => Step::Failed(e),
        (Step::CheckDir, StepEvent::DirExists(present)) => if present {
            Step::Upload
        } else {
            Step::MakeDir
        },
        (Step::MakeDir, StepEvent::Completed) => Step::Upload,
        (Step::Upload, StepEvent::Completed) => Step::Probe,
        (Step::Probe, StepEvent::CommandOutput(out)) => {
            if exe.check_remote_server_process_is_running(out.as_str()) {
                Step::Kill
            } else {
                Step::CheckPaths
            }
        },
        (Step::Kill, StepEvent::Completed) => Step::CheckPaths,
        (Step::CheckPaths, StepEvent::PathsChecked { temp_is_dir, dest_is_dir }) => {
            if temp_is_dir || dest_is_dir {
                Step::Failed(DeployError::TransferError)
            } else {
                Step::Remove
            }
        },
        (Step::Remove, StepEvent::Completed) => Step::Rename,
        (Step::Rename, StepEvent::Completed) => Step::Start,
        (Step::Start, StepEvent::Completed) => Step::Done,
        _ => Step::Failed(DeployError::RemoteExecError),
    }
}

/// One full deploy pass: from the start state, successful outcomes drive the
/// machine through stage (creating the remote directory exactly when it is
/// absent), terminate (killing exactly when the probe reports the process
/// running), swap and restart, ending in [`Step::Done`].
pub proof fn lemma_deploy_sequence(exe: Executable, present: bool, out: String)
    ensures
        deploy_next(exe, Step::CheckDir, StepEvent::DirExists(present)) == (if present {
            Step::Upload
        } else {
            Step::MakeDir
        }),
        deploy_next(exe, Step::MakeDir, StepEvent::Completed) == Step::Upload,
        deploy_next(exe, Step::Upload, StepEvent::Completed) == Step::Probe,
        deploy_next(exe, Step::Probe, StepEvent::CommandOutput(out)) == (if trimmed(out@) == "1"@ {
            Step::Kill
        } else {
            Step::CheckPaths
        }),
        deploy_next(exe, Step::Kill, StepEvent::Completed) == Step::CheckPaths,
        deploy_next(
            exe,
            Step::CheckPaths,
            StepEvent::PathsChecked { temp_is_dir: false, dest_is_dir: false },
        ) == Step::Remove,
        deploy_next(exe, Step::Remove, StepEvent::Completed) == Step::Rename,
        deploy_next(exe, Step::Rename, StepEvent::Completed) == Step::Start,
        deploy_next(exe, Step::Start, StepEvent::Completed) == Step::Done,
{
}

/// The state the machine reaches after a sequence of outcomes, fed in order.
pub open spec fn run_steps(exe: Executable, step: Step, events: Seq<StepEvent>) -> Step
    decreases events.len(),
{
    if events.len() == 0 {
        step
    } else {
        run_steps(exe, deploy_next(exe, step, events.first()), events.drop_first())
    }
}

/// The outcomes of one fully successful deploy against an existing remote
/// directory whose process the probe reports stopped: the terminate step
/// consumes only the probe's answer, no kill outcome appears.
pub open spec fn stopped_deploy_events(out: String) -> Seq<StepEvent> {
    seq![
        StepEvent::DirExists(true),
        StepEvent::Completed,
        StepEvent::CommandOutput(out),
        StepEvent::PathsChecked { temp_is_dir: false, dest_is_dir: false },
        StepEvent::Completed,
        StepEvent::Completed,
        StepEvent::Completed,
    ]
}

/// The outcomes of one fully successful deploy whose process the probe
/// reports running: one more outcome, the kill's completion.
pub open spec fn running_deploy_events(out: String) -> Seq<StepEvent> {
    seq![
        StepEvent::DirExists(true),
        StepEvent::Completed,
        StepEvent::CommandOutput(out),
        StepEvent::Completed,
        StepEvent::PathsChecked { temp_is_dir: false, dest_is_dir: false },
        StepEvent::Completed,
        StepEvent::Completed,
        StepEvent::Completed,
    ]
}

/// A whole deploy against a stopped target completes, and does so on the
/// event sequence without a kill outcome; the machine being a function of
/// the outcomes alone, a second identical run takes the identical path, so
/// repeating a deploy of a stopped target repeats the same end state.
pub proof fn lemma_deploy_run_when_stopped(exe: Executable, out: String)
    requires
        trimmed(out@) != "1"@,
    ensures
        run_steps(exe, Step::CheckDir, stopped_deploy_events(out)) == Step::Done,
{
    reveal_with_fuel(run_steps, 8);
}

/// A whole deploy against a running target completes after the kill's
/// outcome is consumed.
pub proof fn lemma_deploy_run_when_running(exe: Executable, out: String)
    requires
        trimmed(out@) == "1"@,
    ensures
        run_steps(exe, Step::CheckDir, running_deploy_events(out)) == Step::Done,
{
    reveal_with_fuel(run_steps, 9);
}

/// When the probe reports the process stopped, the terminate step is a
/// no-op: the machine moves straight to the swap checks, and the kill
/// command is never the operation requested in any state but [`Step::Kill`].
pub proof fn lemma_terminate_noop_when_stopped(exe: Executable, out: String)
    requires
        trimmed(out@) != "1"@,
    ensures
        deploy_next(exe, Step::Probe, StepEvent::CommandOutput(out)) == Step::CheckPaths,
        forall|step: Step| #![auto]
            action_model(exe, step) == Some(
                ActionModel::RunCommand { command: exe.kill_command() },
            ) ==> step == Step::Kill,
{
    reveal_strlit("ps -ef | grep ");
    reveal_strlit("killall -9 ");
    reveal_strlit("rm -rf ");
    reveal_strlit("mv ");
    reveal_strlit("nohup ");
    assert(exe.kill_command()[0] == 'k');
    assert(exe.probe_command()[0] == 'p');
    assert(exe.remove_command()[0] == 'r');
    assert(exe.rename_command()[0] == 'm');
    assert(exe.start_command()[0] == 'n');
}

/// The swap step refuses to proceed, reporting a transfer error rather than
/// skipping silently, exactly when the staged temp path or the destination
/// path resolves to a directory.
pub proof fn lemma_swap_refuses_directories(exe: Executable, temp_is_dir: bool, dest_is_dir: bool)
    ensures
        (temp_is_dir || dest_is_dir) ==> deploy_next(
            exe,
            Step::CheckPaths,
            StepEvent::PathsChecked { temp_is_dir, dest_is_dir },
        ) == Step::Failed(DeployError::TransferError),
        !(temp_is_dir || dest_is_dir) ==> deploy_next(
            exe,
            Step::CheckPaths,
            StepEvent::PathsChecked { temp_is_dir, dest_is_dir },
        ) == Step::Remove,
{
}

} // verus!
