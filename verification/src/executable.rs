//! One deployable unit on one remote host: a local artifact, a remote install
//! directory and a process name. Its methods decide each deploy step — which
//! remote command runs, whether the kill is issued, whether the swap may
//! proceed — as pure functions of the step's inputs; the unverified shell
//! performs the remote operations and feeds their outcomes back.

use vstd::prelude::*;

use crate::DeployError;
use crate::text::{decimal, joined, trimmed, u32_decimal, join_path, trim_str};

verus! {

use vstd::string::StringExecFns;

/// Permission bits set on the remote directory and the uploaded artifact.
pub const FULL_ACCESS_MODE: u32 = 0o777;

/// One deployable unit: `name` is the executable's file name (also the
/// process-matching token and the log-file stem), `remote_path` the remote
/// install directory, and `local_path` the local directory holding the
/// artifact named `name`.
#[derive(Clone, Debug)]
pub struct Executable {
    pub name: String,
    pub remote_path: String,
    pub local_path: String,
}

/// A remote operation requested by one deploy step, performed by the
/// unverified shell.
#[derive(Clone, Debug)]
pub enum DeployAction {
    /// Ask whether the remote directory exists.
    CheckDirExists { path: String },
    /// Create the remote directory with the given permission bits.
    MakeDirectory { path: String, mode: u32 },
    /// Upload the local file to the remote path with the given permission bits.
    UploadFile { local_file: String, remote_file: String, mode: u32 },
    /// Run a shell command on the remote host, capturing standard output.
    RunCommand { command: String },
    /// Ask whether the staged temp path or the destination path resolves to a
    /// directory.
    CheckPathsAreDirs { temp_file: String, dest_file: String },
}

/// The mathematical shape of a [`DeployAction`], over character sequences.
pub enum ActionModel {
    CheckDirExists { path: Seq<char> },
    MakeDirectory { path: Seq<char>, mode: u32 },
    UploadFile { local_file: Seq<char>, remote_file: Seq<char>, mode: u32 },
    RunCommand { command: Seq<char> },
    CheckPathsAreDirs { temp_file: Seq<char>, dest_file: Seq<char> },
}

impl View for DeployAction {
    type V = ActionModel;

    open spec fn view(&self) -> ActionModel {
        match self {
            DeployAction::CheckDirExists { path } => ActionModel::CheckDirExists {
                path: path@,
            },
            DeployAction::MakeDirectory { path, mode } => ActionModel::MakeDirectory {
                path: path@,
                mode: *mode,
            },
            DeployAction::UploadFile { local_file, remote_file, mode } => ActionModel::UploadFile {
                local_file: local_file@,
                remote_file: remote_file@,
                mode: *mode,
            },
            DeployAction::RunCommand { command } => ActionModel::RunCommand { command: command@ },
            DeployAction::CheckPathsAreDirs { temp_file, dest_file } => (ActionModel::CheckPathsAreDirs {
                temp_file: temp_file@,
                dest_file: dest_file@,
            }),
        }
    }
}

impl Executable {
    /// All three descriptor fields are non-empty.
    pub open spec fn wf(&self) -> bool {
        self.name@.len() > 0 && self.remote_path@.len() > 0 && self.local_path@.len() > 0
    }

    /// Path of the live binary: `remote_path/name`.
    pub open spec fn remote_file(&self) -> Seq<char> {
        joined(self.remote_path@, self.name@)
    }

    /// Path of the staging file: `remote_path/name.temp`.
    pub open spec fn temp_file(&self) -> Seq<char> {
        joined(self.remote_path@, self.name@ + ".temp"@)
    }

    /// Path of the local artifact: `local_path/name`.
    pub open spec fn local_file(&self) -> Seq<char> {
        joined(self.local_path@, self.name@)
    }

    /// The command counting process-table entries that match `name`.
    pub open spec fn probe_command(&self) -> Seq<char> {
        "ps -ef | grep "@ + self.name@ + " | grep -v grep | wc -l"@
    }

    /// The command that force-kills every process matching `name`.
    pub open spec fn kill_command(&self) -> Seq<char> {
        "killall -9 "@ + self.name@
    }

    /// The command removing the previously installed binary.
    pub open spec fn remove_command(&self) -> Seq<char> {
        "rm -rf "@ + self.remote_file()
    }

    /// The command renaming the staged file onto the live binary.
    pub open spec fn rename_command(&self) -> Seq<char> {
        "mv "@ + self.temp_file() + " "@ + self.remote_file()
    }

    /// The command launching the binary detached, with its combined output
    /// redirected (truncating) to the log file.
    pub open spec fn start_command(&self) -> Seq<char> {
        "nohup "@ + self.remote_file() + " > "@ + self.remote_file() + ".log 2>&1 &"@
    }

    /// The command printing the whole log file.
    pub open spec fn cat_log_command(&self) -> Seq<char> {
        "cat "@ + self.remote_file() + ".log"@
    }

    /// The command printing the last `n` lines of the log file.
    pub open spec fn tail_log_command(&self, n: u32) -> Seq<char> {
        "tail -n "@ + decimal(n as nat) + " "@ + self.remote_file() + ".log"@
    }

    /// Builds a target, rejecting any empty field as a configuration error.
    pub fn new(name: String, remote_path: String, local_path: String) -> (r: Result<
        Executable,
        DeployError,
    >)
        ensures
            ({
                let ok = name@.len() > 0 && remote_path@.len() > 0 && local_path@.len() > 0;
                match r {
                    Ok(e) => ok && e.name == name && e.remote_path == remote_path && e.local_path
                        == local_path,
                    Err(err) => !ok && err == DeployError::ConfigurationError,
                }
            }),
    {
        if name.as_str().is_empty() || remote_path.as_str().is_empty()
            || local_path.as_str().is_empty() {
            Err(DeployError::ConfigurationError)
        } else {
            Ok(Executable { name, remote_path, local_path })
        }
    }

    /// Builds the path of the live binary.
    pub fn remote_file_path(&self) -> (r: String)
        ensures
            r@ == self.remote_file(),
    {
        join_path(self.remote_path.as_str(), self.name.as_str())
    }

    /// Builds the path of the staging file.
    pub fn temp_file_path(&self) -> (r: String)
        ensures
            r@ == self.temp_file(),
    {
        let mut staged = self.name.clone();
        staged.append(".temp");
        join_path(self.remote_path.as_str(), staged.as_str())
    }

    /// Builds the path of the local artifact.
    pub fn local_file_path(&self) -> (r: String)
        ensures
            r@ == self.local_file(),
    {
        join_path(self.local_path.as_str(), self.name.as_str())
    }

    /// Builds the process-count probe command.
    pub fn process_count_command(&self) -> (r: String)
        ensures
            r@ == self.probe_command(),
    {
        let mut s = String::from_str("ps -ef | grep ");
        s.append(self.name.as_str());
        s.append(" | grep -v grep | wc -l");
        s
    }

    /// Stage step: the remote operations that place the artifact at the
    /// staging path — creating the remote directory first when it is absent —
    /// without touching the live binary.
    pub fn push_executable_to_remote_server(&self, remote_dir_exists: bool) -> (r: Vec<
        DeployAction,
    >)
        ensures
            remote_dir_exists ==> r@.map_values(|a: DeployAction| a@) =~= seq![
                self.upload_action(),
            ],
            !remote_dir_exists ==> r@.map_values(|a: DeployAction| a@) =~= seq![
                self.make_dir_action(),
                self.upload_action(),
            ],
    {
        let mut actions: Vec<DeployAction> = Vec::new();
        if !remote_dir_exists {
            actions.push(DeployAction::MakeDirectory {
                path: self.remote_path.clone(),
                mode: FULL_ACCESS_MODE,
            });
        }
        actions.push(DeployAction::UploadFile {
            local_file: self.local_file_path(),
            remote_file: self.temp_file_path(),
            mode: FULL_ACCESS_MODE,
        });
        actions
    }

    /// The stage step's directory-creation request.
    pub open spec fn make_dir_action(&self) -> ActionModel {
        ActionModel::MakeDirectory { path: self.remote_path@, mode: FULL_ACCESS_MODE }
    }

    /// The stage step's upload request: local artifact to staging path.
    pub open spec fn upload_action(&self) -> ActionModel {
        ActionModel::UploadFile {
            local_file: self.local_file(),
            remote_file: self.temp_file(),
            mode: FULL_ACCESS_MODE,
        }
    }

    /// Builds the kill command.
    pub fn kill_command_string(&self) -> (r: String)
        ensures
            r@ == self.kill_command(),
    {
        let mut s = String::from_str("killall -9 ");
        s.append(self.name.as_str());
        s
    }

    /// Builds the remove command of the swap step.
    pub fn remove_command_string(&self) -> (r: String)
        ensures
            r@ == self.remove_command(),
    {
        let mut s = String::from_str("rm -rf ");
        s.append(self.remote_file_path().as_str());
        s
    }

    /// Builds the rename command of the swap step.
    pub fn rename_command_string(&self) -> (r: String)
        ensures
            r@ == self.rename_command(),
    {
        let mut s = String::from_str("mv ");
        s.append(self.temp_file_path().as_str());
        s.append(" ");
        s.append(self.remote_file_path().as_str());
        s
    }

    /// Terminate step: the kill command to issue, or nothing when the probe
    /// output shows the process is not running.
    pub fn killall_remote_server_process(&self, probe_output: &str) -> (r: Option<String>)
        ensures
            match r {
                Some(c) => trimmed(probe_output@) == "1"@ && c@ == self.kill_command(),
                None => trimmed(probe_output@) != "1"@,
            },
    {
        if self.check_remote_server_process_is_running(probe_output) {
            Some(self.kill_command_string())
        } else {
            None
        }
    }

    /// Swap step: the remove-then-rename commands that replace the live
    /// binary, refused as a transfer error when either the staged temp path
    /// or the destination path resolves to a directory.
    pub fn delete_remote_server_file_and_rename(
        &self,
        temp_is_dir: bool,
        dest_is_dir: bool,
    ) -> (r: Result<(String, String), DeployError>)
        ensures
            match r {
                Ok(cmds) => !temp_is_dir && !dest_is_dir && cmds.0@ == self.remove_command()
                    && cmds.1@ == self.rename_command(),
                Err(e) => (temp_is_dir || dest_is_dir) && e == DeployError::TransferError,
            },
    {
        if temp_is_dir || dest_is_dir {
            return Err(DeployError::TransferError);
        }
        Ok((self.remove_command_string(), self.rename_command_string()))
    }

    /// Restart step: the command that launches the binary as a detached
    /// background process, its output redirected to the log file.
    pub fn start_remote_server_process(&self) -> (r: String)
        ensures
            r@ == self.start_command(),
    {
        let path = self.remote_file_path();
        let mut s = String::from_str("nohup ");
        s.append(path.as_str());
        s.append(" > ");
        s.append(path.as_str());
        s.append(".log 2>&1 &");
        s
    }

    /// Reads a probe output: the process counts as running iff the output,
    /// once trimmed of whitespace, is exactly the text `1`.
    pub fn check_remote_server_process_is_running(&self, probe_output: &str) -> (r: bool)
        ensures
            r == (trimmed(probe_output@) == "1"@),
    {
        let t = trim_str(probe_output);
        let one = String::from_str("1");
        t == one
    }

    /// The command retrieving the whole log file.
    pub fn show_remote_server_process_log(&self) -> (r: String)
        ensures
            r@ == self.cat_log_command(),
    {
        let mut s = String::from_str("cat ");
        s.append(self.remote_file_path().as_str());
        s.append(".log");
        s
    }

    /// The command retrieving the last `n` lines of the log file.
    pub fn show_remote_server_process_log_last(&self, n: u32) -> (r: String)
        ensures
            r@ == self.tail_log_command(n),
    {
        let mut s = String::from_str("tail -n ");
        s.append(u32_decimal(n).as_str());
        s.append(" ");
        s.append(self.remote_file_path().as_str());
        s.append(".log");
        s
    }
}

} // verus!
