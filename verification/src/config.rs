//! The already-parsed configuration data the core works on: one connection
//! descriptor and an ordered list of target descriptors. Reading, writing
//! and parsing the on-disk form is left to the unverified shell; the
//! placeholder checks on a freshly created file are decided here.

use vstd::prelude::*;

use crate::text::joined;
use crate::text::join_path;

verus! {

use vstd::string::StringExecFns;

/// The connection descriptor of one configuration source.
#[derive(Clone, Debug)]
pub struct SshAccount {
    pub addr: String,
    pub username: String,
    pub password: String,
}

/// One target descriptor: the deployable's id within its group, the
/// executable's file name, and the local and remote directories.
#[derive(Clone, Debug)]
pub struct TargetDescriptor {
    pub id: String,
    pub executable_file_name: String,
    pub local_path: String,
    pub remote_path: String,
}

impl TargetDescriptor {
    /// The three fields a target is built from are non-empty.
    pub open spec fn target_fields_ok(&self) -> bool {
        self.executable_file_name@.len() > 0 && self.remote_path@.len() > 0
            && self.local_path@.len() > 0
    }

    /// No required field is empty, the id included.
    pub open spec fn wf(&self) -> bool {
        self.id@.len() > 0 && self.target_fields_ok()
    }
}

/// One parsed configuration source.
#[derive(Clone, Debug)]
pub struct Config {
    pub ssh_account: SshAccount,
    pub executable_config_list: Vec<TargetDescriptor>,
}

/// The connection descriptor still holds a placeholder value.
pub open spec fn connection_unmodified(a: SshAccount) -> bool {
    a.username@ == "username"@ || a.password@ == "password"@ || a.addr@ == "ip:port"@
}

/// The first target descriptor still holds a placeholder value.
pub open spec fn first_target_unmodified(ds: Seq<TargetDescriptor>) -> bool {
    ds.len() > 0 && (ds[0].executable_file_name@ == "executable_file_name"@
        || ds[0].local_path@ == "local_path"@ || ds[0].remote_path@ == "remote_path"@)
}

/// The configuration written into a freshly created source file, which must
/// be edited before any deployment can run.
pub fn placeholder_config() -> (r: Config)
    ensures
        r.ssh_account.addr@ == "ip:port"@,
        r.ssh_account.username@ == "username"@,
        r.ssh_account.password@ == "password"@,
        r.executable_config_list@.len() == 1,
        r.executable_config_list@[0].id@ == "default"@,
        r.executable_config_list@[0].executable_file_name@ == "executable_file_name"@,
        r.executable_config_list@[0].local_path@ == "local_path"@,
        r.executable_config_list@[0].remote_path@ == (
        "remote_path # need end with /(unix) or \\(windows)")@,
{
    let descriptor = TargetDescriptor {
        id: String::from_str("default"),
        executable_file_name: String::from_str("executable_file_name"),
        local_path: String::from_str("local_path"),
        remote_path: String::from_str("remote_path # need end with /(unix) or \\(windows)"),
    };
    let mut list: Vec<TargetDescriptor> = Vec::new();
    list.push(descriptor);
    Config {
        ssh_account: SshAccount {
            addr: String::from_str("ip:port"),
            username: String::from_str("username"),
            password: String::from_str("password"),
        },
        executable_config_list: list,
    }
}

/// Whether the configuration still holds placeholder values and must be
/// rejected before any connection is attempted.
pub fn config_is_unmodified(c: &Config) -> (r: bool)
    ensures
        r == (connection_unmodified(c.ssh_account) || first_target_unmodified(
            c.executable_config_list@,
        )),
{
    let conn = c.ssh_account.username == String::from_str("username") || c.ssh_account.password
        == String::from_str("password") || c.ssh_account.addr == String::from_str("ip:port");
    let target = if c.executable_config_list.len() > 0 {
        let d = &c.executable_config_list[0];
        d.executable_file_name == String::from_str("executable_file_name") || d.local_path
            == String::from_str("local_path") || d.remote_path == String::from_str("remote_path")
    } else {
        false
    };
    conn || target
}

/// Resolves the configuration source and target id a run was asked for:
/// absent, they default to `exe-default-config.yaml` in the given directory
/// and to the id `default`.
pub fn get_config_and_id(executable_dir: &str, config: Option<String>, id: Option<String>) -> (r: (
    String,
    String,
))
    ensures
        r.0@ == (match config {
            Some(c) => c@,
            None => joined(executable_dir@, "exe-default-config.yaml"@),
        }),
        r.1@ == (match id {
            Some(i) => i@,
            None => "default"@,
        }),
{
    let path = match config {
        Some(c) => c,
        None => join_path(executable_dir, "exe-default-config.yaml"),
    };
    let ident = match id {
        Some(i) => i,
        None => String::from_str("default"),
    };
    (path, ident)
}

} // verus!
