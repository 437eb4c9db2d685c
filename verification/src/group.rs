//! Resolving configuration data into deployable targets: one target by id,
//! all targets of one group, or all groups discovered among a directory's
//! file names. A group is the ordered targets of one configuration source,
//! named after the source file.

use vstd::prelude::*;

use crate::DeployError;
use crate::config::{Config, TargetDescriptor};
use crate::executable::Executable;
use crate::text::{ends_with, starts_with};
use crate::text::{str_ends_with, str_starts_with};

verus! {

use vstd::string::StrSliceExecFns;
use vstd::string::StringExecFns;

/// Every descriptor has all required fields non-empty.
pub open spec fn all_descriptors_ok(ds: Seq<TargetDescriptor>) -> bool {
    forall|i: int| 0 <= i < ds.len() ==> (#[trigger] ds[i]).wf()
}

/// The resolved targets carry, in order, exactly the descriptors' ids and
/// fields.
pub open spec fn targets_match(ts: Seq<(String, Executable)>, ds: Seq<TargetDescriptor>) -> bool {
    ts.len() == ds.len() && forall|i: int|
        0 <= i < ds.len() ==> (#[trigger] ts[i]).0 == ds[i].id && ts[i].1.name
            == ds[i].executable_file_name && ts[i].1.remote_path == ds[i].remote_path
            && ts[i].1.local_path == ds[i].local_path
}

/// The first descriptor with the given id, if any.
pub open spec fn found_descriptor(ds: Seq<TargetDescriptor>, id: Seq<char>) -> Option<
    TargetDescriptor,
>
    decreases ds.len(),
{
    if ds.len() == 0 {
        None
    } else if ds.first().id@ == id {
        Some(ds.first())
    } else {
        found_descriptor(ds.drop_first(), id)
    }
}

/// Resolves the one target a single-target run addresses: the first
/// descriptor with the requested id, or a not-found error; a matching
/// descriptor with an empty required field is a configuration error.
pub fn get_executable(config: &Config, id: &String) -> (r: Result<Executable, DeployError>)
    ensures
        ({
            let f = found_descriptor(config.executable_config_list@, id@);
            match r {
                Ok(e) => match f {
                    Some(d) => d.target_fields_ok() && e.name == d.executable_file_name
                        && e.remote_path == d.remote_path && e.local_path == d.local_path,
                    None => false,
                },
                Err(err) => match f {
                    Some(d) => err == DeployError::ConfigurationError && !d.target_fields_ok(),
                    None => err == DeployError::NotFoundError,
                },
            }
        }),
{
    let n = config.executable_config_list.len();
    let mut i: usize = 0;
    proof {
        assert(config.executable_config_list@.subrange(0, n as int)
            =~= config.executable_config_list@);
    }
    while i < n
        invariant
            i <= n == config.executable_config_list@.len(),
            found_descriptor(config.executable_config_list@, id@) == found_descriptor(
                config.executable_config_list@.subrange(i as int, n as int),
                id@,
            ),
        decreases n - i,
    {
        proof {
            let suffix = config.executable_config_list@.subrange(i as int, n as int);
            assert(suffix.first() == config.executable_config_list@[i as int]);
            assert(suffix.drop_first() =~= config.executable_config_list@.subrange(
                i + 1,
                n as int,
            ));
        }
        let d = &config.executable_config_list[i];
        if d.id == *id {
            proof {
                let suffix = config.executable_config_list@.subrange(i as int, n as int);
                assert(found_descriptor(suffix, id@) == Some(
                    config.executable_config_list@[i as int],
                ));
            }
            return match Executable::new(
                d.executable_file_name.clone(),
                d.remote_path.clone(),
                d.local_path.clone(),
            ) {
                Ok(e) => Ok(e),
                Err(err) => Err(err),
            };
        }
        i = i + 1;
    }
    proof {
        assert(config.executable_config_list@.subrange(n as int, n as int) =~= Seq::<
            TargetDescriptor,
        >::empty());
    }
    Err(DeployError::NotFoundError)
}

/// Resolves every target of one configuration source, in the declared
/// order, keeping each descriptor's id beside its target; any descriptor
/// with an empty required field makes the whole group a configuration
/// error.
pub fn get_all_executable(config: &Config) -> (r: Result<Vec<(String, Executable)>, DeployError>)
    ensures
        match r {
            Ok(ts) => all_descriptors_ok(config.executable_config_list@) && targets_match(
                ts@,
                config.executable_config_list@,
            ),
            Err(e) => e == DeployError::ConfigurationError && !all_descriptors_ok(
                config.executable_config_list@,
            ),
        },
{
    let n = config.executable_config_list.len();
    let mut targets: Vec<(String, Executable)> = Vec::new();
    let mut i: usize = 0;
    while i < n
        invariant
            i <= n == config.executable_config_list@.len(),
            targets_match(targets@, config.executable_config_list@.subrange(0, i as int)),
            forall|k: int| 0 <= k < i ==> (#[trigger] config.executable_config_list@[k]).wf(),
        decreases n - i,
    {
        let d = &config.executable_config_list[i];
        if d.id.as_str().is_empty() {
            proof {
                assert(!config.executable_config_list@[i as int].wf());
                assert(!all_descriptors_ok(config.executable_config_list@));
            }
            return Err(DeployError::ConfigurationError);
        }
        match Executable::new(
            d.executable_file_name.clone(),
            d.remote_path.clone(),
            d.local_path.clone(),
        ) {
            Ok(e) => {
                targets.push((d.id.clone(), e));
            },
            Err(_) => {
                proof {
                    assert(!config.executable_config_list@[i as int].wf());
                    assert(!all_descriptors_ok(config.executable_config_list@));
                }
                return Err(DeployError::ConfigurationError);
            },
        }
        proof {
            assert(targets@.subrange(0, i + 1) =~= targets@);
            assert(config.executable_config_list@.subrange(0, i + 1).drop_last()
                =~= config.executable_config_list@.subrange(0, i as int));
            assert(forall|k: int|
                0 <= k < i + 1 ==> #[trigger] config.executable_config_list@.subrange(
                    0,
                    i + 1,
                )[k] == config.executable_config_list@[k]);
        }
        i = i + 1;
    }
    proof {
        assert(config.executable_config_list@.subrange(0, n as int)
            =~= config.executable_config_list@);
    }
    Ok(targets)
}

/// All targets sharing one remote connection, derived from one
/// configuration source.
#[derive(Clone, Debug)]
pub struct TargetGroup {
    pub name: String,
    pub targets: Vec<(String, Executable)>,
}

/// The first target with the given id, if any: with duplicate ids only the
/// first is addressable.
pub open spec fn found_target(ts: Seq<(String, Executable)>, id: Seq<char>) -> Option<Executable>
    decreases ts.len(),
{
    if ts.len() == 0 {
        None
    } else if ts.first().0@ == id {
        Some(ts.first().1)
    } else {
        found_target(ts.drop_first(), id)
    }
}

impl TargetGroup {
    /// Looks a target up by id; the first match wins.
    pub fn find(&self, id: &String) -> (r: Option<&Executable>)
        ensures
            match r {
                Some(e) => found_target(self.targets@, id@) == Some(*e),
                None => found_target(self.targets@, id@) is None,
            },
    {
        let n = self.targets.len();
        let mut i: usize = 0;
        proof {
            assert(self.targets@.subrange(0, n as int) =~= self.targets@);
        }
        while i < n
            invariant
                i <= n == self.targets@.len(),
                found_target(self.targets@, id@) == found_target(
                    self.targets@.subrange(i as int, n as int),
                    id@,
                ),
            decreases n - i,
        {
            proof {
                let suffix = self.targets@.subrange(i as int, n as int);
                assert(suffix.first() == self.targets@[i as int]);
                assert(suffix.drop_first() =~= self.targets@.subrange(i + 1, n as int));
            }
            if self.targets[i].0 == *id {
                return Some(&self.targets[i].1);
            }
            i = i + 1;
        }
        proof {
            assert(self.targets@.subrange(n as int, n as int) =~= Seq::<(
                String,
                Executable,
            )>::empty());
        }
        None
    }
}

/// Resolves one configuration source into a named group of targets.
pub fn resolve_group(name: String, config: &Config) -> (r: Result<TargetGroup, DeployError>)
    ensures
        match r {
            Ok(g) => g.name == name && all_descriptors_ok(config.executable_config_list@)
                && targets_match(g.targets@, config.executable_config_list@),
            Err(e) => e == DeployError::ConfigurationError && !all_descriptors_ok(
                config.executable_config_list@,
            ),
        },
{
    match get_all_executable(config) {
        Ok(targets) => Ok(TargetGroup { name, targets }),
        Err(e) => Err(e),
    }
}

/// Resolves every discovered configuration source — each already paired
/// with its group name — into a group, in discovery order.
pub fn get_all_config_executable(sources: &Vec<(String, Config)>) -> (r: Result<
    Vec<TargetGroup>,
    DeployError,
>)
    ensures
        match r {
            Ok(gs) => gs@.len() == sources@.len() && forall|i: int|
                0 <= i < sources@.len() ==> (#[trigger] gs@[i]).name == sources@[i].0
                    && all_descriptors_ok(sources@[i].1.executable_config_list@) && targets_match(
                    gs@[i].targets@,
                    sources@[i].1.executable_config_list@,
                ),
            Err(e) => e == DeployError::ConfigurationError && exists|i: int|
                0 <= i < sources@.len() && !all_descriptors_ok(
                    (#[trigger] sources@[i]).1.executable_config_list@,
                ),
        },
{
    let n = sources.len();
    let mut groups: Vec<TargetGroup> = Vec::new();
    let mut i: usize = 0;
    while i < n
        invariant
            i <= n == sources@.len(),
            groups@.len() == i,
            forall|k: int|
                0 <= k < i ==> (#[trigger] groups@[k]).name == sources@[k].0
                    && all_descriptors_ok(sources@[k].1.executable_config_list@) && targets_match(
                    groups@[k].targets@,
                    sources@[k].1.executable_config_list@,
                ),
        decreases n - i,
    {
        match resolve_group(sources[i].0.clone(), &sources[i].1) {
            Ok(g) => {
                groups.push(g);
            },
            Err(e) => {
                proof {
                    assert(!all_descriptors_ok(
                        sources@[i as int].1.executable_config_list@,
                    ));
                }
                return Err(e);
            },
        }
        i = i + 1;
    }
    proof {
        assert(groups@.len() == sources@.len());
        assert(forall|k: int|
            0 <= k < sources@.len() ==> (#[trigger] groups@[k]).name == sources@[k].0
                && all_descriptors_ok(sources@[k].1.executable_config_list@) && targets_match(
                groups@[k].targets@,
                sources@[k].1.executable_config_list@,
            ));
    }
    Ok(groups)
}

/// A file name that counts as a configuration source: prefix `exe-` and
/// extension `.yaml`.
pub open spec fn is_config_source_name(n: Seq<char>) -> bool {
    starts_with(n, "exe-"@) && ends_with(n, ".yaml"@)
}

/// The group name a source file yields: the file name with its `.yaml`
/// extension stripped.
pub open spec fn source_group_name(n: Seq<char>) -> Seq<char> {
    if ends_with(n, ".yaml"@) {
        n.subrange(0, n.len() - ".yaml"@.len())
    } else {
        n
    }
}

/// Whether a directory entry's name selects it as a configuration source.
pub fn is_config_file_name(name: &str) -> (r: bool)
    ensures
        r == is_config_source_name(name@),
{
    str_starts_with(name, "exe-") && str_ends_with(name, ".yaml")
}

/// Strips the `.yaml` extension off a source file name, yielding the group
/// name.
pub fn group_name_of(file_name: &str) -> (r: String)
    ensures
        r@ == source_group_name(file_name@),
{
    let suffix = ".yaml";
    if str_ends_with(file_name, suffix) {
        let n = file_name.unicode_len();
        let stem = file_name.substring_char(0, n - suffix.unicode_len());
        String::from_str(stem)
    } else {
        String::from_str(file_name)
    }
}

/// The file names among a directory's entries that select configuration
/// sources, in order.
pub open spec fn selected_sources(ns: Seq<String>) -> Seq<String>
    decreases ns.len(),
{
    if ns.len() == 0 {
        Seq::empty()
    } else if is_config_source_name(ns.last()@) {
        selected_sources(ns.drop_last()).push(ns.last())
    } else {
        selected_sources(ns.drop_last())
    }
}

/// Selects, in order, the directory entries whose names mark them as
/// configuration sources; every other entry is ignored.
pub fn select_config_sources(names: &Vec<String>) -> (r: Vec<String>)
    ensures
        r@ == selected_sources(names@),
{
    let mut selected: Vec<String> = Vec::new();
    let n = names.len();
    let mut i: usize = 0;
    proof {
        assert(names@.subrange(0, 0) =~= Seq::<String>::empty());
    }
    while i < n
        invariant
            i <= n == names@.len(),
            selected@ == selected_sources(names@.subrange(0, i as int)),
        decreases n - i,
    {
        proof {
            assert(names@.subrange(0, i + 1).drop_last() =~= names@.subrange(0, i as int));
            assert(names@.subrange(0, i + 1).last() == names@[i as int]);
        }
        if is_config_file_name(names[i].as_str()) {
            selected.push(names[i].clone());
        }
        i = i + 1;
    }
    proof {
        assert(names@.subrange(0, n as int) =~= names@);
    }
    selected
}

} // verus!
