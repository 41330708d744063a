//! How an update is installed: the sidecar strategy's files next to the
//! binary, and the choice of strategy.
use vstd::prelude::*;

use crate::error::Error;
use crate::text::{join_str, join3, seq_ends_with, seq_starts_with, starts_with, ends_with, str_chars, string_of};
use crate::update::types::{UpdateConfig, UpdateStrategyType};

verus! {

/// `dir` joined with `name` the way a Unix path is: an absolute `name`
/// replaces `dir`, and one `/` separates them.
pub open spec fn path_join(dir: Seq<char>, name: Seq<char>) -> Seq<char> {
    if seq_starts_with(name, "/"@) || dir.len() == 0 {
        name
    } else if seq_ends_with(dir, "/"@) {
        dir + name
    } else {
        dir + "/"@ + name
    }
}

fn join_path(dir: &str, name: &str) -> (r: String)
    ensures
        r@ == path_join(dir@, name@),
{
    let d = str_chars(dir);
    let n = str_chars(name);
    let slash = str_chars("/");
    if starts_with(n.as_slice(), slash.as_slice()) || d.len() == 0 {
        string_of(name)
    } else if ends_with(d.as_slice(), slash.as_slice()) {
        join_str(dir, name)
    } else {
        join3(dir, "/", name)
    }
}

/// The sidecar strategy: the new binary is staged next to the current one,
/// the current one is kept as a backup, and the staged one is moved over
/// it.
#[derive(Debug)]
pub struct SidecarStrategy {
    pub current_binary_path: String,
    pub backup_path: String,
    pub staging_path: String,
}

impl SidecarStrategy {
    /// The strategy for a configuration, given what checking its install
    /// directory found: whether it exists, and whether a test file could be
    /// written there (the error when not).  The binary lives at
    /// `<dir>/<binary>`, its backup at `<dir>/<binary>.backup` and the
    /// staged one at `<dir>/<binary>.staging`.
    pub fn new(config: &UpdateConfig, dir_exists: bool, writable: Result<(), String>) -> (r: Result<
        Self,
        Error,
    >)
        ensures
            match r {
                Ok(s) => {
                    &&& dir_exists && writable is Ok
                    &&& s.current_binary_path@ == path_join(config.install_dir@, config.binary_name@)
                    &&& s.backup_path@ == path_join(
                        config.install_dir@,
                        config.binary_name@ + ".backup"@,
                    )
                    &&& s.staging_path@ == path_join(
                        config.install_dir@,
                        config.binary_name@ + ".staging"@,
                    )
                },
                Err(e) => e is Configuration && if !dir_exists {
                    e.spec_detail() == "Install directory does not exist: "@ + config.install_dir@
                } else {
                    writable matches Err(w) && e.spec_detail() == "Install directory is not writable: "@
                        + w@
                },
            },
    {
        let dir = config.install_dir.as_str();
        let name = config.binary_name.as_str();
        let current_binary_path = join_path(dir, name);
        let backup_name = join_str(name, ".backup");
        let staging_name = join_str(name, ".staging");
        let backup_path = join_path(dir, backup_name.as_str());
        let staging_path = join_path(dir, staging_name.as_str());
        if !dir_exists {
            return Err(Error::Configuration(join_str("Install directory does not exist: ", dir)));
        }
        match writable {
            Err(w) => Err(Error::Configuration(join_str("Install directory is not writable: ", w.as_str()))),
            Ok(()) => Ok(SidecarStrategy { current_binary_path, backup_path, staging_path }),
        }
    }

    pub fn name(&self) -> (r: &'static str)
        ensures
            r@ == "sidecar"@,
    {
        "sidecar"
    }

    /// A rollback needs the backup: without one it is refused.
    pub fn check_rollback(&self, backup_exists: bool) -> (r: Result<(), Error>)
        ensures
            backup_exists <==> r is Ok,
            r matches Err(e) ==> e is External && e.spec_detail() == "No backup available for rollback"@,
    {
        if backup_exists {
            Ok(())
        } else {
            Err(Error::External(string_of("No backup available for rollback")))
        }
    }
}

/// The self-replace strategy: the running executable replaces itself.
#[derive(Debug)]
pub struct SelfReplaceStrategy {
    pub current_exe: String,
}

impl SelfReplaceStrategy {
    pub fn name(&self) -> (r: &'static str)
        ensures
            r@ == "self-replace"@,
    {
        "self-replace"
    }
}

/// The strategy in use.
#[derive(Debug)]
pub enum UpdateStrategyImpl {
    Sidecar(SidecarStrategy),
    SelfReplace(SelfReplaceStrategy),
}

impl UpdateStrategyImpl {
    pub fn name(&self) -> (r: &'static str)
        ensures
            r@ == match self {
                UpdateStrategyImpl::Sidecar(_) => "sidecar"@,
                UpdateStrategyImpl::SelfReplace(_) => "self-replace"@,
            },
    {
        match self {
            UpdateStrategyImpl::Sidecar(s) => s.name(),
            UpdateStrategyImpl::SelfReplace(s) => s.name(),
        }
    }
}

/// The strategy a configuration asks for, if this build has it.
pub fn choose_strategy(kind: UpdateStrategyType, sidecar_built: bool, self_replace_built: bool) -> (r:
    Result<UpdateStrategyType, Error>)
    ensures
        match kind {
            UpdateStrategyType::Sidecar => if sidecar_built {
                r == Ok::<UpdateStrategyType, Error>(kind)
            } else {
                r matches Err(e) && e is Configuration && e.spec_detail()
                    == "Sidecar strategy not compiled in"@
            },
            UpdateStrategyType::SelfReplace => if self_replace_built {
                r == Ok::<UpdateStrategyType, Error>(kind)
            } else {
                r matches Err(e) && e is Configuration && e.spec_detail()
                    == "Self-replace strategy not compiled in"@
            },
        },
{
    match kind {
        UpdateStrategyType::Sidecar => if sidecar_built {
            Ok(kind)
        } else {
            Err(Error::Configuration(string_of("Sidecar strategy not compiled in")))
        },
        UpdateStrategyType::SelfReplace => if self_replace_built {
            Ok(kind)
        } else {
            Err(Error::Configuration(string_of("Self-replace strategy not compiled in")))
        },
    }
}

} // verus!
