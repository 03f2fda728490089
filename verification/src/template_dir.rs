//! Where the templates are kept: in the directory that the system reports
//! for them, or else in a fallback directory under one that it does report.
//!
//! Whether the system reports a template directory is for the caller to find
//! out: on some systems the answer lies in a file that the user may have
//! written by hand. The base of the fallback is looked up here.

use std::path::PathBuf;
use vstd::prelude::*;

verus! {

/// `dirs::config_dir`: the user's configuration directory, if one is known.
/// The answer depends on the user's environment, so nothing is claimed of it.
pub assume_specification[ dirs::config_dir ]() -> (reported: Option<PathBuf>)
;

/// `dirs::home_dir`: the user's home directory, if one is known. The answer
/// depends on the user's environment, so nothing is claimed of it.
pub assume_specification[ dirs::home_dir ]() -> (reported: Option<PathBuf>)
;

/// Where to keep templates on a system that reports no directory for them.
#[derive(Debug, Clone, Copy, PartialEq, Eq, Structural)]
pub enum FallbackRule {
    /// In a directory of this program's own under the configuration
    /// directory, made if it is missing.
    UnderConfig,
    /// In the customary templates directory under the home directory.
    UnderHome,
}

/// The name of the fallback directory under its base.
pub open spec fn fallback_name(rule: FallbackRule) -> Seq<char> {
    match rule {
        FallbackRule::UnderConfig => "rtm"@,
        FallbackRule::UnderHome => "Templates"@,
    }
}

/// Whether the fallback directory is made when it is missing.
pub open spec fn made_if_missing(rule: FallbackRule) -> bool {
    rule == FallbackRule::UnderConfig
}

impl FallbackRule {
    /// The name of the fallback directory under its base.
    pub fn name(&self) -> (name: &'static str)
        ensures
            name@ == fallback_name(*self),
    {
        match self {
            FallbackRule::UnderConfig => "rtm",
            FallbackRule::UnderHome => "Templates",
        }
    }

    /// Whether the fallback directory is made when it is missing. Making it
    /// where it exists already changes nothing.
    pub fn create_if_missing(&self) -> (create: bool)
        ensures
            create == made_if_missing(*self),
    {
        match self {
            FallbackRule::UnderConfig => true,
            FallbackRule::UnderHome => false,
        }
    }
}

/// The template directory, as far as the library can tell.
#[derive(Debug, Clone, PartialEq, Eq)]
pub enum TemplateDir {
    /// The directory that the system reports.
    Reported(PathBuf),
    /// The directory named by `rule` under `base`.
    Fallback { base: PathBuf, rule: FallbackRule },
    /// The system reports neither a template directory nor the base that
    /// `rule` needs.
    Unknown { rule: FallbackRule },
}

/// The template directory for what the system reports: its own template
/// directory where it has one, whatever the base is; otherwise the fallback
/// under the base; otherwise none.
pub open spec fn resolution(
    reported: Option<PathBuf>,
    base: Option<PathBuf>,
    rule: FallbackRule,
) -> TemplateDir {
    match (reported, base) {
        (Some(dir), _) => TemplateDir::Reported(dir),
        (None, Some(base)) => TemplateDir::Fallback { base, rule },
        (None, None) => TemplateDir::Unknown { rule },
    }
}

/// Whether `dir` is an answer that `rule` can give.
pub open spec fn follows(dir: TemplateDir, rule: FallbackRule) -> bool {
    match dir {
        TemplateDir::Reported(_) => true,
        TemplateDir::Fallback { rule: used, .. } => used == rule,
        TemplateDir::Unknown { rule: used } => used == rule,
    }
}

/// Picks the template directory from what the system reports.
pub fn resolve(reported: Option<PathBuf>, base: Option<PathBuf>, rule: FallbackRule) -> (dir:
    TemplateDir)
    ensures
        dir == resolution(reported, base, rule),
{
    match reported {
        Some(dir) => TemplateDir::Reported(dir),
        None => match base {
            Some(base) => TemplateDir::Fallback { base, rule },
            None => TemplateDir::Unknown { rule },
        },
    }
}

/// The template directory, with the fallback under the configuration
/// directory. `reported` is the template directory that the system reports,
/// if it reports one; the configuration directory is looked up only where it
/// reports none, and anew at every call.
pub fn unwrap_path(reported: Option<PathBuf>) -> (dir: TemplateDir)
    ensures
        reported is Some ==> dir == TemplateDir::Reported(reported->0),
        reported is None ==> dir !is Reported && follows(dir, FallbackRule::UnderConfig),
{
    match reported {
        Some(dir) => resolve(Some(dir), None, FallbackRule::UnderConfig),
        None => resolve(None, dirs::config_dir(), FallbackRule::UnderConfig),
    }
}

/// The template directory, with the fallback under the home directory.
/// `reported` is the template directory that the system reports, if it
/// reports one; the home directory is looked up only where it reports none,
/// and anew at every call.
pub fn un_path(reported: Option<PathBuf>) -> (dir: TemplateDir)
    ensures
        reported is Some ==> dir == TemplateDir::Reported(reported->0),
        reported is None ==> dir !is Reported && follows(dir, FallbackRule::UnderHome),
{
    match reported {
        Some(dir) => resolve(Some(dir), None, FallbackRule::UnderHome),
        None => resolve(None, dirs::home_dir(), FallbackRule::UnderHome),
    }
}

} // verus!
