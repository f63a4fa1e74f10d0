//! Aliases: named links under the aliases directory, each pointing at an
//! installation directory or at the fixed target that stands for the system
//! interpreter.

use vstd::prelude::*;
use crate::config::{installation_path_of, versions_dir_of, MamimiConfig};
use crate::error::MamimiError;
use crate::text::{join, last_component, last_component_of, strip_prefix};
use crate::version::{
    lemma_parse_display_round_trip, parse_version, system_text, version_text, PythonVersion,
    VersionView,
};

verus! {

/// The link target that stands for the system interpreter.
pub const SYSTEM_TARGET: &'static str = "/dev/null/installation";

/// The version a link target stands for: a release whose installation
/// directory it is, or the system interpreter for the fixed target.
pub open spec fn target_version(versions_dir: Seq<char>, target: Seq<char>) -> Option<VersionView> {
    let prefix = versions_dir + seq!['/'];
    let rest = target.subrange(prefix.len() as int, target.len() as int);
    if prefix.len() <= target.len() && target.subrange(0, prefix.len() as int) == prefix
        && parse_version(rest) is Some && parse_version(rest)->0 is Release {
        parse_version(rest)
    } else if target == SYSTEM_TARGET@ {
        Some(VersionView::System)
    } else {
        None
    }
}

/// An alias as read from the aliases directory.
#[derive(Clone, Debug)]
pub struct StroredAlias {
    alias_path: String,
    destination_path: String,
}

impl StroredAlias {
    /// The alias at `alias_path`, whose link leads to `destination_path`.
    pub fn new(alias_path: String, destination_path: String) -> (r: StroredAlias)
        ensures
            r.alias_path()@ == alias_path@,
            r.destination()@ == destination_path@,
    {
        StroredAlias { alias_path, destination_path }
    }

    pub closed spec fn alias_path(&self) -> String {
        self.alias_path
    }

    pub closed spec fn destination(&self) -> String {
        self.destination_path
    }

    /// The name of the version the alias points at: `system` for the fixed
    /// system target, else the name of the installation directory.
    pub fn s_ver(&self) -> (r: String)
        ensures
            r@ == if self.destination()@ == SYSTEM_TARGET@ {
                system_text()
            } else {
                last_component(self.destination()@)
            },
    {
        if crate::text::str_eq(self.destination_path.as_str(), SYSTEM_TARGET) {
            PythonVersion::System.to_string()
        } else {
            last_component_of(self.destination_path.as_str())
        }
    }

    /// The alias's name: the last component of its path.
    pub fn name(&self) -> (r: String)
        ensures
            r@ == last_component(self.alias_path()@),
    {
        last_component_of(self.alias_path.as_str())
    }

    /// The path of the alias's link.
    pub fn path(&self) -> (r: &str)
        ensures
            r@ == self.alias_path()@,
    {
        self.alias_path.as_str()
    }
}

/// The version that a link target stands for, where it stands for one.
pub fn version_of_target(config: &MamimiConfig, target: &str) -> (r: Option<PythonVersion>)
    ensures
        match r {
            Some(v) => target_version(versions_dir_of(config.base_dir@), target@) == Some(v@),
            None => target_version(versions_dir_of(config.base_dir@), target@) is None,
        },
{
    let dir = config.installations_dir();
    let mut prefix = dir.clone();
    crate::text::push_char(&mut prefix, '/');
    let ghost vd = versions_dir_of(config.base_dir@);
    assert(prefix@ == vd + seq!['/']);
    match strip_prefix(target, prefix.as_str()) {
        Some(rest) => {
            assert(rest@ =~= target@.subrange(prefix@.len() as int, target@.len() as int));
            assert(target@.subrange(0, prefix@.len() as int) =~= prefix@);
            match PythonVersion::parse(rest.as_str()) {
                Ok(PythonVersion::Semver(r)) => {
                    return Some(PythonVersion::Semver(r));
                },
                _ => {},
            }
        },
        None => {},
    }
    if crate::text::str_eq(target, SYSTEM_TARGET) {
        Some(PythonVersion::System)
    } else {
        None
    }
}

/// What the entry at an alias's path is, before the alias is written.
#[derive(Clone, Copy, Debug, PartialEq, Eq, Structural)]
pub enum EntryKind {
    Missing,
    Symlink,
    Other,
}

/// How to write an alias: remove the old link if there is one, then link
/// `link` to `target`.
#[derive(Clone, Debug)]
pub struct AliasPlan {
    pub remove_existing: bool,
    pub link: String,
    pub target: String,
}

/// The steps that point the alias `common_name` at `version`. The version
/// must be installed; an entry in the way must be a link, which is replaced.
pub fn create_alias(
    config: &MamimiConfig,
    common_name: &str,
    version: &PythonVersion,
    installed: bool,
    existing: EntryKind,
) -> (r: Result<AliasPlan, MamimiError>)
    ensures
        match r {
            Ok(p) => {
                &&& installed
                &&& existing != EntryKind::Other
                &&& installation_path_of(config.base_dir@, version@) == Some(p.target@)
                &&& p.link@ == join(crate::config::aliases_dir_of(config.base_dir@), common_name@)
                &&& p.remove_existing == (existing == EntryKind::Symlink)
            },
            Err(MamimiError::InstallationNotFound { version: v }) => v@ == version@ && (!installed
                || version@ is System),
            Err(MamimiError::CorruptAlias { name }) => installed && version@ is Release && existing
                == EntryKind::Other && name@ == common_name@,
            Err(_) => false,
        },
{
    let target = match version.installation_path(config) {
        Some(t) => t,
        None => {
            return Err(MamimiError::InstallationNotFound { version: version.duplicate() });
        },
    };
    if !installed {
        return Err(MamimiError::InstallationNotFound { version: version.duplicate() });
    }
    let remove_existing = match existing {
        EntryKind::Missing => false,
        EntryKind::Symlink => true,
        EntryKind::Other => {
            return Err(MamimiError::CorruptAlias { name: String::from_str(common_name) });
        },
    };
    Ok(AliasPlan { remove_existing, link: config.alias_path(common_name), target })
}

/// An alias written for a parsed release reads back as that release.
pub proof fn lemma_alias_reads_back(base: Seq<char>, s: Seq<char>)
    requires
        parse_version(s) matches Some(VersionView::Release(_)),
    ensures
        target_version(versions_dir_of(base), installation_path_of(base, parse_version(s)->0)->0)
            == parse_version(s),
{
    let v = parse_version(s)->0;
    let vd = versions_dir_of(base);
    let t = join(vd, version_text(v));
    lemma_parse_display_round_trip(s);
    let prefix = vd + seq!['/'];
    assert(t.subrange(0, prefix.len() as int) =~= prefix);
    assert(t.subrange(prefix.len() as int, t.len() as int) =~= version_text(v));
}

} // verus!
