//! Activation: pointing a scope's alias (the session's link or `default`)
//! at an installed version, and the removal of an installed version.

use vstd::prelude::*;
use crate::alias::{create_alias, AliasPlan, EntryKind};
use crate::config::{aliases_dir_of, installation_path_of, MamimiConfig};
use crate::error::MamimiError;
use crate::input_version::{is_greatest_match, version_views, InputVersion, SpecifierView};
use crate::resolve::{resolution, resolve, resolve_specifier, resolved_by, result_view, result_view_ok};
use crate::text::join;
use crate::version::{PythonVersion, VersionView};

verus! {

pub open spec fn option_view(s: Option<InputVersion>) -> Option<SpecifierView> {
    match s {
        Some(x) => Some(x@),
        None => None,
    }
}

/// Whether `v` is one of `installed`.
pub fn is_installed(installed: &Vec<PythonVersion>, v: &PythonVersion) -> (r: bool)
    ensures
        r == version_views(installed@).contains(v@),
{
    let mut i: usize = 0;
    while i < installed.len()
        invariant
            i <= installed@.len(),
            forall|k: int| 0 <= k < i ==> installed@[k]@ != v@,
        decreases installed@.len() - i,
    {
        if installed[i].same(v) {
            assert(version_views(installed@)[i as int] == v@);
            return true;
        }
        i = i + 1;
    }
    proof {
        if version_views(installed@).contains(v@) {
            let k = choose|k: int| 0 <= k < installed@.len() && version_views(installed@)[k] == v@;
            assert(installed@[k]@ == v@);
        }
    }
    false
}

/// How to point the session's link.
pub enum ActivationPlan {
    /// Replace the link at `link` by one to `target`.
    Link { link: String, target: String },
    /// No version was asked for and no version file has content: replace the
    /// link at `link` by one to the `default` alias at `target`, then report
    /// `CannotInferVersion`.
    FallBackToDefault { link: String, target: String },
}

/// The `local` command: set the session's version.
pub struct Local {
    pub version: Option<InputVersion>,
}

impl Local {
    /// The plan that points the session's link, resolving against the
    /// installed versions.
    pub fn plan(
        &self,
        config: &MamimiConfig,
        version_files: &Vec<Option<String>>,
        installed: &Vec<PythonVersion>,
    ) -> (r: Result<ActivationPlan, MamimiError>)
        ensures
            config.multishell_path is None ==> (r matches Err(e) && e is MamimiPathNotFound),
            config.multishell_path matches Some(scope) ==> match r {
                Ok(ActivationPlan::Link { link, target }) => link@ == scope@ && exists|v: VersionView|
                    resolution(
                        option_view(self.version),
                        version_files@,
                        None,
                        version_views(installed@),
                        #[trigger] result_view_ok(v),
                    ) && version_views(installed@).contains(v) && installation_path_of(
                        config.base_dir@,
                        v,
                    ) == Some(target@),
                Ok(ActivationPlan::FallBackToDefault { link, target }) => link@ == scope@ && target@
                    == join(aliases_dir_of(config.base_dir@), "default"@) && resolution(
                    option_view(self.version),
                    version_files@,
                    None,
                    version_views(installed@),
                    Err(MamimiError::CannotInferVersion),
                ),
                Err(MamimiError::VersionNotFound { version }) => (version@ matches SpecifierView::Full(
                    v,
                ) && resolution(
                    option_view(self.version),
                    version_files@,
                    None,
                    version_views(installed@),
                    result_view_ok(v),
                ) && (!version_views(installed@).contains(v) || v is System)) || resolution(
                    option_view(self.version),
                    version_files@,
                    None,
                    version_views(installed@),
                    Err(MamimiError::VersionNotFound { version }),
                ),
                Err(e) => !(e is CannotInferVersion) && resolution(
                    option_view(self.version),
                    version_files@,
                    None,
                    version_views(installed@),
                    Err(e),
                ),
            },
    {
        let scope = match &config.multishell_path {
            Some(p) => p.clone(),
            None => {
                return Err(MamimiError::MamimiPathNotFound);
            },
        };
        let explicit = match &self.version {
            Some(s) => Some(s),
            None => None,
        };
        let res = resolve(explicit, version_files, None, installed);
        proof {
            assert(option_view(self.version) == match explicit {
                Some(s) => Some(s@),
                None => None::<SpecifierView>,
            });
        }
        match res {
            Ok(v) => {
                let target = match v.installation_path(config) {
                    Some(t) => t,
                    None => {
                        assert(result_view(Ok(v)) == result_view_ok(v@));
                        return Err(MamimiError::VersionNotFound { version: InputVersion::Full(v) });
                    },
                };
                assert(result_view(Ok(v)) == result_view_ok(v@));
                if !is_installed(installed, &v) {
                    return Err(MamimiError::VersionNotFound { version: InputVersion::Full(v) });
                }
                Ok(ActivationPlan::Link { link: scope, target })
            },
            Err(MamimiError::CannotInferVersion) => Ok(
                ActivationPlan::FallBackToDefault { link: scope, target: config.default_python_version_dir() },
            ),
            Err(e) => Err(e),
        }
    }
}

} // verus!

verus! {

/// The `global` command: make an installed version the default.
pub struct Global {
    pub version: InputVersion,
}

impl Global {
    /// The plan that points `default` at the version, which must be an
    /// exact, installed release.
    pub fn plan(&self, config: &MamimiConfig, installed: &Vec<PythonVersion>, existing: EntryKind) -> (r: Result<
        AliasPlan,
        MamimiError,
    >)
        ensures
            match r {
                Ok(p) => {
                    &&& self.version@ matches SpecifierView::Full(v)
                    &&& v is Release
                    &&& version_views(installed@).contains(v)
                    &&& existing != EntryKind::Other
                    &&& installation_path_of(config.base_dir@, v) == Some(p.target@)
                    &&& p.link@ == join(aliases_dir_of(config.base_dir@), "default"@)
                    &&& p.remove_existing == (existing == EntryKind::Symlink)
                },
                Err(MamimiError::VersionNotFound { version }) => version@ == self.version@ && match self.version@ {
                    SpecifierView::Full(v) => v is System || !version_views(installed@).contains(v),
                    _ => true,
                },
                Err(MamimiError::CorruptAlias { name }) => existing == EntryKind::Other && name@ == "default"@,
                Err(_) => false,
            },
    {
        let version = match &self.version {
            InputVersion::Full(PythonVersion::Semver(v)) => PythonVersion::Semver(v.duplicate()),
            _ => {
                return Err(MamimiError::VersionNotFound { version: self.version.clone_spec() });
            },
        };
        if !is_installed(installed, &version) {
            return Err(MamimiError::VersionNotFound { version: self.version.clone_spec() });
        }
        match create_alias(config, "default", &version, true, existing) {
            Ok(p) => Ok(p),
            Err(MamimiError::CorruptAlias { name }) => Err(MamimiError::CorruptAlias { name }),
            Err(e) => {
                assert(false);
                Err(e)
            },
        }
    }
}

/// One removal of an uninstall.
pub enum UninstallStep {
    /// Remove the alias link at `path`.
    RemoveAlias { path: String },
    /// Remove the installation directory at `path`.
    RemoveInstallation { path: String },
}

/// A removal as (whether it is an alias, path).
pub open spec fn step_view(s: UninstallStep) -> (bool, Seq<char>) {
    match s {
        UninstallStep::RemoveAlias { path } => (true, path@),
        UninstallStep::RemoveInstallation { path } => (false, path@),
    }
}

pub open spec fn step_views(s: Seq<UninstallStep>) -> Seq<(bool, Seq<char>)> {
    s.map_values(|x: UninstallStep| step_view(x))
}

/// The alias removals for `v`: one for each alias, in order, that points at
/// it.
pub open spec fn alias_removals(aliases: Seq<(String, Option<PythonVersion>)>, v: VersionView) -> Seq<
    (bool, Seq<char>),
>
    decreases aliases.len(),
{
    if aliases.len() == 0 {
        Seq::empty()
    } else {
        let rest = alias_removals(aliases.drop_last(), v);
        let last = aliases.last();
        if last.1 matches Some(w) && w@ == v {
            rest.push((true, last.0@))
        } else {
            rest
        }
    }
}

/// The `uninstall` command: remove an installed version.
pub struct Uninstall {
    pub version: InputVersion,
}

impl Uninstall {
    /// The removals that uninstall the version: every alias that points at
    /// it (each given as its link path and the version it leads to), then its
    /// installation directory. A partial specifier takes the greatest
    /// installed version it matches.
    pub fn plan(
        &self,
        config: &MamimiConfig,
        installed: &Vec<PythonVersion>,
        aliases: &Vec<(String, Option<PythonVersion>)>,
    ) -> (r: Result<Vec<UninstallStep>, MamimiError>)
        ensures
            match r {
                Ok(steps) => exists|v: VersionView|
                    {
                        &&& resolved_by(self.version@, version_views(installed@), #[trigger] result_view_ok(v))
                        &&& version_views(installed@).contains(v)
                        &&& v is Release
                        &&& step_views(steps@) == alias_removals(aliases@, v).push(
                            (false, installation_path_of(config.base_dir@, v)->0),
                        )
                    },
                Err(MamimiError::NotInstallableVersion { version }) => self.version@
                    == SpecifierView::Full(VersionView::System) && version@ is System,
                Err(MamimiError::VersionNotFound { version }) => version@ == self.version@ && (
                self.version@ matches SpecifierView::Full(v) ==> !version_views(installed@).contains(
                    v,
                )) && (!(self.version@ is Full) ==> resolved_by(
                    self.version@,
                    version_views(installed@),
                    Err(MamimiError::VersionNotFound { version }),
                )),
                Err(_) => false,
            },
    {
        let version = match &self.version {
            InputVersion::Full(PythonVersion::System) => {
                return Err(MamimiError::NotInstallableVersion { version: PythonVersion::System });
            },
            InputVersion::Full(v) => v.duplicate(),
            _ => match resolve_specifier(&self.version, installed) {
                Ok(v) => v,
                Err(MamimiError::VersionNotFound { version }) => {
                    return Err(MamimiError::VersionNotFound { version });
                },
                Err(e) => {
                    assert(false);
                    return Err(e);
                },
            },
        };
        proof {
            if !(self.version@ is Full) {
                assert(is_greatest_match(self.version@, version_views(installed@), version@));
            }
        }
        if !is_installed(installed, &version) {
            return Err(MamimiError::VersionNotFound { version: self.version.clone_spec() });
        }
        let mut steps: Vec<UninstallStep> = Vec::new();
        let mut i: usize = 0;
        while i < aliases.len()
            invariant
                i <= aliases@.len(),
                step_views(steps@) == alias_removals(aliases@.subrange(0, i as int), version@),
            decreases aliases@.len() - i,
        {
            let ghost before = steps@;
            assert(aliases@.subrange(0, i + 1).drop_last() =~= aliases@.subrange(0, i as int));
            let (path, target) = &aliases[i];
            match target {
                Some(w) => {
                    if w.same(&version) {
                        steps.push(UninstallStep::RemoveAlias { path: path.clone() });
                        assert(step_views(steps@) =~= step_views(before).push((true, path@)));
                    }
                },
                None => {},
            }
            i = i + 1;
        }
        assert(aliases@.subrange(0, aliases@.len() as int) =~= aliases@);
        let path = version.installation_path(config).unwrap();
        let ghost before = steps@;
        steps.push(UninstallStep::RemoveInstallation { path });
        assert(step_views(steps@) =~= step_views(before).push(
            (false, installation_path_of(config.base_dir@, version@)->0),
        ));
        assert(resolved_by(self.version@, version_views(installed@), result_view_ok(version@)));
        Ok(steps)
    }
}

} // verus!
