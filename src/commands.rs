//! The commands of the command-line surface, as plain values, and the parts
//! of their work that decide what is printed.

use vstd::prelude::*;
use crate::activation::{Global, Local, Uninstall};
use crate::config::{strategy_name, MamimiConfig};
use crate::error::MamimiError;
use crate::install::Install;
use crate::shell::{env_text, path_text, use_on_cd_text, Shell};
use crate::log_level::level_name;
use crate::text::{last_component, last_component_of};
use crate::version::{parse_version, version_text, PythonVersion, VersionView};

verus! {

/// Whether a directory entry's name marks it hidden.
pub fn is_dotfile(name: &str) -> (r: bool)
    ensures
        r == (name@.len() > 0 && name@[0] == '.'),
{
    name.unicode_len() > 0 && name.get_char(0) == '.'
}

/// The versions that the entries of the versions directory name, in order;
/// hidden entries (the staging area) are skipped, and any other entry that
/// is not a version makes the listing fail.
pub open spec fn installed_listing(names: Seq<Seq<char>>) -> Option<Seq<VersionView>>
    decreases names.len(),
{
    if names.len() == 0 {
        Some(Seq::empty())
    } else {
        match installed_listing(names.drop_last()) {
            None => None,
            Some(rest) => {
                let last = names.last();
                if last.len() > 0 && last[0] == '.' {
                    Some(rest)
                } else {
                    match parse_version(last) {
                        Some(v) => Some(rest.push(v)),
                        None => None,
                    }
                }
            },
        }
    }
}

pub open spec fn marked_views(s: Seq<(bool, PythonVersion)>) -> Seq<(bool, VersionView)> {
    s.map_values(|x: (bool, PythonVersion)| (x.0, x.1@))
}

/// The `versions` command: list the installed versions, marking the current
/// one.
pub struct Versions {}

impl Versions {
    /// The installed versions named by `names` (the entries of the versions
    /// directory), each with whether it is `current`.
    pub fn listing(&self, names: &Vec<String>, current: Option<&PythonVersion>) -> (r: Result<
        Vec<(bool, PythonVersion)>,
        MamimiError,
    >)
        ensures
            match r {
                Ok(v) => installed_listing(names@.map_values(|s: String| s@)) matches Some(l) && l.len()
                    == v@.len() && forall|i: int|
                    0 <= i < v@.len() ==> (#[trigger] v@[i]).1@ == l[i] && v@[i].0 == (current matches Some(
                        c,
                    ) && c@ == l[i]),
                Err(e) => e is MalformedVersion && installed_listing(names@.map_values(|s: String| s@)) is None,
            },
    {
        let ghost nv = names@.map_values(|s: String| s@);
        let mut out: Vec<(bool, PythonVersion)> = Vec::new();
        let mut i: usize = 0;
        while i < names.len()
            invariant
                nv == names@.map_values(|s: String| s@),
                i <= names@.len(),
                installed_listing(nv.subrange(0, i as int)) matches Some(l) && l.len() == out@.len()
                    && forall|k: int|
                    0 <= k < out@.len() ==> (#[trigger] out@[k]).1@ == l[k] && out@[k].0 == (current matches Some(
                        c,
                    ) && c@ == l[k]),
            decreases names@.len() - i,
        {
            let ghost prev = out@;
            let ghost l = installed_listing(nv.subrange(0, i as int))->0;
            assert(nv.subrange(0, i + 1).drop_last() =~= nv.subrange(0, i as int));
            assert(nv[i as int] == names@[i as int]@);
            let name = names[i].as_str();
            if !is_dotfile(name) {
                match PythonVersion::parse(name) {
                    Ok(v) => {
                        let mark = match current {
                            Some(c) => c.same(&v),
                            None => false,
                        };
                        out.push((mark, v));
                        proof {
                            let l2 = l.push(out@[out@.len() - 1].1@);
                            assert(installed_listing(nv.subrange(0, i + 1)) == Some(l2));
                            assert forall|k: int| 0 <= k < out@.len() implies (#[trigger] out@[k]).1@ == l2[k] && out@[k].0 == (current matches Some(
                                c,
                            ) && c@ == l2[k]) by {
                                if k < prev.len() {
                                    assert(out@[k] == prev[k]);
                                }
                            }
                        }
                    },
                    Err(_) => {
                        proof {
                            lemma_listing_fails_after(nv, i as int);
                        }
                        return Err(MamimiError::MalformedVersion);
                    },
                }
            }
            i = i + 1;
        }
        assert(nv.subrange(0, names@.len() as int) =~= nv);
        Ok(out)
    }
}

proof fn lemma_listing_fails_after(names: Seq<Seq<char>>, i: int)
    requires
        0 <= i < names.len(),
        installed_listing(names.subrange(0, i + 1)) is None,
    ensures
        installed_listing(names) is None,
    decreases names.len() - i,
{
    if i + 1 < names.len() {
        assert(names.subrange(0, i + 2).drop_last() =~= names.subrange(0, i + 1));
        lemma_listing_fails_after(names, i + 1);
    } else {
        assert(names.subrange(0, i + 1) =~= names);
    }
}

/// The `install-list` command: print the versions the mirror offers.
pub struct InstallList {}

impl InstallList {
    /// One line per version, in the order given.
    pub fn lines(&self, versions: &Vec<PythonVersion>) -> (r: Vec<String>)
        ensures
            r@.len() == versions@.len(),
            forall|i: int| 0 <= i < r@.len() ==> (#[trigger] r@[i])@ == version_text(versions@[i]@),
    {
        let mut r: Vec<String> = Vec::new();
        let mut i: usize = 0;
        while i < versions.len()
            invariant
                i <= versions@.len(),
                r@.len() == i,
                forall|k: int| 0 <= k < i ==> (#[trigger] r@[k])@ == version_text(versions@[k]@),
            decreases versions@.len() - i,
        {
            r.push(versions[i].to_string());
            i = i + 1;
        }
        r
    }
}

/// The version the session's link leads to, from the link's resolved target
/// (`None` where it leads nowhere): the name of the directory it reaches.
pub fn current_python_version(config: &MamimiConfig, resolved_target: Option<&str>) -> (r: Result<
    Option<PythonVersion>,
    MamimiError,
>)
    ensures
        config.multishell_path is None ==> (r matches Err(e) && e is MamimiPathNotFound),
        config.multishell_path is Some ==> match resolved_target {
            None => r matches Ok(None),
            Some(t) => match parse_version(last_component(t@)) {
                Some(v) => r matches Ok(Some(x)) && x@ == v,
                None => r matches Err(e) && e is MalformedVersion,
            },
        },
{
    if config.multishell_path.is_none() {
        return Err(MamimiError::MamimiPathNotFound);
    }
    match resolved_target {
        None => Ok(None),
        Some(t) => {
            let name = last_component_of(t);
            match PythonVersion::parse(name.as_str()) {
                Ok(v) => Ok(Some(v)),
                Err(_) => Err(MamimiError::MalformedVersion),
            }
        },
    }
}

/// The `init` command: print the statements that set up a shell.
pub struct Init {
    pub shell: Option<Shell>,
    pub multi: bool,
    pub use_on_cd: bool,
}

impl Init {
    /// The shell to write for: the one given, else the one the surface
    /// inferred from the parent process.
    pub fn chosen_shell(&self, inferred: Option<Shell>) -> (r: Result<Shell, MamimiError>)
        ensures
            match self.shell {
                Some(s) => r == Ok::<Shell, MamimiError>(s),
                None => match inferred {
                    Some(s) => r == Ok::<Shell, MamimiError>(s),
                    None => r matches Err(e) && e is CantInferShell,
                },
            },
    {
        match self.shell {
            Some(s) => Ok(s),
            None => match inferred {
                Some(s) => Ok(s),
                None => Err(MamimiError::CantInferShell),
            },
        }
    }

    /// The statements, in order: the `PATH` prefix for `binary_path`, the
    /// mirror, the base directory, the session's link `link_path`, the log
    /// level and the version-file strategy, then the directory-change hook
    /// where asked for and the rehash command where the shell has one.
    pub fn script(
        &self,
        config: &MamimiConfig,
        shell: Shell,
        binary_path: &str,
        joined_path: &str,
        link_path: &str,
    ) -> (r: Vec<String>)
        ensures
            r@.len() == 6 + (if self.use_on_cd { 1int } else { 0 }) + (if shell.rehash_spec() { 1int } else { 0 }),
            r@[0]@ == path_text(shell, binary_path@, joined_path@),
            r@[1]@ == env_text(shell, "MAMIMI_PYTHON_FTP_MIRROR"@, config.python_ftp_mirror@),
            r@[2]@ == env_text(shell, "MAMIMI_DIR"@, config.base_dir@),
            r@[3]@ == env_text(shell, "MAMIMI_MULTISHELL_PATH"@, link_path@),
            r@[4]@ == env_text(shell, "MAMIMI_LOGLEVEL"@, level_name(config.log_level)),
            r@[5]@ == env_text(shell, "MAMIMI_VERSION_FILE_STRATEGY"@, strategy_name(config.version_file_strategy)),
            self.use_on_cd ==> r@[6]@ == use_on_cd_text(shell, config.base_dir@),
            shell.rehash_spec() ==> r@[r@.len() - 1]@ == "rehash"@,
    {
        let mut r: Vec<String> = Vec::new();
        r.push(shell.path(binary_path, joined_path));
        r.push(shell.set_env_var("MAMIMI_PYTHON_FTP_MIRROR", config.python_ftp_mirror.as_str()));
        r.push(shell.set_env_var("MAMIMI_DIR", config.base_dir.as_str()));
        r.push(shell.set_env_var("MAMIMI_MULTISHELL_PATH", link_path));
        r.push(shell.set_env_var("MAMIMI_LOGLEVEL", config.log_level.as_str()));
        r.push(shell.set_env_var("MAMIMI_VERSION_FILE_STRATEGY", config.version_file_strategy.as_str()));
        if self.use_on_cd {
            r.push(shell.use_on_cd(config));
        }
        match shell.rehash() {
            Some(h) => r.push(h),
            None => {},
        }
        r
    }
}

/// The `completions` command: print completions for a shell.
pub struct Completions {
    pub shell: Option<Shell>,
}

/// The commands of the surface.
pub enum SubCommand {
    Init(Init),
    Install(Install),
    InstallList(InstallList),
    Uninstall(Uninstall),
    Versions(Versions),
    Local(Local),
    Global(Global),
    Completions(Completions),
}

} // verus!
