//! The resolved configuration and the on-disk layout under the base
//! directory.

use vstd::prelude::*;
use crate::arch::Arch;
use crate::log_level::LogLevel;
use crate::text::{join, join_path};
use crate::version::{version_text, PythonVersion, VersionView};

verus! {

/// Whether version files are consulted.
#[derive(Clone, Copy, Debug, PartialEq, Eq, Structural)]
pub enum VersionFileStrategy {
    /// Look for a version file in the current directory and its ancestors.
    Local,
    /// Never read version files.
    Ignore,
}

/// The name of a strategy.
pub open spec fn strategy_name(s: VersionFileStrategy) -> Seq<char> {
    match s {
        VersionFileStrategy::Local => "local"@,
        VersionFileStrategy::Ignore => "ignore"@,
    }
}

impl VersionFileStrategy {
    pub fn as_str(&self) -> (r: &'static str)
        ensures
            r@ == strategy_name(*self),
    {
        match self {
            VersionFileStrategy::Local => "local",
            VersionFileStrategy::Ignore => "ignore",
        }
    }
}

/// The configuration, built once at start and passed to every operation.
#[derive(Clone, Debug)]
pub struct MamimiConfig {
    /// The mirror that lists and serves the sources.
    pub python_ftp_mirror: String,
    /// The root of installations and aliases.
    pub base_dir: String,
    /// The per-shell link to the active version, where a shell set one up.
    pub multishell_path: Option<String>,
    pub log_level: LogLevel,
    pub arch: Arch,
    pub version_file_strategy: VersionFileStrategy,
}

pub open spec fn versions_dir_of(base: Seq<char>) -> Seq<char> {
    join(base, "versions"@)
}

pub open spec fn aliases_dir_of(base: Seq<char>) -> Seq<char> {
    join(base, "aliases"@)
}

/// The installation directory of a release: `<base>/versions/<version>`.
pub open spec fn installation_path_of(base: Seq<char>, v: VersionView) -> Option<Seq<char>> {
    match v {
        VersionView::Release(_) => Some(join(versions_dir_of(base), version_text(v))),
        VersionView::System => None,
    }
}

impl MamimiConfig {
    /// The configuration used when nothing is set: the python.org mirror,
    /// no session link, level `info`, x64, and version files read.
    pub fn with_defaults(base_dir: String) -> (r: MamimiConfig)
        ensures
            r.python_ftp_mirror@ == "https://www.python.org/ftp/python/"@,
            r.base_dir@ == base_dir@,
            r.multishell_path is None,
            r.log_level == LogLevel::Info,
            r.arch == Arch::X64,
            r.version_file_strategy == VersionFileStrategy::Local,
    {
        MamimiConfig {
            python_ftp_mirror: String::from_str("https://www.python.org/ftp/python/"),
            base_dir,
            multishell_path: None,
            log_level: LogLevel::default_level(),
            arch: Arch::default_arch(),
            version_file_strategy: VersionFileStrategy::Local,
        }
    }

    pub fn version_file_strategy(&self) -> (r: VersionFileStrategy)
        ensures
            r == self.version_file_strategy,
    {
        self.version_file_strategy
    }

    pub fn multishell_path(&self) -> (r: Option<&str>)
        ensures
            match r {
                Some(p) => self.multishell_path matches Some(q) && p@ == q@,
                None => self.multishell_path is None,
            },
    {
        match &self.multishell_path {
            Some(p) => Some(p.as_str()),
            None => None,
        }
    }

    pub fn log_level(&self) -> (r: LogLevel)
        ensures
            r == self.log_level,
    {
        self.log_level
    }

    /// `<base>/versions`, where each installed version has its directory.
    pub fn installations_dir(&self) -> (r: String)
        ensures
            r@ == versions_dir_of(self.base_dir@),
    {
        join_path(&self.base_dir, "versions")
    }

    /// `<base>/aliases`, where the aliases are links.
    pub fn aliases_dir(&self) -> (r: String)
        ensures
            r@ == aliases_dir_of(self.base_dir@),
    {
        join_path(&self.base_dir, "aliases")
    }

    /// The path of the alias `name`.
    pub fn alias_path(&self, name: &str) -> (r: String)
        ensures
            r@ == join(aliases_dir_of(self.base_dir@), name@),
    {
        let dir = self.aliases_dir();
        join_path(&dir, name)
    }

    /// The path of the `default` alias.
    pub fn default_python_version_dir(&self) -> (r: String)
        ensures
            r@ == join(aliases_dir_of(self.base_dir@), "default"@),
    {
        self.alias_path("default")
    }

    /// `<base>/versions/.downloads`, where downloads are unpacked and built.
    pub fn downloads_dir(&self) -> (r: String)
        ensures
            r@ == join(versions_dir_of(self.base_dir@), ".downloads"@),
    {
        let dir = self.installations_dir();
        join_path(&dir, ".downloads")
    }

    /// The configuration with another base directory.
    pub fn with_base_dir(self, base_dir: String) -> (r: MamimiConfig)
        ensures
            r.base_dir@ == base_dir@,
            r.python_ftp_mirror@ == self.python_ftp_mirror@,
            r.multishell_path == self.multishell_path,
            r.log_level == self.log_level,
            r.arch == self.arch,
            r.version_file_strategy == self.version_file_strategy,
    {
        MamimiConfig { base_dir, ..self }
    }
}

impl PythonVersion {
    /// The installation directory of a release; the system interpreter has
    /// none.
    pub fn installation_path(&self, config: &MamimiConfig) -> (r: Option<String>)
        ensures
            match r {
                Some(p) => installation_path_of(config.base_dir@, self@) == Some(p@),
                None => installation_path_of(config.base_dir@, self@) is None,
            },
    {
        match self {
            PythonVersion::Semver(_) => {
                let dir = config.installations_dir();
                let name = self.to_string();
                Some(join_path(&dir, name.as_str()))
            },
            PythonVersion::System => None,
        }
    }
}

} // verus!
