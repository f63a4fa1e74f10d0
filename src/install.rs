//! The install pipeline: resolve the target, refuse a version already
//! installed, download, unpack, configure, build, install, and make the first
//! installed version the default. The stages run one after another; each
//! failure ends the run, and the installation directory is only created by
//! the build tool's own install step.

use vstd::prelude::*;
use crate::config::{installation_path_of, versions_dir_of, MamimiConfig};
use crate::error::MamimiError;
use crate::input_version::{version_views, InputVersion, SpecifierView};
use crate::resolve::{nearest_level, read_version_file, resolved_by, nearest_version_file};
use crate::text::{join, push_char, strip_prefix, trim, string_views};
use crate::version::{version_text, PythonVersion, VersionView};

verus! {

/// Relies on `num_cpus::get`, which returns the number of logical cores
/// available and at least 1.
#[verifier::external_body]
fn core_count() -> (r: usize)
    ensures
        r >= 1,
{
    num_cpus::get()
}

/// The archive format a platform downloads.
#[derive(Clone, Copy, Debug, PartialEq, Eq, Structural)]
pub enum Platform {
    /// A `.tar.xz` source archive.
    Posix,
    /// A `.zip` archive.
    Windows,
}

/// The mirror's address without a final `/`.
pub open spec fn mirror_base(m: Seq<char>) -> Seq<char> {
    if m.len() > 0 && m.last() == '/' {
        m.drop_last()
    } else {
        m
    }
}

/// `<mirror>/<version>/<archive>`, the archive being `Python-<version>.tar.xz`
/// or `Python-<version>-embed-amd64.zip`.
pub open spec fn package_url_of(mirror: Seq<char>, v: Seq<char>, p: Platform) -> Seq<char> {
    mirror_base(mirror) + seq!['/'] + v + seq!['/'] + "Python-"@ + v + match p {
        Platform::Posix => ".tar.xz"@,
        Platform::Windows => "-embed-amd64.zip"@,
    }
}

/// The download address of a version's archive on the mirror.
pub fn package_url(mirror: &str, version: &PythonVersion, platform: Platform) -> (r: String)
    ensures
        r@ == package_url_of(mirror@, version_text(version@), platform),
{
    let m = crate::text::chars_of(mirror);
    let end = if m.len() > 0 && m[m.len() - 1] == '/' {
        m.len() - 1
    } else {
        m.len()
    };
    let mut r = crate::text::string_of(&m, 0, end);
    assert(m@.subrange(0, end as int) =~= mirror_base(mirror@));
    let v = version.to_string();
    push_char(&mut r, '/');
    r.append(v.as_str());
    push_char(&mut r, '/');
    r.append("Python-");
    r.append(v.as_str());
    match platform {
        Platform::Posix => r.append(".tar.xz"),
        Platform::Windows => r.append("-embed-amd64.zip"),
    }
    r
}

/// Whether `s` begins with `p`.
pub open spec fn starts_with(s: Seq<char>, p: Seq<char>) -> bool {
    p.len() <= s.len() && s.subrange(0, p.len() as int) == p
}

/// The arguments of the configure step: the installation prefix, the
/// caller's options, and a default for the TLS library's location unless the
/// caller gave one.
pub open spec fn configure_args_of(prefix: Seq<char>, opts: Seq<Seq<char>>, tls_dir: Seq<char>) -> Seq<
    Seq<char>,
> {
    seq!["--prefix="@ + prefix] + opts + if exists|i: int|
        0 <= i < opts.len() && starts_with(#[trigger] opts[i], "--with-openssl-dir"@) {
        Seq::<Seq<char>>::empty()
    } else {
        seq!["--with-openssl-dir="@ + tls_dir]
    }
}

/// The arguments of the configure step.
pub fn configure_args(prefix: &str, configure_opts: &Vec<String>, tls_dir: &str) -> (r: Vec<String>)
    ensures
        string_views(r@) == configure_args_of(prefix@, string_views(configure_opts@), tls_dir@),
{
    let ghost ov = string_views(configure_opts@);
    let mut r: Vec<String> = Vec::new();
    let mut first = String::from_str("--prefix=");
    first.append(prefix);
    r.push(first);
    let mut given = false;
    let mut i: usize = 0;
    while i < configure_opts.len()
        invariant
            ov == string_views(configure_opts@),
            i <= configure_opts@.len(),
            string_views(r@) == seq!["--prefix="@ + prefix@] + ov.subrange(0, i as int),
            given == exists|k: int| 0 <= k < i && starts_with(#[trigger] ov[k], "--with-openssl-dir"@),
        decreases configure_opts@.len() - i,
    {
        let opt = &configure_opts[i];
        assert(ov[i as int] == opt@);
        match strip_prefix(opt.as_str(), "--with-openssl-dir") {
            Some(_) => {
                assert(opt@.subrange(0, "--with-openssl-dir"@.len() as int) =~= "--with-openssl-dir"@);
                given = true;
            },
            None => {},
        }
        let ghost before = r@;
        let c = opt.clone();
        r.push(c);
        assert(string_views(r@) =~= string_views(before).push(opt@));
        assert(ov.subrange(0, i + 1) =~= ov.subrange(0, i as int).push(opt@));
        i = i + 1;
        assert(string_views(r@) =~= seq!["--prefix="@ + prefix@] + ov.subrange(0, i as int));
    }
    assert(ov.subrange(0, ov.len() as int) =~= ov);
    if !given {
        let mut tls = String::from_str("--with-openssl-dir=");
        tls.append(tls_dir);
        r.push(tls);
    }
    assert(string_views(r@) =~= configure_args_of(prefix@, ov, tls_dir@));
    r
}

/// The request to install: the version given, else the one the nearest
/// version file names.
pub open spec fn install_request(
    explicit: Option<SpecifierView>,
    files: Seq<Option<String>>,
    r: Result<InputVersion, MamimiError>,
) -> bool {
    match explicit {
        Some(s) => r matches Ok(x) && x@ == s,
        None => match nearest_level(files) {
            Some(i) => match crate::input_version::parse_specifier(trim(files[i]->0@)) {
                Some(s) => r matches Ok(x) && x@ == s,
                None => r matches Err(e) && e is MalformedVersion,
            },
            None => r matches Err(e) && e is CannotInferVersion,
        },
    }
}

/// The target of an install: an exact release is its own target, the system
/// interpreter is refused, and a partial specifier takes the greatest version
/// of the mirror's index that it matches.
pub open spec fn install_target_of(
    s: SpecifierView,
    index: Seq<VersionView>,
    r: Result<PythonVersion, MamimiError>,
) -> bool {
    match s {
        SpecifierView::Full(VersionView::System) => r matches Err(
            MamimiError::NotInstallableVersion { version },
        ) && version@ is System,
        _ => resolved_by(s, index, crate::resolve::result_view(r)),
    }
}

/// The stages of an install run.
#[derive(Clone, Copy, Debug, PartialEq, Eq, Structural)]
pub enum InstallStage {
    Download,
    Extract,
    Configure,
    Build,
    InstallFiles,
    DefaultAlias,
    Finished,
}

/// What the surface reports after performing the last action.
pub enum InstallEvent {
    /// The mirror answered the download with this status.
    Responded { status: u16 },
    /// The download could not be made.
    TransportFailed,
    /// The archive was unpacked into this many top-level entries.
    Extracted { entries: usize },
    /// The archive could not be unpacked.
    ExtractFailed { message: String },
    /// A build tool step ended.
    ToolExited { success: bool, stderr: String },
    /// Whether the `default` alias leads to an installed version.
    DefaultAliasChecked { resolves: bool },
}

/// What the surface does next.
pub enum InstallAction {
    /// Fetch the archive.
    Download { url: String },
    /// Unpack it into a fresh directory under `into`.
    Extract { into: String },
    /// Run the configure step in the unpacked directory.
    Configure { args: Vec<String> },
    /// Run the parallel build with this many jobs.
    Build { jobs: usize },
    /// Run the build tool's install step, which creates the installation
    /// directory.
    InstallFiles,
    /// Check whether the `default` alias leads to an installed version.
    CheckDefaultAlias,
    /// End the run: remove the staging directory, remove the installation
    /// directory where `remove_installation`, point `default` at the version
    /// where `create_default_alias`, and report `result`.
    Finish { result: Result<(), MamimiError>, remove_installation: bool, create_default_alias: bool },
}

/// Whether `e` is a report on what `stage` asked for.
pub open spec fn event_fits(stage: InstallStage, e: InstallEvent) -> bool {
    match stage {
        InstallStage::Download => e is Responded || e is TransportFailed,
        InstallStage::Extract => e is Extracted || e is ExtractFailed,
        InstallStage::Configure | InstallStage::Build | InstallStage::InstallFiles => e is ToolExited,
        InstallStage::DefaultAlias => e is DefaultAliasChecked,
        InstallStage::Finished => false,
    }
}

/// One install run of a release.
pub struct InstallRun {
    pub version: PythonVersion,
    pub installation_dir: String,
    pub downloads_dir: String,
    pub configure_args: Vec<String>,
    pub stage: InstallStage,
    /// The build tool's install step has been asked for, so the installation
    /// directory may exist.
    pub installation_created: bool,
}

impl InstallRun {
    /// The run's invariant: the installation directory is asked for only at
    /// the install step, and the version is a release.
    pub open spec fn wf(&self) -> bool {
        &&& self.version@ is Release
        &&& (self.stage == InstallStage::InstallFiles || self.stage == InstallStage::DefaultAlias)
            ==> self.installation_created
        &&& (self.stage == InstallStage::Download || self.stage == InstallStage::Extract
            || self.stage == InstallStage::Configure || self.stage == InstallStage::Build)
            ==> !self.installation_created
    }

    /// Starts a run for `version` whose installation directory exists or not.
    /// A version already installed is refused before anything is fetched.
    pub fn start(
        config: &MamimiConfig,
        version: &PythonVersion,
        already_installed: bool,
        configure_opts: &Vec<String>,
        tls_dir: &str,
        platform: Platform,
    ) -> (r: Result<(InstallRun, InstallAction), MamimiError>)
        ensures
            match r {
                Ok((run, action)) => {
                    &&& !already_installed
                    &&& version@ is Release
                    &&& run.wf()
                    &&& run.version@ == version@
                    &&& run.stage == InstallStage::Download
                    &&& !run.installation_created
                    &&& installation_path_of(config.base_dir@, version@) == Some(run.installation_dir@)
                    &&& run.downloads_dir@ == join(versions_dir_of(config.base_dir@), ".downloads"@)
                    &&& string_views(run.configure_args@) == configure_args_of(
                        run.installation_dir@,
                        string_views(configure_opts@),
                        tls_dir@,
                    )
                    &&& action matches InstallAction::Download { url } && url@ == package_url_of(
                        config.python_ftp_mirror@,
                        version_text(version@),
                        platform,
                    )
                },
                Err(MamimiError::NotInstallableVersion { version: v }) => version@ is System && v@
                    == version@,
                Err(MamimiError::VersionAlreadyInstalled { path }) => version@ is Release
                    && already_installed && installation_path_of(config.base_dir@, version@) == Some(
                    path@,
                ),
                Err(_) => false,
            },
    {
        let installation_dir = match version.installation_path(config) {
            Some(p) => p,
            None => {
                return Err(MamimiError::NotInstallableVersion { version: version.duplicate() });
            },
        };
        if already_installed {
            return Err(MamimiError::VersionAlreadyInstalled { path: installation_dir });
        }
        let args = configure_args(installation_dir.as_str(), configure_opts, tls_dir);
        let url = package_url(config.python_ftp_mirror.as_str(), version, platform);
        let run = InstallRun {
            version: version.duplicate(),
            installation_dir,
            downloads_dir: config.downloads_dir(),
            configure_args: args,
            stage: InstallStage::Download,
            installation_created: false,
        };
        Ok((run, InstallAction::Download { url }))
    }

    /// Takes the report on the last action and gives the next one.
    pub fn step(&mut self, event: InstallEvent) -> (action: InstallAction)
        requires
            old(self).wf(),
            event_fits(old(self).stage, event),
        ensures
            final(self).wf(),
            final(self).version@ == old(self).version@,
            final(self).installation_dir@ == old(self).installation_dir@,
            final(self).installation_created == (old(self).installation_created || action is InstallFiles),
            action is InstallFiles ==> old(self).stage == InstallStage::Build,
            action matches InstallAction::Finish { result, remove_installation, create_default_alias } ==> {
                &&& final(self).stage == InstallStage::Finished
                &&& (result is Err ==> remove_installation == old(self).installation_created
                    && !create_default_alias)
                &&& (result is Ok ==> old(self).stage == InstallStage::DefaultAlias
                    && !remove_installation && final(self).installation_created)
            },
            match (old(self).stage, event) {
                (InstallStage::Download, InstallEvent::Responded { status }) => if 200 <= status
                    < 300 {
                    action matches InstallAction::Extract { into } && into@ == old(self).downloads_dir@
                } else if status == 404 {
                    action matches InstallAction::Finish {
                        result: Err(MamimiError::VersionNotFound { version }),
                        ..
                    } && version@ == SpecifierView::Full(old(self).version@)
                } else {
                    action matches InstallAction::Finish {
                        result: Err(MamimiError::NetworkError { status: s }),
                        ..
                    } && s == status
                },
                (InstallStage::Download, InstallEvent::TransportFailed) => action matches InstallAction::Finish {
                    result: Err(MamimiError::NetworkError { status: 0 }),
                    ..
                },
                (InstallStage::Extract, InstallEvent::Extracted { entries }) => if entries == 0 {
                    action matches InstallAction::Finish { result: Err(MamimiError::TarIsEmpty), .. }
                } else {
                    action matches InstallAction::Configure { args } && string_views(args@)
                        == string_views(old(self).configure_args@)
                },
                (InstallStage::Extract, InstallEvent::ExtractFailed { message }) => action matches InstallAction::Finish {
                    result: Err(MamimiError::ExtractError { message: m }),
                    ..
                } && m@ == message@,
                (InstallStage::Configure, InstallEvent::ToolExited { success, stderr }) => if success {
                    action matches InstallAction::Build { jobs } && jobs >= 1
                } else {
                    action matches InstallAction::Finish {
                        result: Err(MamimiError::CannotBuildPython { stderr: e }),
                        ..
                    } && e@ == "configure failed: "@ + stderr@
                },
                (InstallStage::Build, InstallEvent::ToolExited { success, stderr }) => if success {
                    action is InstallFiles
                } else {
                    action matches InstallAction::Finish {
                        result: Err(MamimiError::CannotBuildPython { stderr: e }),
                        ..
                    } && e@ == "make failed: "@ + stderr@
                },
                (InstallStage::InstallFiles, InstallEvent::ToolExited { success, stderr }) => if success {
                    action is CheckDefaultAlias
                } else {
                    action matches InstallAction::Finish {
                        result: Err(MamimiError::CannotBuildPython { stderr: e }),
                        ..
                    } && e@ == "make install failed: "@ + stderr@
                },
                (InstallStage::DefaultAlias, InstallEvent::DefaultAliasChecked { resolves }) => action matches InstallAction::Finish {
                    result: Ok(()),
                    create_default_alias,
                    ..
                } && create_default_alias == !resolves,
                _ => false,
            },
    {
        let created = self.installation_created;
        match (self.stage, event) {
            (InstallStage::Download, InstallEvent::Responded { status }) => {
                if 200 <= status && status < 300 {
                    self.stage = InstallStage::Extract;
                    InstallAction::Extract { into: self.downloads_dir.clone() }
                } else if status == 404 {
                    self.stage = InstallStage::Finished;
                    InstallAction::Finish {
                        result: Err(
                            MamimiError::VersionNotFound {
                                version: InputVersion::Full(self.version.duplicate()),
                            },
                        ),
                        remove_installation: created,
                        create_default_alias: false,
                    }
                } else {
                    self.stage = InstallStage::Finished;
                    InstallAction::Finish {
                        result: Err(MamimiError::NetworkError { status }),
                        remove_installation: created,
                        create_default_alias: false,
                    }
                }
            },
            (InstallStage::Download, InstallEvent::TransportFailed) => {
                self.stage = InstallStage::Finished;
                InstallAction::Finish {
                    result: Err(MamimiError::NetworkError { status: 0 }),
                    remove_installation: created,
                    create_default_alias: false,
                }
            },
            (InstallStage::Extract, InstallEvent::Extracted { entries }) => {
                if entries == 0 {
                    self.stage = InstallStage::Finished;
                    InstallAction::Finish {
                        result: Err(MamimiError::TarIsEmpty),
                        remove_installation: created,
                        create_default_alias: false,
                    }
                } else {
                    self.stage = InstallStage::Configure;
                    InstallAction::Configure { args: copy_strings(&self.configure_args) }
                }
            },
            (InstallStage::Extract, InstallEvent::ExtractFailed { message }) => {
                self.stage = InstallStage::Finished;
                InstallAction::Finish {
                    result: Err(MamimiError::ExtractError { message }),
                    remove_installation: created,
                    create_default_alias: false,
                }
            },
            (InstallStage::Configure, InstallEvent::ToolExited { success, stderr }) => {
                if success {
                    self.stage = InstallStage::Build;
                    InstallAction::Build { jobs: core_count() }
                } else {
                    self.stage = InstallStage::Finished;
                    let mut e = String::from_str("configure failed: ");
                    e.append(stderr.as_str());
                    InstallAction::Finish {
                        result: Err(MamimiError::CannotBuildPython { stderr: e }),
                        remove_installation: created,
                        create_default_alias: false,
                    }
                }
            },
            (InstallStage::Build, InstallEvent::ToolExited { success, stderr }) => {
                if success {
                    self.stage = InstallStage::InstallFiles;
                    self.installation_created = true;
                    InstallAction::InstallFiles
                } else {
                    self.stage = InstallStage::Finished;
                    let mut e = String::from_str("make failed: ");
                    e.append(stderr.as_str());
                    InstallAction::Finish {
                        result: Err(MamimiError::CannotBuildPython { stderr: e }),
                        remove_installation: created,
                        create_default_alias: false,
                    }
                }
            },
            (InstallStage::InstallFiles, InstallEvent::ToolExited { success, stderr }) => {
                if success {
                    self.stage = InstallStage::DefaultAlias;
                    InstallAction::CheckDefaultAlias
                } else {
                    self.stage = InstallStage::Finished;
                    let mut e = String::from_str("make install failed: ");
                    e.append(stderr.as_str());
                    InstallAction::Finish {
                        result: Err(MamimiError::CannotBuildPython { stderr: e }),
                        remove_installation: created,
                        create_default_alias: false,
                    }
                }
            },
            (InstallStage::DefaultAlias, InstallEvent::DefaultAliasChecked { resolves }) => {
                self.stage = InstallStage::Finished;
                InstallAction::Finish {
                    result: Ok(()),
                    remove_installation: false,
                    create_default_alias: !resolves,
                }
            },
            _ => {
                assert(false);
                InstallAction::CheckDefaultAlias
            },
        }
    }
}

/// A copy of a list of strings.
fn copy_strings(v: &Vec<String>) -> (r: Vec<String>)
    ensures
        string_views(r@) == string_views(v@),
{
    let mut r: Vec<String> = Vec::new();
    let mut i: usize = 0;
    while i < v.len()
        invariant
            i <= v@.len(),
            string_views(r@) == string_views(v@).subrange(0, i as int),
        decreases v@.len() - i,
    {
        let ghost before = r@;
        let c = v[i].clone();
        r.push(c);
        assert(string_views(r@) =~= string_views(before).push(v@[i as int]@));
        assert(string_views(v@).subrange(0, i + 1) =~= string_views(v@).subrange(0, i as int).push(v@[i as int]@));
        i = i + 1;
        assert(string_views(r@) =~= string_views(v@).subrange(0, i as int));
    }
    assert(string_views(v@).subrange(0, v@.len() as int) =~= string_views(v@));
    r
}

} // verus!

verus! {

/// The `install` command: a version to install (else the one the version
/// files name) and extra options for the configure step.
pub struct Install {
    pub version: Option<InputVersion>,
    pub configure_opts: Vec<String>,
}

impl Install {
    /// The specifier to install: the one given, else the nearest version
    /// file's.
    pub fn requested_version(&self, version_files: &Vec<Option<String>>) -> (r: Result<
        InputVersion,
        MamimiError,
    >)
        ensures
            install_request(
                match self.version {
                    Some(s) => Some(s@),
                    None => None,
                },
                version_files@,
                r,
            ),
    {
        match &self.version {
            Some(s) => Ok(s.clone_spec()),
            None => match nearest_version_file(version_files) {
                Some(i) => {
                    proof {
                        crate::resolve::lemma_nearest_unique(version_files@, i as int);
                    }
                    let content = version_files[i].as_ref().unwrap();
                    read_version_file(content.as_str())
                },
                None => {
                    proof {
                        crate::resolve::lemma_nearest_none(version_files@);
                    }
                    Err(MamimiError::CannotInferVersion)
                },
            },
        }
    }
}

/// Whether resolving `requested` needs the mirror's index: only a partial
/// specifier does.
pub fn needs_index(requested: &InputVersion) -> (r: bool)
    ensures
        r == !(requested@ is Full),
{
    match requested {
        InputVersion::Full(_) => false,
        _ => true,
    }
}

/// The version an install targets, `index` being the versions the mirror
/// lists (only consulted for a partial specifier).
pub fn install_target(requested: &InputVersion, index: &Vec<PythonVersion>) -> (r: Result<
    PythonVersion,
    MamimiError,
>)
    ensures
        install_target_of(requested@, version_views(index@), r),
{
    match requested {
        InputVersion::Full(PythonVersion::System) => Err(
            MamimiError::NotInstallableVersion { version: PythonVersion::System },
        ),
        _ => crate::resolve::resolve_specifier(requested, index),
    }
}

} // verus!
