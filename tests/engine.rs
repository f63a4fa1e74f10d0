use mamimi::activation::{ActivationPlan, Global, Local, Uninstall, UninstallStep};
use mamimi::alias::{create_alias, version_of_target, EntryKind, StroredAlias, SYSTEM_TARGET};
use mamimi::arch::Arch;
use mamimi::config::{MamimiConfig, VersionFileStrategy};
use mamimi::error::MamimiError;
use mamimi::input_version::InputVersion;
use mamimi::install::{
    configure_args, install_target, package_url, Install, InstallAction, InstallEvent,
    InstallRun, Platform,
};
use mamimi::log_level::LogLevel;
use mamimi::remote_python_index::{list_from_html, versions_from_listing};
use mamimi::resolve::resolve;
use mamimi::version::PythonVersion;

fn v(s: &str) -> PythonVersion {
    PythonVersion::parse(s).expect("a version")
}

fn config() -> MamimiConfig {
    MamimiConfig {
        python_ftp_mirror: "https://www.python.org/ftp/python/".to_string(),
        base_dir: "/home/u/.mamimi".to_string(),
        multishell_path: Some("/tmp/mamimi_1_2".to_string()),
        log_level: LogLevel::Info,
        arch: Arch::X64,
        version_file_strategy: VersionFileStrategy::Local,
    }
}

fn names(vs: &[PythonVersion]) -> Vec<String> {
    vs.iter().map(|x| x.to_string()).collect()
}

#[test]
fn version_file_in_current_directory_picks_greatest_installed() {
    let installed = vec![v("3.9.1"), v("3.9.6"), v("3.10.0")];
    let files = vec![Some("3.9\n".to_string()), Some("3.10".to_string())];
    let r = resolve(None, &files, None, &installed).unwrap();
    assert_eq!(r.to_string(), "3.9.6");
}

#[test]
fn nearest_nonempty_version_file_wins() {
    let installed = vec![v("3.9.1"), v("3.10.0")];
    let files = vec![None, Some("  \n".to_string()), Some("3.10".to_string()), Some("3.9".to_string())];
    let r = resolve(None, &files, None, &installed).unwrap();
    assert_eq!(r.to_string(), "3.10.0");
}

#[test]
fn default_alias_used_without_specifier_or_file() {
    let d = v("3.8.12");
    let r = resolve(None, &vec![None, None], Some(&d), &vec![v("3.9.6")]).unwrap();
    assert_eq!(r.to_string(), "3.8.12");
}

#[test]
fn explicit_exact_bypasses_candidates() {
    let spec = InputVersion::Full(v("3.7.0"));
    let r = resolve(Some(&spec), &vec![Some("3.9".to_string())], None, &vec![]).unwrap();
    assert_eq!(r.to_string(), "3.7.0");
}

#[test]
fn resolution_errors() {
    assert!(matches!(resolve(None, &vec![], None, &vec![]), Err(MamimiError::CannotInferVersion)));
    assert!(matches!(
        resolve(None, &vec![Some("junk".to_string())], None, &vec![]),
        Err(MamimiError::MalformedVersion)
    ));
    let spec = InputVersion::MajorMinor(2, 7);
    assert!(matches!(
        resolve(Some(&spec), &vec![], None, &vec![v("3.9.6")]),
        Err(MamimiError::VersionNotFound { version: InputVersion::MajorMinor(2, 7) })
    ));
}

#[test]
fn listing_skips_header_and_non_versions() {
    let entries: Vec<String> = ["../", "3.9.6/", "3.9.1/", "not-a-version/", "3.9.1/", "system/"]
        .iter()
        .map(|s| s.to_string())
        .collect();
    let r = versions_from_listing(&entries);
    assert_eq!(names(&r), vec!["3.9.1", "3.9.6"]);
    let header_is_version: Vec<String> = ["3.8.0/", "3.9.1/"].iter().map(|s| s.to_string()).collect();
    assert_eq!(names(&versions_from_listing(&header_is_version)), vec!["3.9.1"]);
}

#[test]
fn html_listing_is_parsed() {
    let html = "<html><body><a href=\"../\">../</a>\n<a href=\"3.9.1/\">3.9.1/</a>\n<a href=\"3.9.6/\">3.9.6/</a>\n<a href=\"not-a-version/\">not-a-version/</a></body></html>";
    let r = list_from_html(html).unwrap();
    assert_eq!(names(&r), vec!["3.9.1", "3.9.6"]);
    assert!(matches!(list_from_html("<a>../</a><a>x/</a>"), Err(MamimiError::EmptyIndex)));
}

#[test]
fn alias_reads_back_as_its_version() {
    let c = config();
    let p = create_alias(&c, "default", &v("3.9.6"), true, EntryKind::Symlink).unwrap();
    assert!(p.remove_existing);
    assert_eq!(p.link, "/home/u/.mamimi/aliases/default");
    assert_eq!(p.target, "/home/u/.mamimi/versions/3.9.6");
    let back = version_of_target(&c, &p.target).unwrap();
    assert_eq!(back.to_string(), "3.9.6");
    assert!(matches!(version_of_target(&c, SYSTEM_TARGET), Some(PythonVersion::System)));
    assert!(version_of_target(&c, "/elsewhere/3.9.6").is_none());
    assert!(version_of_target(&c, "/home/u/.mamimi/versions/junk").is_none());
}

#[test]
fn alias_creation_errors() {
    let c = config();
    assert!(matches!(
        create_alias(&c, "default", &v("3.9.6"), false, EntryKind::Missing),
        Err(MamimiError::InstallationNotFound { .. })
    ));
    assert!(matches!(
        create_alias(&c, "default", &PythonVersion::System, true, EntryKind::Missing),
        Err(MamimiError::InstallationNotFound { .. })
    ));
    assert!(matches!(
        create_alias(&c, "default", &v("3.9.6"), true, EntryKind::Other),
        Err(MamimiError::CorruptAlias { .. })
    ));
}

#[test]
fn stored_alias_accessors() {
    let a = StroredAlias::new(
        "/home/u/.mamimi/aliases/default".to_string(),
        "/home/u/.mamimi/versions/3.9.6".to_string(),
    );
    assert_eq!(a.name(), "default");
    assert_eq!(a.s_ver(), "3.9.6");
    assert_eq!(a.path(), "/home/u/.mamimi/aliases/default");
    let s = StroredAlias::new("/x/aliases/sys".to_string(), SYSTEM_TARGET.to_string());
    assert_eq!(s.s_ver(), "system");
}

fn run_to_end(run: &mut InstallRun, events: Vec<InstallEvent>) -> Vec<InstallAction> {
    events.into_iter().map(|e| run.step(e)).collect()
}

fn ok_tool() -> InstallEvent {
    InstallEvent::ToolExited { success: true, stderr: String::new() }
}

#[test]
fn test_install_default_python_version() {
    let c = config();
    let install = Install { version: Some(InputVersion::Full(v("3.9.6"))), configure_opts: vec![] };
    let req = install.requested_version(&vec![]).unwrap();
    let target = install_target(&req, &vec![]).expect("Can't insatll");
    let (mut run, first) = InstallRun::start(&c, &target, false, &install.configure_opts, "/usr/local", Platform::Posix).unwrap();
    assert_eq!(run.installation_dir, "/home/u/.mamimi/versions/3.9.6");
    match first {
        InstallAction::Download { url } => {
            assert_eq!(url, "https://www.python.org/ftp/python/3.9.6/Python-3.9.6.tar.xz")
        }
        _ => panic!("download first"),
    }
    let actions = run_to_end(
        &mut run,
        vec![
            InstallEvent::Responded { status: 200 },
            InstallEvent::Extracted { entries: 1 },
            ok_tool(),
            ok_tool(),
            ok_tool(),
            InstallEvent::DefaultAliasChecked { resolves: false },
        ],
    );
    assert!(matches!(actions[0], InstallAction::Extract { .. }));
    match &actions[1] {
        InstallAction::Configure { args } => {
            assert_eq!(args, &vec![
                "--prefix=/home/u/.mamimi/versions/3.9.6".to_string(),
                "--with-openssl-dir=/usr/local".to_string()
            ])
        }
        _ => panic!("configure"),
    }
    match actions[2] {
        InstallAction::Build { jobs } => assert!(jobs >= 1),
        _ => panic!("build"),
    }
    assert!(matches!(actions[3], InstallAction::InstallFiles));
    assert!(matches!(actions[4], InstallAction::CheckDefaultAlias));
    assert!(matches!(
        actions[5],
        InstallAction::Finish { result: Ok(()), remove_installation: false, create_default_alias: true }
    ));
    assert!(run.installation_created);
}

#[test]
fn test_install_second_version() {
    let c = config();
    let target = v("3.9.6");
    let (mut run, _) = InstallRun::start(&c, &target, false, &vec![], "/usr/local", Platform::Posix).expect("Can't install Python3.9.6");
    let actions = run_to_end(
        &mut run,
        vec![
            InstallEvent::Responded { status: 200 },
            InstallEvent::Extracted { entries: 1 },
            ok_tool(),
            ok_tool(),
            ok_tool(),
            InstallEvent::DefaultAliasChecked { resolves: false },
        ],
    );
    assert!(matches!(actions[5], InstallAction::Finish { result: Ok(()), create_default_alias: true, .. }));
    let plan = create_alias(&c, "default", &target, true, EntryKind::Missing).unwrap();
    assert_eq!(plan.target.rsplit('/').next(), Some("3.9.6"));
}

#[test]
fn installing_twice_is_refused() {
    let c = config();
    let target = v("3.9.6");
    let second = InstallRun::start(&c, &target, true, &vec![], "/usr/local", Platform::Posix);
    match second {
        Err(MamimiError::VersionAlreadyInstalled { path }) => {
            assert_eq!(path, "/home/u/.mamimi/versions/3.9.6")
        }
        _ => panic!("expected already installed"),
    }
}

#[test]
fn failed_install_steps_clean_up() {
    let c = config();
    let target = v("3.9.6");
    let start = || InstallRun::start(&c, &target, false, &vec![], "/usr/local", Platform::Posix).unwrap().0;

    let mut run = start();
    assert!(matches!(
        run.step(InstallEvent::Responded { status: 404 }),
        InstallAction::Finish { result: Err(MamimiError::VersionNotFound { .. }), remove_installation: false, .. }
    ));
    let mut run = start();
    assert!(matches!(
        run.step(InstallEvent::Responded { status: 500 }),
        InstallAction::Finish { result: Err(MamimiError::NetworkError { status: 500 }), .. }
    ));
    let mut run = start();
    assert!(matches!(run.step(InstallEvent::TransportFailed), InstallAction::Finish { result: Err(MamimiError::NetworkError { status: 0 }), .. }));
    let mut run = start();
    run.step(InstallEvent::Responded { status: 200 });
    assert!(matches!(run.step(InstallEvent::Extracted { entries: 0 }), InstallAction::Finish { result: Err(MamimiError::TarIsEmpty), .. }));
    let mut run = start();
    run.step(InstallEvent::Responded { status: 200 });
    assert!(matches!(
        run.step(InstallEvent::ExtractFailed { message: "bad".to_string() }),
        InstallAction::Finish { result: Err(MamimiError::ExtractError { .. }), .. }
    ));
    let mut run = start();
    run.step(InstallEvent::Responded { status: 200 });
    run.step(InstallEvent::Extracted { entries: 1 });
    match run.step(InstallEvent::ToolExited { success: false, stderr: "no cc".to_string() }) {
        InstallAction::Finish { result: Err(MamimiError::CannotBuildPython { stderr }), remove_installation, .. } => {
            assert_eq!(stderr, "configure failed: no cc");
            assert!(!remove_installation);
        }
        _ => panic!("configure failure"),
    }
    let mut run = start();
    run.step(InstallEvent::Responded { status: 200 });
    run.step(InstallEvent::Extracted { entries: 1 });
    run.step(ok_tool());
    run.step(ok_tool());
    match run.step(InstallEvent::ToolExited { success: false, stderr: "disk full".to_string() }) {
        InstallAction::Finish { result: Err(MamimiError::CannotBuildPython { stderr }), remove_installation, .. } => {
            assert_eq!(stderr, "make install failed: disk full");
            assert!(remove_installation);
        }
        _ => panic!("install failure"),
    }
}

#[test]
fn install_targets() {
    let index = vec![v("3.9.1"), v("3.9.6"), v("3.10.0")];
    assert_eq!(install_target(&InputVersion::MajorMinor(3, 9), &index).unwrap().to_string(), "3.9.6");
    assert!(matches!(
        install_target(&InputVersion::Full(PythonVersion::System), &index),
        Err(MamimiError::NotInstallableVersion { .. })
    ));
    assert!(matches!(install_target(&InputVersion::Major(4), &index), Err(MamimiError::VersionNotFound { .. })));
    let install = Install { version: None, configure_opts: vec![] };
    assert!(matches!(install.requested_version(&vec![None]), Err(MamimiError::CannotInferVersion)));
    assert!(matches!(install.requested_version(&vec![Some("3.9".to_string())]), Ok(InputVersion::MajorMinor(3, 9))));
}

#[test]
fn configure_keeps_a_given_openssl_dir() {
    let opts = vec!["--enable-shared".to_string(), "--with-openssl-dir=/opt/ssl".to_string()];
    let args = configure_args("/p", &opts, "/usr/local");
    assert_eq!(args, vec!["--prefix=/p", "--enable-shared", "--with-openssl-dir=/opt/ssl"]);
}

#[test]
fn package_urls() {
    let x = v("3.9.6");
    assert_eq!(
        package_url("https://m.example/python", &x, Platform::Windows),
        "https://m.example/python/3.9.6/Python-3.9.6-embed-amd64.zip"
    );
}

#[test]
fn uninstall_removes_aliases_before_the_directory() {
    let c = config();
    let installed = vec![v("3.9.6"), v("3.8.12")];
    let aliases = vec![
        ("/home/u/.mamimi/aliases/default".to_string(), Some(v("3.9.6"))),
        ("/home/u/.mamimi/aliases/other".to_string(), Some(v("3.8.12"))),
        ("/tmp/mamimi_1_2".to_string(), Some(v("3.9.6"))),
        ("/home/u/.mamimi/aliases/broken".to_string(), None),
    ];
    let steps = Uninstall { version: InputVersion::Full(v("3.9.6")) }.plan(&c, &installed, &aliases).unwrap();
    assert_eq!(steps.len(), 3);
    assert!(matches!(&steps[0], UninstallStep::RemoveAlias { path } if path == "/home/u/.mamimi/aliases/default"));
    assert!(matches!(&steps[1], UninstallStep::RemoveAlias { path } if path == "/tmp/mamimi_1_2"));
    assert!(matches!(&steps[2], UninstallStep::RemoveInstallation { path } if path == "/home/u/.mamimi/versions/3.9.6"));
    assert!(matches!(
        Uninstall { version: InputVersion::Full(v("4.0.0")) }.plan(&c, &installed, &aliases),
        Err(MamimiError::VersionNotFound { .. })
    ));
    assert!(matches!(
        Uninstall { version: InputVersion::Full(PythonVersion::System) }.plan(&c, &installed, &aliases),
        Err(MamimiError::NotInstallableVersion { .. })
    ));
}

#[test]
fn local_activation() {
    let c = config();
    let installed = vec![v("3.9.1"), v("3.9.6")];
    match (Local { version: Some(InputVersion::MajorMinor(3, 9)) }).plan(&c, &vec![], &installed).unwrap() {
        ActivationPlan::Link { link, target } => {
            assert_eq!(link, "/tmp/mamimi_1_2");
            assert_eq!(target, "/home/u/.mamimi/versions/3.9.6");
        }
        _ => panic!("link"),
    }
    match (Local { version: None }).plan(&c, &vec![None], &installed).unwrap() {
        ActivationPlan::FallBackToDefault { link, target } => {
            assert_eq!(link, "/tmp/mamimi_1_2");
            assert_eq!(target, "/home/u/.mamimi/aliases/default");
        }
        _ => panic!("fallback"),
    }
    assert!(matches!(
        (Local { version: Some(InputVersion::Full(v("3.7.0"))) }).plan(&c, &vec![], &installed),
        Err(MamimiError::VersionNotFound { .. })
    ));
    let mut no_session = config();
    no_session.multishell_path = None;
    assert!(matches!((Local { version: None }).plan(&no_session, &vec![], &installed), Err(MamimiError::MamimiPathNotFound)));
}

#[test]
fn global_sets_default() {
    let c = config();
    let installed = vec![v("3.9.6")];
    let p = (Global { version: InputVersion::Full(v("3.9.6")) }).plan(&c, &installed, EntryKind::Missing).unwrap();
    assert_eq!(p.link, "/home/u/.mamimi/aliases/default");
    assert!(!p.remove_existing);
    assert!(matches!(
        (Global { version: InputVersion::MajorMinor(3, 9) }).plan(&c, &installed, EntryKind::Missing),
        Err(MamimiError::VersionNotFound { .. })
    ));
}
