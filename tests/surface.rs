use mamimi::arch::Arch;
use mamimi::commands::{current_python_version, is_dotfile, Init, InstallList, Versions};
use mamimi::config::{MamimiConfig, VersionFileStrategy};
use mamimi::error::MamimiError;
use mamimi::log_level::LogLevel;
use mamimi::shell::{shell_from_string, Bash, Fish, PowerShell, Shell, WindowsCommand, Zsh};
use mamimi::version::PythonVersion;

fn config() -> MamimiConfig {
    MamimiConfig {
        python_ftp_mirror: "https://www.python.org/ftp/python/".to_string(),
        base_dir: "/b".to_string(),
        multishell_path: Some("/tmp/s".to_string()),
        log_level: LogLevel::Info,
        arch: Arch::X64,
        version_file_strategy: VersionFileStrategy::Local,
    }
}

#[test]
fn test_smoke() {
    let c = config();
    let init = Init { shell: Some(Shell::Bash), multi: false, use_on_cd: false };
    let shell = init.chosen_shell(None).unwrap();
    let lines = init.script(&c, shell, "/tmp/s/bin", "/tmp/s/bin:/usr/bin", "/tmp/s");
    assert_eq!(lines.len(), 7);
}

#[test]
fn init_script_lines() {
    let c = config();
    let init = Init { shell: None, multi: false, use_on_cd: true };
    assert!(matches!(init.chosen_shell(None), Err(MamimiError::CantInferShell)));
    let lines = init.script(&c, Shell::Fish, "/tmp/s/bin", "", "/tmp/s");
    assert_eq!(lines[0], "set -gx PATH \"/tmp/s/bin\" $PATH;");
    assert_eq!(lines[2], "set -gx MAMIMI_DIR \"/b\";");
    assert_eq!(lines[4], "set -gx MAMIMI_LOGLEVEL \"info\";");
    assert_eq!(lines.len(), 8);
}

#[test]
fn shells_render_statements() {
    assert_eq!(Bash.set_env_var("A", "b \"c\""), "export A=\"b \\\"c\\\"\"");
    assert_eq!(Zsh.path("/x"), "export PATH=\"/x\":$PATH");
    assert_eq!(Fish.set_env_var("A", "b"), "set -gx A \"b\";");
    assert_eq!(PowerShell.set_env_var("A", "b"), "$env:A = \"b\"");
    assert_eq!(WindowsCommand.set_env_var("A", "b"), "SET A=b");
    assert_eq!(WindowsCommand.use_on_cd(&config()), "doskey cd=/b/cd.cmd $*");
    assert!(Shell::PowerShell.rehash().is_none());
    assert_eq!(Shell::Zsh.rehash().unwrap(), "rehash");
}

#[test]
fn shells_from_names() {
    assert_eq!(shell_from_string("sh"), Some(Shell::Bash));
    assert_eq!(shell_from_string("pwsh"), Some(Shell::PowerShell));
    assert_eq!(shell_from_string("tcsh"), None);
    assert_eq!(Shell::from_str("cmd"), Some(Shell::WindowsCommand));
    assert_eq!(Shell::from_str("pwsh"), None);
}

#[test]
fn log_levels() {
    assert!(LogLevel::Info.is_writable(&LogLevel::Error));
    assert!(!LogLevel::Quiet.is_writable(&LogLevel::Error));
    assert!(LogLevel::Error.is_writable(&LogLevel::Error));
    assert_eq!(LogLevel::from_str("all"), Some(LogLevel::Info));
    assert_eq!(LogLevel::from_str("loud"), None);
    assert_eq!(LogLevel::passible_values(), ["quiet", "info", "all", "error"]);
    assert_eq!(LogLevel::Quiet.as_str(), "quiet");
}

#[test]
fn versions_listing_marks_current() {
    let names = vec![".downloads".to_string(), "3.9.6".to_string(), "3.8.12".to_string()];
    let cur = PythonVersion::parse("3.8.12").unwrap();
    let l = Versions {}.listing(&names, Some(&cur)).unwrap();
    assert_eq!(l.len(), 2);
    assert!(!l[0].0 && l[0].1.to_string() == "3.9.6");
    assert!(l[1].0 && l[1].1.to_string() == "3.8.12");
    assert!(matches!(Versions {}.listing(&vec!["junk".to_string()], None), Err(MamimiError::MalformedVersion)));
    assert!(is_dotfile(".x") && !is_dotfile("x"));
}

#[test]
fn install_list_lines() {
    let vs = vec![PythonVersion::parse("3.9.1").unwrap(), PythonVersion::System];
    assert_eq!(InstallList {}.lines(&vs), vec!["3.9.1", "system"]);
}

#[test]
fn current_version_from_session_link() {
    let c = config();
    let r = current_python_version(&c, Some("/b/versions/3.9.6")).unwrap().unwrap();
    assert_eq!(r.to_string(), "3.9.6");
    assert!(current_python_version(&c, None).unwrap().is_none());
    let mut n = config();
    n.multishell_path = None;
    assert!(matches!(current_python_version(&n, None), Err(MamimiError::MamimiPathNotFound)));
}

#[test]
fn config_paths() {
    let c = config();
    assert_eq!(c.installations_dir(), "/b/versions");
    assert_eq!(c.aliases_dir(), "/b/aliases");
    assert_eq!(c.default_python_version_dir(), "/b/aliases/default");
    assert_eq!(c.downloads_dir(), "/b/versions/.downloads");
    let x = PythonVersion::parse("3.9.6").unwrap();
    assert_eq!(x.installation_path(&c).unwrap(), "/b/versions/3.9.6");
    assert!(PythonVersion::System.installation_path(&c).is_none());
    assert_eq!(c.with_base_dir("/c".to_string()).installations_dir(), "/c/versions");
    assert_eq!(Arch::Arm64.as_str(), "arm64");
    let d = MamimiConfig::with_defaults("/d".to_string());
    assert_eq!(d.python_ftp_mirror, "https://www.python.org/ftp/python/");
    assert!(d.multishell_path.is_none());
}
