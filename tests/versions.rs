use mamimi::input_version::InputVersion;
use mamimi::version::PythonVersion;

fn v(s: &str) -> PythonVersion {
    PythonVersion::parse(s).expect("a version")
}

#[test]
fn parses_a_release() {
    match v("3.9.6") {
        PythonVersion::Semver(r) => {
            assert_eq!((r.major, r.minor, r.patch), (3, 9, 6));
            assert_eq!(r.pre, "");
            assert_eq!(r.build, "");
        }
        PythonVersion::System => panic!("not a release"),
    }
}

#[test]
fn parses_with_prefix_and_case() {
    assert_eq!(v("V3.10.2").to_string(), "3.10.2");
    assert_eq!(v("3.10.0-RC1").to_string(), "3.10.0-rc1");
    assert!(matches!(v("SyStEm"), PythonVersion::System));
    assert_eq!(v("system").to_string(), "system");
}

#[test]
fn rejects_malformed_versions() {
    assert!(PythonVersion::parse("3.9").is_err());
    assert!(PythonVersion::parse("3.09.1").is_err());
    assert!(PythonVersion::parse("").is_err());
    assert!(PythonVersion::parse(" 3.9.1").is_err());
    assert!(PythonVersion::parse("three").is_err());
}

#[test]
fn display_round_trips() {
    for s in ["3.9.6", "v3.11.0-beta.2+build.7", "SYSTEM", "0.0.0"] {
        let once = v(s);
        let twice = v(&once.to_string());
        assert!(once.same(&twice));
        assert_eq!(once.to_string(), twice.to_string());
    }
}

#[test]
fn parses_specifiers() {
    assert!(matches!(InputVersion::from_str("3"), Ok(InputVersion::Major(3))));
    assert!(matches!(InputVersion::from_str(" 3.9\n"), Ok(InputVersion::MajorMinor(3, 9))));
    assert!(matches!(InputVersion::from_str("3.9.6"), Ok(InputVersion::Full(_))));
    assert!(InputVersion::from_str("3.9.x").is_err());
    assert!(InputVersion::from_str("3.").is_err());
    assert!(InputVersion::from_str("abc").is_err());
    assert!(InputVersion::from_str("18446744073709551616").is_err());
    assert!(matches!(
        InputVersion::from_str("18446744073709551615"),
        Ok(InputVersion::Major(18446744073709551615))
    ));
}

#[test]
fn major_minor_picks_the_greatest_patch() {
    let cands = vec![v("3.9.1"), v("3.10.0"), v("3.9.6"), v("3.8.12"), v("3.9.2")];
    let r = InputVersion::MajorMinor(3, 9).to_version(&cands).unwrap();
    assert_eq!(r.to_string(), "3.9.6");
    let r = InputVersion::Major(3).to_version(&cands).unwrap();
    assert_eq!(r.to_string(), "3.10.0");
    assert!(InputVersion::MajorMinor(2, 7).to_version(&cands).is_none());
}

#[test]
fn prerelease_sorts_before_its_release() {
    let cands = vec![v("3.10.0"), v("3.10.0-rc.1"), v("3.10.0-beta.2")];
    let r = InputVersion::MajorMinor(3, 10).to_version(&cands).unwrap();
    assert_eq!(r.to_string(), "3.10.0");
    let pre = vec![v("3.10.0-rc.1"), v("3.10.0-beta.2"), v("3.10.0-rc.10")];
    let r = InputVersion::Major(3).to_version(&pre).unwrap();
    assert_eq!(r.to_string(), "3.10.0-rc.10");
}

#[test]
fn system_never_matches_a_partial_specifier() {
    let cands = vec![PythonVersion::System];
    assert!(InputVersion::Major(3).to_version(&cands).is_none());
    assert!(!InputVersion::MajorMinor(3, 9).matches(&PythonVersion::System));
    let r = InputVersion::Full(PythonVersion::System).to_version(&cands).unwrap();
    assert!(matches!(r, PythonVersion::System));
}

#[test]
fn first_letter_is_number_reads_the_first_character() {
    assert!(mamimi::version::first_letter_is_number("3.9"));
    assert!(!mamimi::version::first_letter_is_number("v3"));
    assert!(!mamimi::version::first_letter_is_number(""));
}

#[test]
fn specifiers_display_with_open_numbers() {
    assert_eq!(InputVersion::Major(3).to_string(), "3.x.x");
    assert_eq!(InputVersion::MajorMinor(3, 10).to_string(), "3.10.x");
    assert_eq!(InputVersion::Full(v("3.9.6")).to_string(), "3.9.6");
}
