//! Concrete versions: a release `major.minor.patch[-pre][+build]` or the
//! system interpreter found on `PATH`.

use vstd::prelude::*;
use crate::text::{chars_of, decimal, is_digit, lower, lower_char, push_char, to_lower, write_u64};

verus! {

/// What a release holds, as plain values.
pub struct ReleaseView {
    pub major: u64,
    pub minor: u64,
    pub patch: u64,
    pub pre: Seq<char>,
    pub build: Seq<char>,
}

pub enum VersionView {
    Release(ReleaseView),
    System,
}

/// A released version, with its pre-release and build identifiers
/// (each empty when absent).
#[derive(Clone, Debug)]
pub struct Release {
    pub major: u64,
    pub minor: u64,
    pub patch: u64,
    pub pre: String,
    pub build: String,
}

impl View for Release {
    type V = ReleaseView;

    open spec fn view(&self) -> ReleaseView {
        ReleaseView {
            major: self.major,
            minor: self.minor,
            patch: self.patch,
            pre: self.pre@,
            build: self.build@,
        }
    }
}

/// A concrete version: a release, or the interpreter already on `PATH`,
/// which this manager never installs.
#[derive(Clone, Debug)]
pub enum PythonVersion {
    Semver(Release),
    System,
}

impl View for PythonVersion {
    type V = VersionView;

    open spec fn view(&self) -> VersionView {
        match self {
            PythonVersion::Semver(r) => VersionView::Release(r@),
            PythonVersion::System => VersionView::System,
        }
    }
}

pub open spec fn system_text() -> Seq<char> {
    seq!['s', 'y', 's', 't', 'e', 'm']
}

/// The canonical text of a release: `major.minor.patch`, then `-pre` and
/// `+build` where those are not empty.
pub open spec fn release_text(r: ReleaseView) -> Seq<char> {
    decimal(r.major as nat) + seq!['.'] + decimal(r.minor as nat) + seq!['.'] + decimal(
        r.patch as nat,
    ) + (if r.pre.len() > 0 {
        seq!['-'] + r.pre
    } else {
        Seq::<char>::empty()
    }) + (if r.build.len() > 0 {
        seq!['+'] + r.build
    } else {
        Seq::<char>::empty()
    })
}

/// The canonical text of a version; it is also the name of its installation
/// directory.
pub open spec fn version_text(v: VersionView) -> Seq<char> {
    match v {
        VersionView::Release(r) => release_text(r),
        VersionView::System => system_text(),
    }
}

/// What `semver::Version::parse` reads from a text.
pub uninterp spec fn semver_parse_of(s: Seq<char>) -> Option<ReleaseView>;

/// Relies on `semver::Version::parse`: it accepts exactly
/// `major.minor.patch[-pre][+build]` with decimal numbers without leading
/// zeros and nothing around, so the version it returns prints back, through
/// the decimal numerals of its numbers and its identifiers' text, as the text
/// it read.
#[verifier::external_body]
fn semver_parse(s: &str) -> (r: Option<Release>)
    ensures
        r matches Some(v) ==> semver_parse_of(s@) == Some(v@) && release_text(v@) == s@,
        r is None ==> semver_parse_of(s@) is None,
{
    match semver::Version::parse(s) {
        Ok(v) => Some(
            Release {
                major: v.major,
                minor: v.minor,
                patch: v.patch,
                pre: v.pre.as_str().to_string(),
                build: v.build.as_str().to_string(),
            },
        ),
        Err(_) => None,
    }
}

/// `s` without one leading `v`.
pub open spec fn strip_prefix_token(s: Seq<char>) -> Seq<char> {
    if s.len() > 0 && s[0] == 'v' {
        s.drop_first()
    } else {
        s
    }
}

/// The version a text names: case is ignored, `system` names the system
/// interpreter, a leading `v` is dropped, and the rest must be a release in
/// semver's syntax.
pub open spec fn parse_version(s: Seq<char>) -> Option<VersionView> {
    let l = lower(s);
    if l == system_text() {
        Some(VersionView::System)
    } else {
        let x = strip_prefix_token(l);
        match semver_parse_of(x) {
            Some(r) => if release_text(r) == x {
                Some(VersionView::Release(r))
            } else {
                None
            },
            None => None,
        }
    }
}

/// The text is not a version.
#[derive(Clone, Debug, PartialEq, Eq, Structural)]
pub struct MalformedVersion;

/// Whether the first character of `s` is a decimal digit.
pub fn first_letter_is_number(s: &str) -> (r: bool)
    ensures
        r == (s@.len() > 0 && is_digit(s@[0])),
{
    if s.unicode_len() == 0 {
        false
    } else {
        let c = s.get_char(0);
        '0' <= c && c <= '9'
    }
}

proof fn lemma_lower_char_idempotent(c: char)
    ensures
        lower_char(lower_char(c)) == lower_char(c),
{
    if 'A' <= c && c <= 'Z' {
        let d = ((c as u8) + 32) as u8;
        assert(97 <= d <= 122);
        assert((d as char) as u8 == d);
    }
}

proof fn lemma_lower_idempotent(s: Seq<char>)
    ensures
        lower(lower(s)) == lower(s),
{
    assert forall|i: int| 0 <= i < s.len() implies lower(lower(s))[i] == lower(s)[i] by {
        lemma_lower_char_idempotent(s[i]);
    }
    assert(lower(lower(s)) =~= lower(s));
}

proof fn lemma_decimal_starts_with_digit(n: nat)
    ensures
        decimal(n).len() > 0,
        is_digit(decimal(n)[0]),
    decreases n,
{
    if n >= 10 {
        lemma_decimal_starts_with_digit(n / 10);
    } else {
        let d = (n + 48) as u8;
        assert((d as char) as u8 == d);
    }
}

proof fn lemma_release_text_starts_with_digit(r: ReleaseView)
    ensures
        release_text(r).len() > 0,
        is_digit(release_text(r)[0]),
{
    lemma_decimal_starts_with_digit(r.major as nat);
    assert(release_text(r)[0] == decimal(r.major as nat)[0]);
}

proof fn lemma_lower_system()
    ensures
        lower(system_text()) == system_text(),
{
    assert(lower(system_text()) =~= system_text());
}

/// Printing a parsed version and parsing the text again gives the same
/// version.
pub proof fn lemma_parse_display_round_trip(s: Seq<char>)
    requires
        parse_version(s) is Some,
    ensures
        parse_version(version_text(parse_version(s)->0)) == parse_version(s),
{
    let v = parse_version(s)->0;
    let l = lower(s);
    lemma_lower_idempotent(s);
    match v {
        VersionView::System => {
            lemma_lower_system();
        },
        VersionView::Release(r) => {
            let x = strip_prefix_token(l);
            let t = release_text(r);
            assert(t == x);
            lemma_release_text_starts_with_digit(r);
            assert(lower(x) == x) by {
                if l.len() > 0 && l[0] == 'v' {
                    assert forall|i: int| 0 <= i < x.len() implies lower(x)[i] == x[i] by {
                        assert(x[i] == l[i + 1]);
                        assert(lower(l)[i + 1] == l[i + 1]);
                    }
                }
                assert(lower(x) =~= x);
            }
            assert(t[0] != 's');
            assert(lower(t) != system_text());
            assert(strip_prefix_token(lower(t)) == t);
        },
    }
}

/// `a` comes no later than `b` in the order of (major, minor, patch).
pub open spec fn triple_le(a: ReleaseView, b: ReleaseView) -> bool {
    a.major < b.major || (a.major == b.major && (a.minor < b.minor || (a.minor == b.minor
        && a.patch <= b.patch)))
}

/// Whether semver's order on versions puts `a` strictly before `b`.
pub uninterp spec fn semver_precedes(a: ReleaseView, b: ReleaseView) -> bool;

pub open spec fn release_views(s: Seq<Release>) -> Seq<ReleaseView> {
    s.map_values(|r: Release| r@)
}

/// `w` is `v`, or a release that `v` does not come before.
pub open spec fn version_le(w: VersionView, v: VersionView) -> bool {
    w == v || match (w, v) {
        (VersionView::Release(a), VersionView::Release(b)) => triple_le(a, b) && !semver_precedes(
            b,
            a,
        ),
        _ => false,
    }
}

/// Relies on the `Ord` of `semver::Version`, which compares major, minor and
/// patch first, then the pre-release and build identifiers, and on
/// `slice::sort_by_cached_key`, which puts the items in ascending order of
/// their keys. An identifier that semver would refuse is read as empty.
#[verifier::external_body]
pub(crate) fn sort_releases(v: &mut Vec<Release>)
    ensures
        release_views(final(v)@).to_multiset() == release_views(old(v)@).to_multiset(),
        forall|i: int, j: int|
            0 <= i < j < final(v)@.len() ==> triple_le(final(v)@[i]@, final(v)@[j]@)
                && !semver_precedes(#[trigger] final(v)@[j]@, #[trigger] final(v)@[i]@),
{
    v.sort_by_cached_key(
        |r| semver::Version {
            major: r.major,
            minor: r.minor,
            patch: r.patch,
            pre: semver::Prerelease::new(&r.pre).unwrap_or_default(),
            build: semver::BuildMetadata::new(&r.build).unwrap_or_default(),
        },
    );
}

impl PythonVersion {
    /// Reads a version: `system` in any case, or a release with an optional
    /// leading `v`.
    pub fn parse(version_str: &str) -> (r: Result<PythonVersion, MalformedVersion>)
        ensures
            match r {
                Ok(v) => parse_version(version_str@) == Some(v@),
                Err(_) => parse_version(version_str@) is None,
            },
    {
        let chars = chars_of(version_str);
        let l = to_lower(&chars);
        let is_system = l.len() == 6 && l[0] == 's' && l[1] == 'y' && l[2] == 's' && l[3] == 't'
            && l[4] == 'e' && l[5] == 'm';
        if is_system {
            assert(l@ =~= system_text());
            return Ok(PythonVersion::System);
        }
        assert(l@ != system_text()) by {
            if l@ == system_text() {
                assert(l@[0] == 's' && l@[1] == 'y' && l@[2] == 's' && l@[3] == 't' && l@[4] == 'e'
                    && l@[5] == 'm');
            }
        }
        let start: usize = if l.len() > 0 && l[0] == 'v' {
            1
        } else {
            0
        };
        let rest = crate::text::string_of(&l, start, l.len());
        assert(rest@ =~= strip_prefix_token(l@));
        match semver_parse(rest.as_str()) {
            Some(r) => Ok(PythonVersion::Semver(r)),
            None => Err(MalformedVersion),
        }
    }

    /// The canonical text of the version, which is also the name of its
    /// installation directory.
    pub fn to_string(&self) -> (r: String)
        ensures
            r@ == version_text(self@),
    {
        match self {
            PythonVersion::Semver(v) => v.to_string(),
            PythonVersion::System => {
                let mut s = String::new();
                push_char(&mut s, 's');
                push_char(&mut s, 'y');
                push_char(&mut s, 's');
                push_char(&mut s, 't');
                push_char(&mut s, 'e');
                push_char(&mut s, 'm');
                assert(s@ =~= system_text());
                s
            },
        }
    }

    /// A copy of the version.
    pub fn duplicate(&self) -> (r: PythonVersion)
        ensures
            r@ == self@,
    {
        match self {
            PythonVersion::Semver(v) => PythonVersion::Semver(v.duplicate()),
            PythonVersion::System => PythonVersion::System,
        }
    }

    /// Whether the two versions are the same.
    pub fn same(&self, other: &PythonVersion) -> (r: bool)
        ensures
            r == (self@ == other@),
    {
        match (self, other) {
            (PythonVersion::Semver(a), PythonVersion::Semver(b)) => a.same(b),
            (PythonVersion::System, PythonVersion::System) => true,
            _ => false,
        }
    }
}

impl Release {
    /// The canonical text `major.minor.patch[-pre][+build]`.
    pub fn to_string(&self) -> (r: String)
        ensures
            r@ == release_text(self@),
    {
        let mut s = String::new();
        write_u64(&mut s, self.major);
        push_char(&mut s, '.');
        write_u64(&mut s, self.minor);
        push_char(&mut s, '.');
        write_u64(&mut s, self.patch);
        let pre = chars_of(self.pre.as_str());
        if pre.len() > 0 {
            push_char(&mut s, '-');
            s.append(self.pre.as_str());
        }
        let build = chars_of(self.build.as_str());
        if build.len() > 0 {
            push_char(&mut s, '+');
            s.append(self.build.as_str());
        }
        assert(s@ =~= release_text(self@));
        s
    }

    /// A copy of the release.
    pub fn duplicate(&self) -> (r: Release)
        ensures
            r@ == self@,
    {
        Release {
            major: self.major,
            minor: self.minor,
            patch: self.patch,
            pre: self.pre.clone(),
            build: self.build.clone(),
        }
    }

    /// Whether the two releases are the same.
    pub fn same(&self, other: &Release) -> (r: bool)
        ensures
            r == (self@ == other@),
    {
        let r = self.major == other.major && self.minor == other.minor && self.patch
            == other.patch && self.pre == other.pre && self.build == other.build;
        proof {
            if self.pre@ == other.pre@ && self.build@ == other.build@ && self.major == other.major
                && self.minor == other.minor && self.patch == other.patch {
                assert(self@ =~= other@);
            }
        }
        r
    }
}

} // verus!
