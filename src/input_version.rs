//! Version specifiers: an exact version, or a major number with an optional
//! minor number, and the choice of the greatest version one matches.

use vstd::prelude::*;
use crate::text::{chars_of, decimal, numeral_u64, parse_u64, push_char, trim, trim_bounds, write_u64};
use crate::version::{
    parse_version, release_views, version_text, semver_precedes, sort_releases, triple_le, version_le,
    MalformedVersion, PythonVersion, Release, VersionView,
};

verus! {

broadcast use vstd::seq_lib::group_to_multiset_ensures;

pub enum SpecifierView {
    Major(u64),
    MajorMinor(u64, u64),
    Full(VersionView),
}

/// A version as a user writes it: `3`, `3.9`, or a full version.
#[derive(Clone, Debug)]
pub enum InputVersion {
    Major(u64),
    MajorMinor(u64, u64),
    Full(PythonVersion),
}

impl View for InputVersion {
    type V = SpecifierView;

    open spec fn view(&self) -> SpecifierView {
        match self {
            InputVersion::Major(m) => SpecifierView::Major(*m),
            InputVersion::MajorMinor(m, n) => SpecifierView::MajorMinor(*m, *n),
            InputVersion::Full(v) => SpecifierView::Full(v@),
        }
    }
}

/// A full specifier matches only its own version; a partial one matches the
/// releases that agree on the numbers it gives, and never the system
/// interpreter.
pub open spec fn spec_matches(s: SpecifierView, v: VersionView) -> bool {
    match s {
        SpecifierView::Full(a) => a == v,
        SpecifierView::Major(m) => match v {
            VersionView::Release(r) => r.major == m,
            VersionView::System => false,
        },
        SpecifierView::MajorMinor(m, n) => match v {
            VersionView::Release(r) => r.major == m && r.minor == n,
            VersionView::System => false,
        },
    }
}

pub open spec fn version_views(s: Seq<PythonVersion>) -> Seq<VersionView> {
    s.map_values(|v: PythonVersion| v@)
}

/// `v` is among `cands`, matches `s`, and no candidate that matches `s` comes
/// after it.
pub open spec fn is_greatest_match(s: SpecifierView, cands: Seq<VersionView>, v: VersionView) -> bool {
    &&& spec_matches(s, v)
    &&& cands.contains(v)
    &&& forall|i: int|
        0 <= i < cands.len() && spec_matches(s, #[trigger] cands[i]) ==> version_le(cands[i], v)
}

/// A `major.minor` specifier resolves to a release with that major and
/// minor number and the greatest patch number among the candidates that
/// match, and no matching candidate comes after it in semver's order.
pub proof fn lemma_major_minor_picks_greatest_patch(
    major: u64,
    minor: u64,
    cands: Seq<VersionView>,
    v: VersionView,
)
    requires
        is_greatest_match(SpecifierView::MajorMinor(major, minor), cands, v),
    ensures
        v is Release,
        v->Release_0.major == major,
        v->Release_0.minor == minor,
        forall|i: int|
            0 <= i < cands.len() && spec_matches(
                SpecifierView::MajorMinor(major, minor),
                #[trigger] cands[i],
            ) ==> cands[i]->Release_0.patch <= v->Release_0.patch && (cands[i] == v
                || !semver_precedes(v->Release_0, cands[i]->Release_0)),
{
    assert forall|i: int|
        0 <= i < cands.len() && spec_matches(
            SpecifierView::MajorMinor(major, minor),
            #[trigger] cands[i],
        ) implies cands[i]->Release_0.patch <= v->Release_0.patch && (cands[i] == v
        || !semver_precedes(v->Release_0, cands[i]->Release_0)) by {
        assert(version_le(cands[i], v));
    }
}

/// How a specifier is shown: a full one as its version, a partial one with
/// `x` for each number it leaves open.
pub open spec fn specifier_text(s: SpecifierView) -> Seq<char> {
    match s {
        SpecifierView::Full(v) => version_text(v),
        SpecifierView::Major(m) => decimal(m as nat) + ".x.x"@,
        SpecifierView::MajorMinor(m, n) => decimal(m as nat) + seq!['.'] + decimal(n as nat) + ".x"@,
    }
}

/// `3` or `3.9`: one or two decimal numbers separated by a dot.
pub open spec fn parse_partial(t: Seq<char>) -> Option<SpecifierView> {
    if exists|i: int| 0 <= i < t.len() && t[i] == '.' {
        let i = choose|i: int| 0 <= i < t.len() && t[i] == '.';
        match (numeral_u64(t.subrange(0, i)), numeral_u64(t.subrange(i + 1, t.len() as int))) {
            (Some(a), Some(b)) => Some(SpecifierView::MajorMinor(a, b)),
            _ => None,
        }
    } else {
        match numeral_u64(t) {
            Some(a) => Some(SpecifierView::Major(a)),
            None => None,
        }
    }
}

/// A full version where the text is one, else a partial one read from the
/// text without its blank ends.
pub open spec fn parse_specifier(s: Seq<char>) -> Option<SpecifierView> {
    match parse_version(s) {
        Some(v) => Some(SpecifierView::Full(v)),
        None => parse_partial(trim(s)),
    }
}

/// The decimal number that `v[from..to]` spells, where it spells one.
fn next_of(v: &Vec<char>, from: usize, to: usize) -> (r: Option<u64>)
    requires
        from <= to <= v@.len(),
    ensures
        r == numeral_u64(v@.subrange(from as int, to as int)),
{
    let mut part: Vec<char> = Vec::new();
    let mut i: usize = from;
    while i < to
        invariant
            from <= i <= to <= v@.len(),
            part@ == v@.subrange(from as int, i as int),
        decreases to - i,
    {
        part.push(v[i]);
        i = i + 1;
        assert(part@ =~= v@.subrange(from as int, i as int));
    }
    parse_u64(&part)
}

proof fn lemma_dot_breaks_numeral(s: Seq<char>, k: int)
    requires
        0 <= k < s.len(),
        s[k] == '.',
    ensures
        numeral_u64(s) is None,
{
    assert(!crate::text::is_digit(s[k]));
}

fn parse_partial_exec(v: &Vec<char>) -> (r: Option<InputVersion>)
    ensures
        match r {
            Some(x) => parse_partial(v@) == Some(x@),
            None => parse_partial(v@) is None,
        },
{
    let n = v.len();
    let mut i: usize = 0;
    while i < n && v[i] != '.'
        invariant
            i <= n == v@.len(),
            forall|k: int| 0 <= k < i ==> v@[k] != '.',
        decreases n - i,
    {
        i = i + 1;
    }
    if i == n {
        return match next_of(v, 0, n) {
            Some(a) => {
                assert(v@.subrange(0, n as int) =~= v@);
                Some(InputVersion::Major(a))
            },
            None => {
                assert(v@.subrange(0, n as int) =~= v@);
                None
            },
        };
    }
    let mut j: usize = i + 1;
    while j < n && v[j] != '.'
        invariant
            i < j <= n == v@.len(),
            forall|k: int| i < k < j ==> v@[k] != '.',
        decreases n - j,
    {
        j = j + 1;
    }
    if j < n {
        proof {
            let c = choose|c: int| 0 <= c < v@.len() && v@[c] == '.';
            if c <= i {
                assert(v@.subrange(c + 1, n as int)[j - c - 1] == '.');
                lemma_dot_breaks_numeral(v@.subrange(c + 1, n as int), j - c - 1);
            } else {
                assert(v@.subrange(0, c)[i as int] == '.');
                lemma_dot_breaks_numeral(v@.subrange(0, c), i as int);
            }
        }
        return None;
    }
    let a = next_of(v, 0, i);
    let b = next_of(v, i + 1, n);
    proof {
        let c = choose|c: int| 0 <= c < v@.len() && v@[c] == '.';
        assert(c == i);
    }
    match (a, b) {
        (Some(a), Some(b)) => Some(InputVersion::MajorMinor(a, b)),
        _ => None,
    }
}

impl InputVersion {
    /// Reads a specifier: a full version where the text is one, else one or
    /// two decimal numbers separated by a dot.
    pub fn from_str(s: &str) -> (r: Result<InputVersion, MalformedVersion>)
        ensures
            match r {
                Ok(x) => parse_specifier(s@) == Some(x@),
                Err(_) => parse_specifier(s@) is None,
            },
    {
        match PythonVersion::parse(s) {
            Ok(v) => Ok(InputVersion::Full(v)),
            Err(e) => {
                let chars = chars_of(s);
                let (from, to) = trim_bounds(&chars);
                let mut t: Vec<char> = Vec::new();
                let mut i: usize = from;
                while i < to
                    invariant
                        from <= i <= to <= chars@.len(),
                        t@ == chars@.subrange(from as int, i as int),
                    decreases to - i,
                {
                    t.push(chars[i]);
                    i = i + 1;
                    assert(t@ =~= chars@.subrange(from as int, i as int));
                }
                match parse_partial_exec(&t) {
                    Some(x) => Ok(x),
                    None => Err(e),
                }
            },
        }
    }

    /// The specifier as text: the version itself, or `3.x.x` and `3.9.x`.
    pub fn to_string(&self) -> (r: String)
        ensures
            r@ == specifier_text(self@),
    {
        match self {
            InputVersion::Full(v) => v.to_string(),
            InputVersion::Major(m) => {
                let mut s = String::new();
                write_u64(&mut s, *m);
                s.append(".x.x");
                s
            },
            InputVersion::MajorMinor(m, n) => {
                let mut s = String::new();
                write_u64(&mut s, *m);
                push_char(&mut s, '.');
                write_u64(&mut s, *n);
                s.append(".x");
                s
            },
        }
    }

    /// A copy of the specifier.
    pub fn clone_spec(&self) -> (r: InputVersion)
        ensures
            r@ == self@,
    {
        match self {
            InputVersion::Major(m) => InputVersion::Major(*m),
            InputVersion::MajorMinor(m, n) => InputVersion::MajorMinor(*m, *n),
            InputVersion::Full(v) => InputVersion::Full(v.duplicate()),
        }
    }

    /// Whether this specifier matches `version`.
    pub fn matches(&self, version: &PythonVersion) -> (r: bool)
        ensures
            r == spec_matches(self@, version@),
    {
        match (self, version) {
            (InputVersion::Full(a), b) => a.same(b),
            (_, PythonVersion::System) => false,
            (InputVersion::Major(major), PythonVersion::Semver(other)) => *major == other.major,
            (InputVersion::MajorMinor(major, minor), PythonVersion::Semver(other)) => {
                *major == other.major && *minor == other.minor
            },
        }
    }

    /// The greatest of `available_versions` that this specifier matches.
    pub fn to_version(&self, available_versions: &Vec<PythonVersion>) -> (r: Option<
        PythonVersion,
    >)
        ensures
            r is Some <==> exists|i: int|
                0 <= i < available_versions@.len() && spec_matches(
                    self@,
                    #[trigger] available_versions@[i]@,
                ),
            r matches Some(v) ==> is_greatest_match(self@, version_views(available_versions@), v@),
    {
        let n = available_versions.len();
        if let InputVersion::Full(target) = self {
            let mut i: usize = 0;
            while i < n
                invariant
                    n == available_versions@.len(),
                    i <= n,
                    self@ == SpecifierView::Full(target@),
                    forall|k: int| 0 <= k < i ==> available_versions@[k]@ != target@,
                decreases n - i,
            {
                if available_versions[i].same(target) {
                    assert(version_views(available_versions@)[i as int] == target@);
                    return Some(target.duplicate());
                }
                i = i + 1;
            }
            return None;
        }
        let mut found: Vec<Release> = Vec::new();
        let ghost mut idx: Seq<int> = Seq::empty();
        let mut i: usize = 0;
        while i < n
            invariant
                n == available_versions@.len(),
                i <= n,
                !(self@ is Full),
                found@.len() == idx.len(),
                forall|k: int|
                    0 <= k < found@.len() ==> 0 <= #[trigger] idx[k] < n
                        && available_versions@[idx[k]]@ == VersionView::Release(found@[k]@),
                forall|k: int|
                    0 <= k < i && spec_matches(self@, #[trigger] available_versions@[k]@)
                        ==> exists|m: int|
                        0 <= m < found@.len() && available_versions@[k]@ == VersionView::Release(
                            #[trigger] found@[m]@,
                        ),
                forall|k: int| 0 <= k < found@.len() ==> spec_matches(self@, VersionView::Release(#[trigger] found@[k]@)),
            decreases n - i,
        {
            let ghost prev = found@;
            if self.matches(&available_versions[i]) {
                if let PythonVersion::Semver(r) = &available_versions[i] {
                    found.push(r.duplicate());
                    proof {
                        idx = idx.push(i as int);
                    }
                }
            }
            proof {
                assert forall|k: int|
                    0 <= k < i + 1 && spec_matches(
                        self@,
                        #[trigger] available_versions@[k]@,
                    ) implies exists|m: int|
                    0 <= m < found@.len() && available_versions@[k]@ == VersionView::Release(
                        #[trigger] found@[m]@,
                    ) by {
                    if k < i {
                        let m = choose|m: int|
                            0 <= m < prev.len() && available_versions@[k]@ == VersionView::Release(
                                #[trigger] prev[m]@,
                            );
                        assert(found@[m] == prev[m]);
                    } else {
                        let m = found@.len() - 1;
                        assert(available_versions@[k]@ == VersionView::Release(found@[m]@));
                    }
                }
            }
            i = i + 1;
        }
        if found.len() == 0 {
            return None;
        }
        let ghost before = found@;
        sort_releases(&mut found);
        proof {
            assert(release_views(found@).to_multiset().len() == release_views(found@).len());
            assert(release_views(before).to_multiset().len() == release_views(before).len());
        }
        let last = found.len() - 1;
        let best = found[last].duplicate();
        proof {
            let vb = release_views(before);
            let vf = release_views(found@);
            assert(vf[last as int] == best@);
            assert(vf.contains(best@));
            assert(vb.to_multiset().count(best@) > 0);
            assert(vb.contains(best@));
            let m = choose|m: int| 0 <= m < vb.len() && vb[m] == best@;
            assert(available_versions@[idx[m]]@ == VersionView::Release(best@));
            assert(version_views(available_versions@)[idx[m]] == VersionView::Release(best@));
            assert forall|k: int|
                0 <= k < n && spec_matches(
                    self@,
                    #[trigger] version_views(available_versions@)[k],
                ) implies version_le(version_views(available_versions@)[k], VersionView::Release(best@)) by {
                assert(version_views(available_versions@)[k] == available_versions@[k]@);
                assert(spec_matches(self@, available_versions@[k]@));
                let m = choose|m: int|
                    0 <= m < before.len() && available_versions@[k]@ == VersionView::Release(
                        #[trigger] before[m]@,
                    );
                assert(vb[m] == before[m]@);
                assert(vb.contains(before[m]@));
                assert(vb.to_multiset().count(before[m]@) > 0);
                assert(vf.to_multiset().count(before[m]@) > 0);
                assert(vf.contains(before[m]@));
                let j = choose|j: int| 0 <= j < vf.len() && vf[j] == before[m]@;
                if j < last {
                    assert(triple_le(found@[j]@, found@[last as int]@));
                    assert(!semver_precedes(found@[last as int]@, found@[j]@));
                }
            }
        }
        Some(PythonVersion::Semver(best))
    }
}

} // verus!
