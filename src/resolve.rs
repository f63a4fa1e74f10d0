//! Resolution of the version to use: an explicit specifier, else the
//! nearest version file, else the `default` alias.

use vstd::prelude::*;
use crate::error::MamimiError;
use crate::input_version::{
    is_greatest_match, parse_specifier, spec_matches, version_views, InputVersion, SpecifierView,
};
use crate::text::{chars_of, string_of, trim, trim_bounds};
use crate::version::{PythonVersion, VersionView};

verus! {

/// A version file with something in it besides blanks.
pub open spec fn has_content(f: Option<String>) -> bool {
    f matches Some(t) && trim(t@).len() > 0
}

/// `i` is the nearest level, counting from the current directory up to the
/// root, whose version file has content.
pub open spec fn is_nearest(levels: Seq<Option<String>>, i: int) -> bool {
    0 <= i < levels.len() && has_content(levels[i]) && forall|k: int|
        0 <= k < i ==> !has_content(#[trigger] levels[k])
}

/// The level of the nearest version file with content.
pub fn nearest_version_file(levels: &Vec<Option<String>>) -> (r: Option<usize>)
    ensures
        match r {
            Some(i) => is_nearest(levels@, i as int),
            None => forall|k: int| 0 <= k < levels@.len() ==> !has_content(#[trigger] levels@[k]),
        },
{
    let mut i: usize = 0;
    while i < levels.len()
        invariant
            i <= levels@.len(),
            forall|k: int| 0 <= k < i ==> !has_content(#[trigger] levels@[k]),
        decreases levels@.len() - i,
    {
        if let Some(t) = &levels[i] {
            let chars = chars_of(t.as_str());
            let (a, b) = trim_bounds(&chars);
            if a < b {
                return Some(i);
            }
        }
        i = i + 1;
    }
    None
}

/// The specifier written in a version file: its content without blank
/// ends.
pub fn read_version_file(content: &str) -> (r: Result<InputVersion, MamimiError>)
    ensures
        match r {
            Ok(s) => parse_specifier(trim(content@)) == Some(s@),
            Err(e) => parse_specifier(trim(content@)) is None && e is MalformedVersion,
        },
{
    let chars = chars_of(content);
    let (a, b) = trim_bounds(&chars);
    let t = string_of(&chars, a, b);
    match InputVersion::from_str(t.as_str()) {
        Ok(s) => Ok(s),
        Err(_) => Err(MamimiError::MalformedVersion),
    }
}

/// The view of a resolution's result.
pub open spec fn result_view(r: Result<PythonVersion, MamimiError>) -> Result<VersionView, MamimiError> {
    match r {
        Ok(v) => Ok(v@),
        Err(e) => Err(e),
    }
}

/// The successful result `v`, with the exec version replaced by its view.
pub open spec fn result_view_ok(v: VersionView) -> Result<VersionView, MamimiError> {
    Ok(v)
}

/// What resolving `s` against `cands` may give: an exact specifier is its
/// own answer; a partial one gives the greatest candidate it matches, and
/// `VersionNotFound` exactly when it matches none.
pub open spec fn resolved_by(
    s: SpecifierView,
    cands: Seq<VersionView>,
    r: Result<VersionView, MamimiError>,
) -> bool {
    match s {
        SpecifierView::Full(v) => r == result_view_ok(v),
        _ => match r {
            Ok(x) => is_greatest_match(s, cands, x),
            Err(MamimiError::VersionNotFound { version }) => version@ == s && forall|i: int|
                0 <= i < cands.len() ==> !spec_matches(s, #[trigger] cands[i]),
            Err(_) => false,
        },
    }
}

/// The system interpreter matches no partial specifier, so resolving a
/// partial specifier never yields it, whatever the candidates.
pub proof fn lemma_system_never_matches_partial(s: SpecifierView, cands: Seq<VersionView>, v: VersionView)
    requires
        !(s is Full),
    ensures
        !spec_matches(s, VersionView::System),
        is_greatest_match(s, cands, v) ==> v != VersionView::System,
        resolved_by(s, cands, result_view_ok(v)) ==> v != VersionView::System,
{
}

/// Resolves a specifier against the candidate set of the calling operation.
pub fn resolve_specifier(spec: &InputVersion, candidates: &Vec<PythonVersion>) -> (r: Result<
    PythonVersion,
    MamimiError,
>)
    ensures
        resolved_by(spec@, version_views(candidates@), result_view(r)),
{
    match spec {
        InputVersion::Full(v) => Ok(v.duplicate()),
        _ => match spec.to_version(candidates) {
            Some(v) => Ok(v),
            None => {
                proof {
                    assert forall|i: int|
                        0 <= i < candidates@.len() implies !spec_matches(
                            spec@,
                            #[trigger] version_views(candidates@)[i],
                        ) by {
                        assert(version_views(candidates@)[i] == candidates@[i]@);
                    }
                }
                Err(MamimiError::VersionNotFound { version: spec.clone_spec() })
            },
        },
    }
}

/// What resolving may give: the explicit specifier decides where there is
/// one, else the nearest version file with content, else the `default`
/// alias; with none of them the version cannot be inferred.
pub open spec fn resolution(
    explicit: Option<SpecifierView>,
    files: Seq<Option<String>>,
    default_alias: Option<VersionView>,
    cands: Seq<VersionView>,
    r: Result<VersionView, MamimiError>,
) -> bool {
    match explicit {
        Some(s) => resolved_by(s, cands, r),
        None => match nearest_level(files) {
            Some(i) => match parse_specifier(trim(files[i]->0@)) {
                Some(s) => resolved_by(s, cands, r),
                None => r matches Err(e) && e is MalformedVersion,
            },
            None => match default_alias {
                Some(d) => r == result_view_ok(d),
                None => r matches Err(e) && e is CannotInferVersion,
            },
        },
    }
}

/// Resolves the version to use. `explicit` is what the caller gave;
/// `version_files` holds the content of the version file of the current
/// directory and of each ancestor up to the root, where there is one;
/// `default_alias` is the version the `default` alias points at; and
/// `candidates` is the candidate set of the calling operation.
pub fn resolve(
    explicit: Option<&InputVersion>,
    version_files: &Vec<Option<String>>,
    default_alias: Option<&PythonVersion>,
    candidates: &Vec<PythonVersion>,
) -> (r: Result<PythonVersion, MamimiError>)
    ensures
        resolution(
            match explicit {
                Some(s) => Some(s@),
                None => None,
            },
            version_files@,
            match default_alias {
                Some(d) => Some(d@),
                None => None,
            },
            version_views(candidates@),
            result_view(r),
        ),
{
    if let Some(s) = explicit {
        return resolve_specifier(s, candidates);
    }
    match nearest_version_file(version_files) {
        Some(i) => {
            proof {
                lemma_nearest_unique(version_files@, i as int);
            }
            let content = version_files[i].as_ref().unwrap();
            let s = read_version_file(content.as_str())?;
            resolve_specifier(&s, candidates)
        },
        None => {
            proof {
                lemma_nearest_none(version_files@);
            }
            match default_alias {
                Some(d) => Ok(d.duplicate()),
                None => Err(MamimiError::CannotInferVersion),
            }
        },
    }
}

/// The nearest level whose version file has content, if any.
pub open spec fn nearest_level(levels: Seq<Option<String>>) -> Option<int> {
    if exists|i: int| is_nearest(levels, i) {
        Some(choose|i: int| is_nearest(levels, i))
    } else {
        None
    }
}

pub(crate) proof fn lemma_nearest_unique(levels: Seq<Option<String>>, i: int)
    requires
        is_nearest(levels, i),
    ensures
        nearest_level(levels) == Some(i),
{
    let j = choose|j: int| is_nearest(levels, j);
    if j < i {
        assert(!has_content(levels[j]));
    } else if i < j {
        assert(!has_content(levels[i]));
    }
}

pub(crate) proof fn lemma_nearest_none(levels: Seq<Option<String>>)
    requires
        forall|k: int| 0 <= k < levels.len() ==> !has_content(#[trigger] levels[k]),
    ensures
        nearest_level(levels) is None,
{
    if exists|i: int| is_nearest(levels, i) {
        let j = choose|j: int| is_nearest(levels, j);
        assert(has_content(levels[j]));
    }
}

} // verus!
