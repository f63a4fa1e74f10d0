//! The list of installable versions, read from the mirror's HTML directory
//! listing.

use vstd::prelude::*;
use crate::error::MamimiError;
use crate::text::{chars_of, push_char, string_views};
use crate::version::{
    parse_version, release_views, semver_precedes, sort_releases, triple_le, PythonVersion,
    Release, ReleaseView, VersionView,
};

verus! {

broadcast use vstd::seq_lib::group_to_multiset_ensures;

/// The texts of the anchors of an HTML document, in document order.
pub uninterp spec fn anchors_of(html: Seq<char>) -> Seq<Seq<char>>;

/// Relies on `scraper::Html::parse_document`, `scraper::Selector::parse`,
/// `Html::select` and `ElementRef::inner_html`: the inner HTML of each `a`
/// element of the document, in document order. The selector `a` is valid, so
/// its parse does not fail.
#[verifier::external_body]
fn anchor_texts(html: &str) -> (r: Vec<String>)
    ensures
        string_views(r@) == anchors_of(html@),
{
    let doc = scraper::Html::parse_document(html);
    let sel = scraper::Selector::parse("a").unwrap();
    doc.select(&sel).map(|node| node.inner_html()).collect()
}

/// `s` without its `/` characters.
pub open spec fn without_slashes(s: Seq<char>) -> Seq<char>
    decreases s.len(),
{
    if s.len() == 0 {
        s
    } else {
        let p = without_slashes(s.drop_last());
        if s.last() == '/' {
            p
        } else {
            p.push(s.last())
        }
    }
}

/// The release a listing entry names, such as `3.9.6/`.
pub open spec fn entry_release(e: Seq<char>) -> Option<ReleaseView> {
    match parse_version(without_slashes(e)) {
        Some(VersionView::Release(r)) => Some(r),
        _ => None,
    }
}

/// `out` lists, in ascending order and once each, the releases named by the
/// entries of `entries` after the first.
pub open spec fn is_listing_of(entries: Seq<Seq<char>>, out: Seq<VersionView>) -> bool {
    &&& forall|i: int| 0 <= i < out.len() ==> #[trigger] out[i] is Release
    &&& forall|i: int, j: int|
        0 <= i < j < out.len() ==> out[i] != out[j] && triple_le(
            out[i]->Release_0,
            out[j]->Release_0,
        ) && !semver_precedes(#[trigger] out[j]->Release_0, #[trigger] out[i]->Release_0)
    &&& forall|r: ReleaseView|
        out.contains(VersionView::Release(r)) <==> exists|k: int|
            1 <= k < entries.len() && entry_release(#[trigger] entries[k]) == Some(r)
}

fn remove_slashes(s: &str) -> (r: String)
    ensures
        r@ == without_slashes(s@),
{
    let v = chars_of(s);
    let mut r = String::new();
    let mut i: usize = 0;
    while i < v.len()
        invariant
            i <= v@.len(),
            r@ == without_slashes(v@.subrange(0, i as int)),
        decreases v@.len() - i,
    {
        assert(v@.subrange(0, i + 1).drop_last() =~= v@.subrange(0, i as int));
        if v[i] != '/' {
            push_char(&mut r, v[i]);
        }
        i = i + 1;
    }
    assert(v@.subrange(0, v@.len() as int) =~= v@);
    r
}

/// The versions a listing names, from its anchors' texts: the first entry,
/// a header or parent link, is skipped, and so is every entry that does not
/// name a release once its `/` are removed. The result is in ascending order,
/// each version once.
pub fn versions_from_listing(entries: &Vec<String>) -> (r: Vec<PythonVersion>)
    ensures
        is_listing_of(string_views(entries@), crate::input_version::version_views(r@)),
{
    let ghost ev = string_views(entries@);
    let mut found: Vec<Release> = Vec::new();
    let ghost mut origin: Seq<int> = Seq::empty();
    let mut i: usize = 1;
    while i < entries.len()
        invariant
            ev == string_views(entries@),
            1 <= i,
            i <= entries@.len() || i == 1,
            origin.len() == found@.len(),
            forall|m: int|
                0 <= m < found@.len() ==> 1 <= #[trigger] origin[m] < i && entry_release(
                    ev[origin[m]],
                ) == Some(found@[m]@),
            forall|k: int|
                1 <= k < i && #[trigger] entry_release(ev[k]) is Some ==> release_views(
                    found@,
                ).contains(entry_release(ev[k])->0),
        decreases entries@.len() - i,
    {
        let ghost prev = found@;
        let name = remove_slashes(entries[i].as_str());
        assert(ev[i as int] == entries@[i as int]@);
        match PythonVersion::parse(name.as_str()) {
            Ok(PythonVersion::Semver(r)) => {
                found.push(r);
                proof {
                    origin = origin.push(i as int);
                }
            },
            _ => {},
        }
        proof {
            assert forall|m: int| 0 <= m < found@.len() implies 1 <= #[trigger] origin[m] < i + 1
                && entry_release(ev[origin[m]]) == Some(found@[m]@) by {
                if m < prev.len() {
                    assert(found@[m] == prev[m]);
                }
            }
            assert forall|k: int|
                1 <= k < i + 1 && #[trigger] entry_release(ev[k]) is Some implies release_views(
                found@,
            ).contains(entry_release(ev[k])->0) by {
                if k < i {
                    let w = entry_release(ev[k])->0;
                    let m = choose|m: int| 0 <= m < prev.len() && release_views(prev)[m] == w;
                    assert(release_views(found@)[m] == w);
                } else {
                    assert(release_views(found@)[found@.len() - 1] == entry_release(ev[k])->0);
                }
            }
        }
        i = i + 1;
    }
    let ghost before = found@;
    assert(ev.len() == entries@.len());
    proof {
        if entries@.len() == 0 {
            if before.len() > 0 {
                assert(1 <= origin[0] < i);
            }
            assert(before.len() == 0);
        } else {
            assert(i == entries@.len());
        }
    }
    assert(forall|m: int|
        0 <= m < before.len() ==> 1 <= #[trigger] origin[m] < ev.len() && entry_release(
            ev[origin[m]],
        ) == Some(before[m]@));
    sort_releases(&mut found);
    proof {
        assert(release_views(found@).to_multiset().len() == release_views(found@).len());
        assert(release_views(before).to_multiset().len() == release_views(before).len());
    }
    let mut out: Vec<PythonVersion> = Vec::new();
    let ghost mut src: Seq<int> = Seq::empty();
    let mut j: usize = 0;
    while j < found.len()
        invariant
            j <= found@.len(),
            origin.len() == before.len(),
            forall|m: int|
                0 <= m < before.len() ==> 1 <= #[trigger] origin[m] < ev.len() && entry_release(
                    ev[origin[m]],
                ) == Some(before[m]@),
            out@.len() == src.len(),
            forall|a: int| 0 <= a < out@.len() ==> 0 <= #[trigger] src[a] < j && out@[a]@ == VersionView::Release(found@[src[a]]@),
            forall|a: int, b: int| 0 <= a < b < out@.len() ==> #[trigger] src[a] < #[trigger] src[b],
            forall|a: int, b: int| 0 <= a < b < out@.len() ==> #[trigger] out@[a]@ != #[trigger] out@[b]@,
            forall|c: int| 0 <= c < j ==> exists|a: int| 0 <= a < out@.len() && #[trigger] out@[a]@ == VersionView::Release(#[trigger] found@[c]@),
            forall|i1: int, i2: int|
                0 <= i1 < i2 < found@.len() ==> triple_le(found@[i1]@, found@[i2]@)
                    && !semver_precedes(#[trigger] found@[i2]@, #[trigger] found@[i1]@),
        decreases found@.len() - j,
    {
        let mut seen = false;
        let mut a: usize = 0;
        while a < out.len()
            invariant
                a <= out@.len(),
                j < found@.len(),
                !seen ==> forall|b: int| 0 <= b < a ==> #[trigger] out@[b]@ != VersionView::Release(found@[j as int]@),
                seen ==> exists|b: int| 0 <= b < out@.len() && #[trigger] out@[b]@ == VersionView::Release(found@[j as int]@),
            decreases out@.len() - a,
        {
            if !seen {
                if let PythonVersion::Semver(x) = &out[a] {
                    if x.same(&found[j]) {
                        seen = true;
                        assert(out@[a as int]@ == VersionView::Release(found@[j as int]@));
                    }
                }
            }
            a = a + 1;
        }
        let ghost prev = out@;
        if !seen {
            out.push(PythonVersion::Semver(found[j].duplicate()));
            proof {
                src = src.push(j as int);
            }
        }
        proof {
            assert forall|c: int| 0 <= c < j + 1 implies exists|a: int| 0 <= a < out@.len() && #[trigger] out@[a]@ == VersionView::Release(#[trigger] found@[c]@) by {
                if c < j {
                    let a = choose|a: int| 0 <= a < prev.len() && #[trigger] prev[a]@ == VersionView::Release(found@[c]@);
                    assert(out@[a] == prev[a]);
                } else if seen {
                    let a = choose|a: int| 0 <= a < prev.len() && #[trigger] prev[a]@ == VersionView::Release(found@[j as int]@);
                    assert(out@[a] == prev[a]);
                } else {
                    assert(out@[prev.len() as int]@ == VersionView::Release(found@[c]@));
                }
            }
        }
        j = j + 1;
    }
    proof {
        let ov = crate::input_version::version_views(out@);
        assert forall|x: int| 0 <= x < ov.len() implies #[trigger] ov[x] is Release by {
            assert(ov[x] == out@[x]@);
            assert(0 <= src[x]);
        }
        assert forall|x: int, y: int| 0 <= x < y < ov.len() implies ov[x] != ov[y] && triple_le(
            ov[x]->Release_0,
            ov[y]->Release_0,
        ) && !semver_precedes(#[trigger] ov[y]->Release_0, #[trigger] ov[x]->Release_0) by {
            assert(ov[x] == out@[x]@);
            assert(ov[y] == out@[y]@);
            assert(src[x] < src[y]);
        }
        assert forall|r: ReleaseView| ov.contains(VersionView::Release(r)) implies exists|k: int|
            1 <= k < ev.len() && entry_release(#[trigger] ev[k]) == Some(r) by {
            let x = choose|x: int| 0 <= x < ov.len() && ov[x] == VersionView::Release(r);
            assert(ov[x] == out@[x]@);
            let c = src[x];
            assert(0 <= c < found@.len());
            assert(release_views(found@)[c] == r);
            assert(release_views(found@).contains(r));
            assert(release_views(found@).to_multiset().count(r) > 0);
            assert(release_views(before).to_multiset().count(r) > 0);
            assert(release_views(before).contains(r));
            let m = choose|m: int| 0 <= m < before.len() && release_views(before)[m] == r;
            assert(before[m]@ == r);
            let k = origin[m];
            assert(1 <= k < ev.len());
            assert(entry_release(ev[k]) == Some(r));
        }
        assert forall|r: ReleaseView| (exists|k: int|
            1 <= k < ev.len() && entry_release(#[trigger] ev[k]) == Some(r)) implies ov.contains(VersionView::Release(r)) by {
            let k = choose|k: int| 1 <= k < ev.len() && entry_release(#[trigger] ev[k]) == Some(r);
            assert(release_views(before).contains(r));
            assert(release_views(before).to_multiset().count(r) > 0);
            assert(release_views(found@).to_multiset().count(r) > 0);
            assert(release_views(found@).contains(r));
            let c = choose|c: int| 0 <= c < found@.len() && release_views(found@)[c] == r;
            assert(found@[c]@ == r);
            let a = choose|a: int| 0 <= a < out@.len() && #[trigger] out@[a]@ == VersionView::Release(found@[c]@);
            assert(ov[a] == VersionView::Release(r));
        }
    }
    out
}

/// The installable versions that a mirror's HTML listing names, in
/// ascending order and each once; `EmptyIndex` where it names none.
pub fn list_from_html(html: &str) -> (r: Result<Vec<PythonVersion>, MamimiError>)
    ensures
        match r {
            Ok(v) => v@.len() > 0 && is_listing_of(anchors_of(html@), crate::input_version::version_views(v@)),
            Err(e) => e is EmptyIndex && is_listing_of(anchors_of(html@), Seq::empty()),
        },
{
    let entries = anchor_texts(html);
    let v = versions_from_listing(&entries);
    if v.len() == 0 {
        assert(crate::input_version::version_views(v@) =~= Seq::empty());
        Err(MamimiError::EmptyIndex)
    } else {
        Ok(v)
    }
}

} // verus!
