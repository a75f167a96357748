use vstd::prelude::*;
use crate::texts;

verus! {

/// What `str::to_lowercase` makes of a text.
pub uninterp spec fn lower_of(s: Seq<char>) -> Seq<char>;

/// Relies on `str::to_lowercase`: the lowercase form of a text depends on its
/// characters alone.
#[verifier::external_body]
fn lowercase(s: &str) -> (r: String)
    ensures
        r@ == lower_of(s@),
{
    s.to_lowercase()
}

/// `p` occurs in `s` as a run of consecutive characters.
pub open spec fn contains(s: Seq<char>, p: Seq<char>) -> bool {
    exists|i: int| 0 <= i && i + p.len() <= s.len() && #[trigger] s.subrange(i, i + p.len()) == p
}

/// A tag of the 2.x release line: its first character is `2`.
pub open spec fn is_major_two(tag: Seq<char>) -> bool {
    tag.len() > 0 && tag[0] == '2'
}

/// A lowercased tag that names a release candidate, an alpha or a beta.
pub open spec fn marks_pre_release(lowered: Seq<char>) -> bool {
    contains(lowered, "rc"@) || contains(lowered, "alpha"@) || contains(lowered, "beta"@)
}

/// Whether a tag, given with its lowercase form, is offered as a version.
pub open spec fn keeps_tag(tag: Seq<char>, lowered: Seq<char>, allow_pre_releases: bool) -> bool {
    is_major_two(tag) && (allow_pre_releases || !marks_pre_release(lowered))
}

/// The tags that are offered as versions, in their order.
pub open spec fn installable(tags: Seq<Seq<char>>, allow_pre_releases: bool) -> Seq<Seq<char>>
    decreases tags.len(),
{
    if tags.len() == 0 {
        Seq::empty()
    } else {
        let rest = installable(tags.drop_last(), allow_pre_releases);
        let tag = tags.last();
        if keeps_tag(tag, lower_of(tag), allow_pre_releases) {
            rest.push(tag)
        } else {
            rest
        }
    }
}

fn occurs_at(s: &str, p: &str, at: usize) -> (r: bool)
    requires
        at + p@.len() <= s@.len(),
    ensures
        r == (s@.subrange(at as int, at + p@.len()) == p@),
{
    let n = s.unicode_len();
    let m = p.unicode_len();
    let mut j: usize = 0;
    while j < m
        invariant
            m == p@.len(),
            n == s@.len(),
            at + m <= n,
            j <= m,
            forall|k: int| 0 <= k < j ==> s@[at + k] == p@[k],
        decreases m - j,
    {
        if s.get_char(at + j) != p.get_char(j) {
            assert(s@.subrange(at as int, at + m)[j as int] != p@[j as int]);
            return false;
        }
        j = j + 1;
    }
    assert(s@.subrange(at as int, at + m) =~= p@);
    true
}

/// Whether `p` occurs in `s`.
pub fn contains_text(s: &str, p: &str) -> (r: bool)
    ensures
        r == contains(s@, p@),
{
    let n = s.unicode_len();
    let m = p.unicode_len();
    if m > n {
        return false;
    }
    if m == 0 {
        assert(s@.subrange(0, 0 + p@.len() as int) =~= p@);
        return true;
    }
    let mut i: usize = 0;
    while i <= n - m
        invariant
            n == s@.len(),
            m == p@.len(),
            0 < m <= n,
            i <= n - m + 1,
            forall|k: int| 0 <= k < i ==> #[trigger] s@.subrange(k, k + m) != p@,
        decreases n - m + 1 - i,
    {
        if occurs_at(s, p, i) {
            return true;
        }
        i = i + 1;
    }
    assert forall|k: int| 0 <= k && k + m <= n implies #[trigger] s@.subrange(k, k + m) != p@ by {
        assert(k < i);
    }
    false
}

/// Whether `tag` is offered as a version, given `lowered`, its lowercase form:
/// it must start with `2`, and unless pre-releases are allowed, `lowered` must
/// not contain `rc`, `alpha` or `beta`.
pub fn is_installable_tag(tag: &str, lowered: &str, allow_pre_releases: bool) -> (r: bool)
    ensures
        r == keeps_tag(tag@, lowered@, allow_pre_releases),
{
    if tag.unicode_len() == 0 || tag.get_char(0) != '2' {
        return false;
    }
    if allow_pre_releases {
        return true;
    }
    !(contains_text(lowered, "rc") || contains_text(lowered, "alpha") || contains_text(lowered, "beta"))
}

/// The versions offered from a list of release tags: the tags of the 2.x line,
/// without pre-releases unless they are allowed, unchanged and in their order.
pub fn load_versions(tags: &Vec<String>, allow_pre_releases: bool) -> (r: Vec<String>)
    ensures
        texts(r@) == installable(texts(tags@), allow_pre_releases),
        forall|i: int| 0 <= i < r.len() ==> is_major_two(#[trigger] r@[i]@),
        forall|i: int| 0 <= i < r.len() ==> !(r@[i]@.len() > 0 && #[trigger] r@[i]@[0] == '1'),
{
    let mut out: Vec<String> = Vec::new();
    let mut i: usize = 0;
    while i < tags.len()
        invariant
            i <= tags.len(),
            texts(out@) == installable(texts(tags@).take(i as int), allow_pre_releases),
            forall|k: int| 0 <= k < out.len() ==> is_major_two(#[trigger] out@[k]@),
        decreases tags.len() - i,
    {
        let tag = &tags[i];
        let lowered = lowercase(tag.as_str());
        proof {
            assert(texts(tags@).take(i + 1).drop_last() =~= texts(tags@).take(i as int));
            assert(texts(tags@).take(i + 1).last() == tag@);
        }
        if is_installable_tag(tag.as_str(), lowered.as_str(), allow_pre_releases) {
            out.push(tag.clone());
            assert(texts(out@) =~= installable(texts(tags@).take(i + 1), allow_pre_releases));
        }
        i = i + 1;
    }
    assert(texts(tags@).take(tags.len() as int) =~= texts(tags@));
    out
}

/// A version as it was asked for: an alias such as `stable`, or anything else
/// (a version, a range), as text.
pub enum UnresolvedVersion {
    Alias(String),
    Other(String),
}

/// The candidate that an alias resolves to: `latest` for `lts` and `stable`.
pub open spec fn alias_candidate(initial: UnresolvedVersion) -> Option<Seq<char>> {
    match initial {
        UnresolvedVersion::Alias(a) => if a@ == "lts"@ || a@ == "stable"@ {
            Some("latest"@)
        } else {
            None
        },
        UnresolvedVersion::Other(_) => None,
    }
}

/// Maps the aliases `lts` and `stable` onto `latest`; every other request
/// gets no candidate.
pub fn resolve_version(initial: &UnresolvedVersion) -> (r: Option<String>)
    ensures
        crate::text_of(r) == alias_candidate(*initial),
        *initial is Other ==> r is None,
{
    match initial {
        UnresolvedVersion::Alias(alias) => {
            if *alias == String::from_str("lts") || *alias == String::from_str("stable") {
                Some(String::from_str("latest"))
            } else {
                None
            }
        },
        UnresolvedVersion::Other(_) => None,
    }
}

} // verus!
