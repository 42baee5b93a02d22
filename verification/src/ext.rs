use vstd::prelude::*;
use vstd::string::*;

verus! {

/// A usable canonical extension: nonempty, and free of the two characters
/// that path resolution gives a meaning to.
pub open spec fn valid_ext(e: Seq<char>) -> bool {
    &&& e.len() > 0
    &&& forall|i: int| 0 <= i < e.len() ==> e[i] != '.' && e[i] != '/'
}

/// The path without its trailing separators: `"dir/"` names the same file
/// as `"dir"`.
pub open spec fn strip_seps(p: Seq<char>) -> Seq<char>
    decreases p.len(),
{
    if p.len() > 0 && p.last() == '/' {
        strip_seps(p.drop_last())
    } else {
        p
    }
}

/// Index where the file-name part of `p` begins: one past the last `/`,
/// or `0` when the path has no separator.
pub open spec fn name_start(p: Seq<char>) -> int
    decreases p.len(),
{
    if p.len() == 0 {
        0
    } else if p[p.len() - 1] == '/' {
        p.len() as int
    } else {
        name_start(p.drop_last())
    }
}

/// The last index `j >= k` with `p[j] == '.'`, if any.
pub open spec fn last_dot_from(p: Seq<char>, k: int) -> Option<int>
    decreases p.len() - k,
{
    if k < 0 || k >= p.len() {
        None
    } else {
        match last_dot_from(p, k + 1) {
            Some(j) => Some(j),
            None => if p[k] == '.' {
                Some(k)
            } else {
                None
            },
        }
    }
}

/// Where the stem of `p` ends: at the last `.` that lies strictly inside the
/// file-name part, or at the end of `p` when the file name has no extension.
/// A file name whose only `.` is its first character counts as having no
/// extension.
pub open spec fn stem_end(p: Seq<char>) -> int {
    match last_dot_from(p, name_start(p) + 1) {
        Some(j) => j,
        None => p.len() as int,
    }
}

/// The path without its extension.
pub open spec fn spec_stem(p: Seq<char>) -> Seq<char> {
    p.subrange(0, stem_end(p))
}

/// The resolution policy: ignore trailing separators, strip any extension
/// from the file-name part of `p`, and append `.` followed by the
/// canonical extension. A path with no file-name part at all (empty, or
/// separators only) names no file and is returned unchanged. The model
/// works on characters alone, so a `.` or `..` component in file-name
/// position is treated as an ordinary file name.
pub open spec fn spec_resolve(p: Seq<char>, ext: Seq<char>) -> Seq<char> {
    if strip_seps(p).len() == 0 {
        p
    } else {
        spec_stem(strip_seps(p)) + seq!['.'] + ext
    }
}

proof fn lemma_strip_seps_last(p: Seq<char>)
    ensures
        strip_seps(p).len() > 0 ==> strip_seps(p).last() != '/',
    decreases p.len(),
{
    if p.len() > 0 && p.last() == '/' {
        lemma_strip_seps_last(p.drop_last());
    }
}

proof fn lemma_strip_seps_prefix(p: Seq<char>, t: int)
    requires
        0 <= t <= p.len(),
        forall|k: int| t <= k < p.len() ==> p[k] == '/',
        t > 0 ==> p[t - 1] != '/',
    ensures
        strip_seps(p) == p.subrange(0, t),
    decreases p.len(),
{
    if t < p.len() {
        assert(p.last() == '/');
        assert forall|k: int| t <= k < p.drop_last().len() implies p.drop_last()[k] == '/' by {
            assert(p.drop_last()[k] == p[k]);
        }
        assert(t > 0 ==> p.drop_last()[t - 1] == p[t - 1]);
        lemma_strip_seps_prefix(p.drop_last(), t);
        assert(p.drop_last().subrange(0, t) =~= p.subrange(0, t));
    } else {
        assert(p.subrange(0, t) =~= p);
    }
}

pub proof fn lemma_name_start_bounds(p: Seq<char>)
    ensures
        0 <= name_start(p) <= p.len(),
        name_start(p) > 0 ==> p[name_start(p) - 1] == '/',
        forall|j: int| name_start(p) <= j < p.len() ==> p[j] != '/',
    decreases p.len(),
{
    if p.len() > 0 && p[p.len() - 1] != '/' {
        lemma_name_start_bounds(p.drop_last());
        assert forall|j: int| name_start(p) <= j < p.len() implies p[j] != '/' by {
            if j < p.len() - 1 {
                assert(p.drop_last()[j] == p[j]);
            }
        }
    }
}

pub proof fn lemma_name_start_unique(p: Seq<char>, k: int)
    requires
        0 <= k <= p.len(),
        k > 0 ==> p[k - 1] == '/',
        forall|j: int| k <= j < p.len() ==> p[j] != '/',
    ensures
        name_start(p) == k,
    decreases p.len(),
{
    if p.len() == 0 {
    } else if p[p.len() - 1] == '/' {
        assert(k == p.len());
    } else {
        assert(k < p.len());
        assert forall|j: int| k <= j < p.drop_last().len() implies p.drop_last()[j] != '/' by {
            assert(p.drop_last()[j] == p[j]);
        }
        lemma_name_start_unique(p.drop_last(), k);
    }
}

pub proof fn lemma_last_dot_some(p: Seq<char>, k: int)
    requires
        last_dot_from(p, k) is Some,
    ensures
        last_dot_from(p, k) matches Some(j) ==> {
            &&& k <= j < p.len()
            &&& p[j] == '.'
            &&& forall|j2: int| j < j2 < p.len() ==> p[j2] != '.'
        },
    decreases p.len() - k,
{
    if 0 <= k < p.len() {
        if last_dot_from(p, k + 1) is Some {
            lemma_last_dot_some(p, k + 1);
        } else {
            lemma_last_dot_none(p, k + 1);
        }
    }
}

pub proof fn lemma_last_dot_none(p: Seq<char>, k: int)
    requires
        0 <= k,
        last_dot_from(p, k) is None,
    ensures
        forall|j: int| k <= j < p.len() ==> p[j] != '.',
    decreases p.len() - k,
{
    if 0 <= k < p.len() {
        lemma_last_dot_none(p, k + 1);
    }
}

pub proof fn lemma_last_dot_unique_some(p: Seq<char>, k: int, j: int)
    requires
        0 <= k <= j < p.len(),
        p[j] == '.',
        forall|j2: int| j < j2 < p.len() ==> p[j2] != '.',
    ensures
        last_dot_from(p, k) == Some(j),
    decreases p.len() - k,
{
    if k < j {
        lemma_last_dot_unique_some(p, k + 1, j);
    } else {
        lemma_last_dot_unique_none(p, k + 1);
    }
}

pub proof fn lemma_last_dot_unique_none(p: Seq<char>, k: int)
    requires
        forall|j: int| k <= j < p.len() ==> p[j] != '.',
    ensures
        last_dot_from(p, k) is None,
    decreases p.len() - k,
{
    if 0 <= k < p.len() {
        lemma_last_dot_unique_none(p, k + 1);
    }
}

/// Replace (or add) the extension on `path`, as [`spec_resolve`] describes.
pub fn replace_extension(path: &str, ext: &str) -> (r: String)
    ensures
        r@ == spec_resolve(path@, ext@),
{
    let n = path.unicode_len();
    // One past the last character that is not a separator.
    let mut t: usize = 0;
    let mut i: usize = 0;
    while i < n
        invariant
            n == path@.len(),
            i <= n,
            t <= i,
            t > 0 ==> path@[t - 1] != '/',
            forall|k: int| t <= k < i ==> path@[k] == '/',
        decreases n - i,
    {
        if path.get_char(i) != '/' {
            t = i + 1;
        }
        i += 1;
    }
    proof {
        lemma_strip_seps_prefix(path@, t as int);
    }
    if t == 0 {
        proof {
            assert(path@.subrange(0, 0) =~= Seq::<char>::empty());
        }
        return path.to_owned();
    }
    let stripped = path.substring_char(0, t);
    let mut fstart: usize = 0;
    let mut j: usize = 0;
    while j < t
        invariant
            t == stripped@.len(),
            j <= t,
            fstart <= j,
            fstart > 0 ==> stripped@[fstart - 1] == '/',
            forall|k: int| fstart <= k < j ==> stripped@[k] != '/',
        decreases t - j,
    {
        if stripped.get_char(j) == '/' {
            fstart = j + 1;
        }
        j += 1;
    }
    proof {
        lemma_name_start_unique(stripped@, fstart as int);
    }
    let mut stem_e: usize = t;
    let mut found = false;
    let mut k: usize = 0;
    while k < t
        invariant
            t == stripped@.len(),
            k <= t,
            fstart <= t,
            found ==> fstart < stem_e < k && stripped@[stem_e as int] == '.',
            found ==> forall|k2: int| stem_e < k2 < k ==> stripped@[k2] != '.',
            !found ==> stem_e == t,
            !found ==> forall|k2: int| fstart < k2 < k ==> stripped@[k2] != '.',
        decreases t - k,
    {
        if k > fstart && stripped.get_char(k) == '.' {
            stem_e = k;
            found = true;
        }
        k += 1;
    }
    proof {
        if found {
            lemma_last_dot_unique_some(stripped@, fstart as int + 1, stem_e as int);
        } else {
            lemma_last_dot_unique_none(stripped@, fstart as int + 1);
        }
        assert(stem_end(stripped@) == stem_e as int);
    }
    let stem = stripped.substring_char(0, stem_e);
    let mut r = stem.to_owned();
    r.append(".");
    r.append(ext);
    proof {
        reveal_strlit(".");
        assert("."@ =~= seq!['.']);
        assert(r@ =~= spec_resolve(path@, ext@));
    }
    r
}

/// The resolution policy is idempotent: resolving an already-resolved path
/// with the same format changes nothing, whatever the path was.
pub proof fn lemma_resolve_idempotent(p: Seq<char>, ext: Seq<char>)
    requires
        valid_ext(ext),
    ensures
        spec_resolve(spec_resolve(p, ext), ext) == spec_resolve(p, ext),
{
    let s = strip_seps(p);
    lemma_strip_seps_last(p);
    if s.len() > 0 {
        lemma_name_start_bounds(s.drop_last());
        assert(name_start(s) == name_start(s.drop_last()));
        let ns = name_start(s);
        lemma_name_start_bounds(s);
        let se = stem_end(s);
        if last_dot_from(s, ns + 1) is Some {
            lemma_last_dot_some(s, ns + 1);
        } else {
            lemma_last_dot_none(s, ns + 1);
        }
        assert(ns < se <= s.len());
        let stem = s.subrange(0, se);
        let r = spec_resolve(p, ext);
        assert(r == stem + seq!['.'] + ext);
        assert(r.len() == se + 1 + ext.len());
        assert forall|j: int| 0 <= j < se implies r[j] == s[j] by {}
        assert(r[se] == '.');
        assert forall|j: int| se < j < r.len() implies r[j] == ext[j - se - 1] by {}
        // The resolved path ends in the extension, so nothing strips off it.
        assert(r.last() == ext.last());
        assert(strip_seps(r) == r);
        // It has the same file-name start as the stripped path.
        assert forall|j: int| ns <= j < r.len() implies r[j] != '/' by {
            if j < se {
                assert(r[j] == s[j]);
            }
        }
        lemma_name_start_unique(r, ns);
        // Its last dot is exactly the one the resolution added.
        lemma_last_dot_unique_some(r, ns + 1, se);
        assert(stem_end(r) == se);
        assert(spec_stem(r) =~= stem);
        assert(spec_resolve(r, ext) == r);
    }
}

/// The substitution law: on a file name `name.ext1` the resolved path is
/// `name` followed by `.` and the canonical extension, whatever `ext1` was;
/// a bare `name` resolves to the same thing. `name` and `ext1` must be free
/// of `.` and `/`, and `name` nonempty: an `ext1` holding a dot, such as
/// `"a.b"`, would make `name.a` the stem.
pub proof fn lemma_resolve_substitution(name: Seq<char>, ext1: Seq<char>, ext: Seq<char>)
    requires
        valid_ext(ext),
        name.len() > 0,
        forall|i: int| 0 <= i < name.len() ==> name[i] != '.' && name[i] != '/',
        forall|i: int| 0 <= i < ext1.len() ==> ext1[i] != '.' && ext1[i] != '/',
    ensures
        spec_resolve(name + seq!['.'] + ext1, ext) == name + seq!['.'] + ext,
        spec_resolve(name, ext) == name + seq!['.'] + ext,
{
    let p = name + seq!['.'] + ext1;
    assert(p.len() == name.len() + 1 + ext1.len());
    assert forall|j: int| 0 <= j < name.len() implies p[j] == name[j] by {}
    assert(p[name.len() as int] == '.');
    assert forall|j: int| name.len() < j < p.len() implies p[j] == ext1[j - name.len() - 1] by {}
    assert forall|j: int| 0 <= j < p.len() implies p[j] != '/' by {}
    // Neither path ends in a separator, so stripping changes nothing.
    if ext1.len() > 0 {
        assert(p.last() == ext1[ext1.len() - 1]);
    } else {
        assert(p.last() == '.');
    }
    assert(strip_seps(p) == p);
    assert(strip_seps(name) == name);
    lemma_name_start_unique(p, 0);
    lemma_last_dot_unique_some(p, 1, name.len() as int);
    assert(stem_end(p) == name.len());
    assert(spec_stem(p) =~= name);
    assert(spec_resolve(p, ext) == name + seq!['.'] + ext);

    lemma_name_start_unique(name, 0);
    lemma_last_dot_unique_none(name, 1);
    assert(stem_end(name) == name.len());
    assert(spec_stem(name) =~= name);
}

} // verus!
