//! Decisions of a combined asset source: routing a load between a custom
//! entry and an inherited source, and merging a custom entry into a
//! directory listing, sorted and deduplicated.
//!
//! The byte fetching itself is I/O owned by the host application; these
//! functions decide, from plain path strings, what that I/O must do.

use vstd::prelude::*;
use vstd::string::StrSliceExecFns;

verus! {

/// Whether `prefix` is a prefix of `s`.
pub open spec fn spec_is_prefix(prefix: Seq<char>, s: Seq<char>) -> bool {
    prefix.len() <= s.len() && s.subrange(0, prefix.len() as int) == prefix
}

/// Whether `s` starts with `prefix`.
pub fn starts_with(s: &str, prefix: &str) -> (r: bool)
    ensures
        r == spec_is_prefix(prefix@, s@),
{
    let n = prefix.unicode_len();
    let m = s.unicode_len();
    if n > m {
        proof {
            assert(!spec_is_prefix(prefix@, s@));
        }
        return false;
    }
    let mut i: usize = 0;
    while i < n
        invariant
            i <= n <= m,
            n == prefix@.len(),
            m == s@.len(),
            forall|j: int| 0 <= j < i ==> s@[j] == prefix@[j],
        decreases n - i,
    {
        if s.get_char(i) != prefix.get_char(i) {
            proof {
                assert(s@.subrange(0, n as int)[i as int] != prefix@[i as int]);
            }
            return false;
        }
        i += 1;
    }
    proof {
        assert(s@.subrange(0, n as int) =~= prefix@);
    }
    true
}

/// Whether two path strings hold the same characters.
pub fn str_equal(a: &str, b: &str) -> (r: bool)
    ensures
        r == (a@ == b@),
{
    let n = a.unicode_len();
    let m = b.unicode_len();
    if n != m {
        return false;
    }
    proof {
        assert(a@.subrange(0, m as int) =~= a@);
    }
    starts_with(a, b)
}

/// What a combined asset source must do for one load request, given the
/// requested path and the path of the bundled custom entry.
#[derive(Debug, Clone, Copy, PartialEq, Eq)]
pub enum LoadRoute {
    /// The request names nothing: answer that no asset backs it.
    Missing,
    /// The request names the custom entry: serve its bundled bytes.
    Custom,
    /// Anything else: hand the request to the inherited source.
    Inherited,
}

/// Decides a load request: an empty path is missing, the custom entry's own
/// path is served from the bundle, and every other path is inherited.
pub fn route_load(path: &str, custom: &str) -> (r: LoadRoute)
    ensures
        r is Missing <==> path@.len() == 0,
        r is Custom <==> (path@.len() > 0 && path@ == custom@),
        r is Inherited <==> (path@.len() > 0 && path@ != custom@),
{
    if path.unicode_len() == 0 {
        LoadRoute::Missing
    } else if str_equal(path, custom) {
        LoadRoute::Custom
    } else {
        LoadRoute::Inherited
    }
}

/// Whether a listing of `query` must include the custom entry: true exactly
/// when one of `query` and the custom entry's directory is a prefix of the
/// other.
pub fn should_list_custom(custom_dir: &str, query: &str) -> (r: bool)
    ensures
        r == (spec_is_prefix(query@, custom_dir@) || spec_is_prefix(custom_dir@, query@)),
{
    starts_with(custom_dir, query) || starts_with(query, custom_dir)
}

/// Lexicographic order on paths, by character: the order a plain sort of
/// path strings lists a directory in.
pub open spec fn spec_lex_le(a: Seq<char>, b: Seq<char>) -> bool
    decreases a.len(),
{
    if a.len() == 0 {
        true
    } else if b.len() == 0 {
        false
    } else if a[0] == b[0] {
        spec_lex_le(a.skip(1), b.skip(1))
    } else {
        a[0] < b[0]
    }
}

/// The order is reflexive.
pub proof fn lemma_lex_le_refl(a: Seq<char>)
    ensures
        spec_lex_le(a, a),
    decreases a.len(),
{
    if a.len() > 0 {
        lemma_lex_le_refl(a.skip(1));
    }
}

/// The order is total: of any two paths, one is less-or-equal the other.
pub proof fn lemma_lex_le_total(a: Seq<char>, b: Seq<char>)
    ensures
        spec_lex_le(a, b) || spec_lex_le(b, a),
    decreases a.len(),
{
    if a.len() > 0 && b.len() > 0 && a[0] == b[0] {
        lemma_lex_le_total(a.skip(1), b.skip(1));
    }
}

/// The order is transitive.
pub proof fn lemma_lex_le_trans(a: Seq<char>, b: Seq<char>, c: Seq<char>)
    requires
        spec_lex_le(a, b),
        spec_lex_le(b, c),
    ensures
        spec_lex_le(a, c),
    decreases a.len(),
{
    if a.len() > 0 && b.len() > 0 && c.len() > 0 && a[0] == b[0] && b[0] == c[0] {
        lemma_lex_le_trans(a.skip(1), b.skip(1), c.skip(1));
    }
}

/// The order is antisymmetric: mutually less-or-equal paths are equal.
pub proof fn lemma_lex_le_antisym(a: Seq<char>, b: Seq<char>)
    requires
        spec_lex_le(a, b),
        spec_lex_le(b, a),
    ensures
        a == b,
    decreases a.len(),
{
    if a.len() > 0 && b.len() > 0 {
        if a[0] != b[0] {
            assert(a[0] < b[0]);
            assert(b[0] < a[0]);
        }
        lemma_lex_le_antisym(a.skip(1), b.skip(1));
        assert(a.skip(1).len() == b.skip(1).len());
        assert forall|i: int| 0 <= i < a.len() implies a[i] == b[i] by {
            if i > 0 {
                assert(a[i] == a.skip(1)[i - 1]);
                assert(b[i] == b.skip(1)[i - 1]);
            }
        }
        assert(a =~= b);
    } else {
        assert(a =~= b);
    }
}

/// Skipping a shared prefix does not change how two paths compare.
proof fn lemma_lex_le_skip(a: Seq<char>, b: Seq<char>, i: int)
    requires
        0 <= i <= a.len(),
        i <= b.len(),
        forall|j: int| 0 <= j < i ==> a[j] == b[j],
    ensures
        spec_lex_le(a, b) == spec_lex_le(a.skip(i), b.skip(i)),
    decreases i,
{
    if i > 0 {
        assert(a[0] == b[0]);
        assert forall|j: int| 0 <= j < i - 1 implies a.skip(1)[j] == b.skip(1)[j] by {
            assert(a.skip(1)[j] == a[j + 1]);
            assert(b.skip(1)[j] == b[j + 1]);
            assert(a[j + 1] == b[j + 1]);
        }
        lemma_lex_le_skip(a.skip(1), b.skip(1), i - 1);
        assert(a.skip(1).skip(i - 1) =~= a.skip(i));
        assert(b.skip(1).skip(i - 1) =~= b.skip(i));
    } else {
        assert(a.skip(0) =~= a);
        assert(b.skip(0) =~= b);
    }
}

/// Whether `a` comes at or before `b` in lexicographic path order.
pub fn lex_le(a: &str, b: &str) -> (r: bool)
    ensures
        r == spec_lex_le(a@, b@),
{
    let a_len = a.unicode_len();
    let b_len = b.unicode_len();
    let mut i: usize = 0;
    loop
        invariant
            i <= a_len,
            i <= b_len,
            a_len == a@.len(),
            b_len == b@.len(),
            forall|j: int| 0 <= j < i ==> a@[j] == b@[j],
        decreases a_len - i,
    {
        proof {
            lemma_lex_le_skip(a@, b@, i as int);
        }
        if i == a_len {
            return true;
        }
        if i == b_len {
            return false;
        }
        let ca = a.get_char(i);
        let cb = b.get_char(i);
        if ca != cb {
            proof {
                assert(a@.skip(i as int)[0] == a@[i as int]);
                assert(b@.skip(i as int)[0] == b@[i as int]);
            }
            return ca < cb;
        }
        i += 1;
    }
}

/// Whether some element of `v` holds the characters `x`.
pub open spec fn spec_contains_path(v: Seq<String>, x: Seq<char>) -> bool {
    exists|i: int| 0 <= i < v.len() && v[i]@ == x
}

/// Sorted with no two elements equal: the shape of a directory listing.
pub open spec fn spec_strictly_sorted(v: Seq<String>) -> bool {
    forall|i: int, j: int|
        0 <= i < j < v.len() ==> spec_lex_le(v[i]@, v[j]@) && v[i]@ != v[j]@
}

/// Inserts `s` into a sorted, duplicate-free vector, keeping it so: the
/// element lands at its ordered position, or nowhere if already present.
fn insert_unique(out: &mut Vec<String>, s: String)
    requires
        spec_strictly_sorted(old(out)@),
    ensures
        spec_strictly_sorted(final(out)@),
        forall|x: Seq<char>|
            spec_contains_path(final(out)@, x) <==> (spec_contains_path(old(out)@, x) || x
                == s@),
{
    let mut p: usize = 0;
    loop
        invariant
            p <= out.len(),
            spec_strictly_sorted(out@),
            out@ == old(out)@,
            forall|j: int| 0 <= j < p ==> spec_lex_le(out@[j]@, s@) && out@[j]@ != s@,
        ensures
            p <= out.len(),
            out@ == old(out)@,
            forall|j: int| 0 <= j < p ==> spec_lex_le(out@[j]@, s@) && out@[j]@ != s@,
            p == out.len() || !spec_lex_le(out@[p as int]@, s@),
        decreases out.len() - p,
    {
        if p == out.len() {
            break;
        }
        if !lex_le(&out[p], &s) {
            break;
        }
        if str_equal(&out[p], &s) {
            proof {
                assert(out@[p as int]@ == s@);
                assert(spec_contains_path(old(out)@, s@));
            }
            return;
        }
        p += 1;
    }
    let ghost before = out@;
    proof {
        assert forall|j: int| p <= j < before.len() implies spec_lex_le(s@, before[j]@) && s@
            != before[j]@ by {
            lemma_lex_le_total(before[p as int]@, s@);
            if s@ == before[j]@ {
                lemma_lex_le_refl(s@);
                if j > p {
                    assert(spec_lex_le(before[p as int]@, before[j]@));
                }
                assert(spec_lex_le(before[p as int]@, s@));
                assert(false);
            }
            if j > p {
                lemma_lex_le_trans(s@, before[p as int]@, before[j]@);
            }
        }
    }
    out.insert(p, s);
    proof {
        let ghost expanded = before.subrange(0, p as int).push(s) + before.subrange(
            p as int,
            before.len() as int,
        );
        assert(out@ == expanded);
        assert forall|m: int|
            0 <= m < out@.len() implies (#[trigger] out@[m])@ == (if m < p {
                before[m]@
            } else if m == p {
                s@
            } else {
                before[m - 1]@
            }) by {
            if m < p {
                assert(expanded[m] == before.subrange(0, p as int).push(s)[m]);
                assert(before.subrange(0, p as int).push(s)[m] == before.subrange(0, p as int)[m]);
                assert(before.subrange(0, p as int)[m] == before[m]);
            } else if m == p {
                assert(expanded[m] == before.subrange(0, p as int).push(s)[m]);
            } else {
                assert(expanded[m] == before.subrange(p as int, before.len() as int)[m - p - 1]);
                assert(before.subrange(p as int, before.len() as int)[m - p - 1] == before[m
                    - 1]);
            }
        }
        assert(spec_strictly_sorted(before));
        assert(before == old(out)@);
        assert(out@.len() == before.len() + 1);
        assert(forall|j: int| 0 <= j < p ==> spec_lex_le(#[trigger] before[j]@, s@) && before[j]@ != s@);
        assert(forall|j: int| p <= j < before.len() ==> spec_lex_le(s@, #[trigger] before[j]@) && s@ != before[j]@);
        assert forall|i: int, j: int|
            0 <= i < j < out@.len() implies spec_lex_le(out@[i]@, out@[j]@) && out@[i]@
            != out@[j]@ by {
            if j < p {
                assert(out@[i]@ == before[i]@ && out@[j]@ == before[j]@);
            } else if i < p && j == p {
                assert(out@[i]@ == before[i]@ && out@[j]@ == s@);
            } else if i < p && j > p {
                assert(out@[i]@ == before[i]@ && out@[j]@ == before[j - 1]@);
                lemma_lex_le_trans(before[i]@, s@, before[j - 1]@);
                if before[i]@ == before[j - 1]@ {
                    assert(spec_lex_le(s@, before[j - 1]@) && s@ != before[j - 1]@);
                    lemma_lex_le_antisym(before[i]@, s@);
                    assert(false);
                }
            } else if i == p {
                assert(out@[i]@ == s@ && out@[j]@ == before[j - 1]@);
            } else {
                assert(out@[i]@ == before[i - 1]@ && out@[j]@ == before[j - 1]@);
            }
        }
        assert forall|x: Seq<char>|
            spec_contains_path(out@, x) <==> (spec_contains_path(before, x) || x == s@) by {
            if spec_contains_path(out@, x) {
                let i = choose|i: int| 0 <= i < out@.len() && (#[trigger] out@[i])@ == x;
                if i < p {
                    assert(before[i]@ == x);
                } else if i > p {
                    assert(before[i - 1]@ == x);
                }
            }
            if spec_contains_path(before, x) {
                let i = choose|i: int| 0 <= i < before.len() && (#[trigger] before[i])@ == x;
                if i < p {
                    assert(out@[i]@ == x);
                } else {
                    assert(out@[i + 1]@ == x);
                }
            }
            if x == s@ {
                assert(out@[p as int]@ == x);
            }
        }
        assert forall|x: Seq<char>|
            spec_contains_path(out@, x) <==> (spec_contains_path(old(out)@, x) || x == s@) by {
            assert(spec_contains_path(before, x) == spec_contains_path(old(out)@, x));
        }
    }
}

/// Sorts path strings and drops duplicates: the result lists exactly the
/// paths of the input, each once, in lexicographic order.
pub fn sort_unique(paths: Vec<String>) -> (r: Vec<String>)
    ensures
        spec_strictly_sorted(r@),
        forall|x: Seq<char>| spec_contains_path(r@, x) <==> spec_contains_path(paths@, x),
{
    let ghost all = paths@;
    let mut rest = paths;
    let mut out: Vec<String> = Vec::new();
    proof {
        assert(all.take(all.len() as int) =~= all);
    }
    while rest.len() > 0
        invariant
            rest@.len() <= all.len(),
            rest@ == all.take(rest@.len() as int),
            spec_strictly_sorted(out@),
            forall|x: Seq<char>|
                spec_contains_path(out@, x) <==> spec_contains_path(
                    all.skip(rest@.len() as int),
                    x,
                ),
        decreases rest@.len(),
    {
        let ghost k = rest@.len() as int;
        let s = match rest.pop() {
            Some(s) => s,
            None => {
                proof {
                    assert(false);
                }
                unreached()
            },
        };
        proof {
            assert(s@ == all[k - 1]@);
            assert(rest@ =~= all.take(k - 1));
            assert forall|x: Seq<char>|
                spec_contains_path(all.skip(k - 1), x) <==> (spec_contains_path(
                    all.skip(k),
                    x,
                ) || x == s@) by {
                if spec_contains_path(all.skip(k - 1), x) {
                    let i = choose|i: int|
                        0 <= i < all.skip(k - 1).len() && (#[trigger] all.skip(k - 1)[i])@ == x;
                    if i == 0 {
                        assert(all[k - 1]@ == x);
                    } else {
                        assert(all.skip(k)[i - 1]@ == x);
                    }
                }
                if spec_contains_path(all.skip(k), x) {
                    let i = choose|i: int| 0 <= i < all.skip(k).len() && (#[trigger] all.skip(k)[i])@ == x;
                    assert(all.skip(k - 1)[i + 1]@ == x);
                }
                if x == s@ {
                    assert(all.skip(k - 1)[0]@ == x);
                }
            }
        }
        insert_unique(&mut out, s);
    }
    proof {
        assert(all.skip(0) =~= all);
    }
    out
}

/// Merges the custom entry into a directory listing, as the combined asset
/// source must answer it: the inherited entries, plus the custom entry's
/// path exactly when its directory overlaps the queried prefix, sorted and
/// without duplicates.
pub fn merge_listing(assets: Vec<String>, query: &str, custom_dir: &str, custom_file: &str) -> (r:
    Vec<String>)
    ensures
        spec_strictly_sorted(r@),
        forall|x: Seq<char>|
            spec_contains_path(r@, x) <==> (spec_contains_path(assets@, x) || ((
            spec_is_prefix(query@, custom_dir@) || spec_is_prefix(custom_dir@, query@)) && x
                == custom_file@)),
{
    let wanted = should_list_custom(custom_dir, query);
    let mut out = sort_unique(assets);
    if wanted {
        insert_unique(&mut out, String::from_str(custom_file));
    }
    out
}

} // verus!
