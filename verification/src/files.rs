//! The workspace files offered by `@` completion: which directory entries
//! are skipped, how a found file is written relative to the workspace, and
//! the sorted, de-duplicated, bounded list that completion draws from.
use vstd::prelude::*;
use crate::composer::FileCompletionItem;
use crate::paste::views;
use crate::text::{chars_of, is_blank, line_ranges, lines, range_is_blank, str_eq, string_from, string_of};

verus! {

broadcast use vstd::string::group_string_axioms;

/// How many workspace files completion keeps.
pub const MAX_FILE_COMPLETION_CACHE: usize = 1_000;

/// Lexicographic order of strings by code point, which is the order of
/// their UTF-8 bytes and so the order `str`'s `Ord` sorts by.
pub open spec fn lex_lt(a: Seq<char>, b: Seq<char>) -> bool
    decreases a.len(),
{
    if a.len() == 0 {
        b.len() > 0
    } else if b.len() == 0 {
        false
    } else if a[0] != b[0] {
        a[0] < b[0]
    } else {
        lex_lt(a.drop_first(), b.drop_first())
    }
}

pub proof fn lemma_lex_irreflexive(a: Seq<char>)
    ensures
        !lex_lt(a, a),
    decreases a.len(),
{
    if a.len() > 0 {
        lemma_lex_irreflexive(a.drop_first());
    }
}

pub proof fn lemma_lex_transitive(a: Seq<char>, b: Seq<char>, c: Seq<char>)
    requires
        lex_lt(a, b),
        lex_lt(b, c),
    ensures
        lex_lt(a, c),
    decreases a.len(),
{
    if a.len() > 0 && b.len() > 0 && c.len() > 0 {
        if a[0] == b[0] && b[0] == c[0] {
            lemma_lex_transitive(a.drop_first(), b.drop_first(), c.drop_first());
        }
    }
}

pub proof fn lemma_lex_total(a: Seq<char>, b: Seq<char>)
    requires
        a != b,
    ensures
        lex_lt(a, b) || lex_lt(b, a),
    decreases a.len(),
{
    if a.len() > 0 && b.len() > 0 && a[0] == b[0] {
        if a.drop_first() == b.drop_first() {
            assert(a =~= seq![a[0]] + a.drop_first());
            assert(b =~= seq![b[0]] + b.drop_first());
        }
        lemma_lex_total(a.drop_first(), b.drop_first());
    } else if a.len() == 0 && b.len() == 0 {
        assert(a =~= b);
    }
}

pub proof fn lemma_lex_asymmetric(a: Seq<char>, b: Seq<char>)
    requires
        lex_lt(a, b),
    ensures
        !lex_lt(b, a),
{
    if lex_lt(b, a) {
        lemma_lex_transitive(a, b, a);
        lemma_lex_irreflexive(a);
    }
}

proof fn lemma_lex_common_prefix(a: Seq<char>, b: Seq<char>, i: int)
    requires
        0 <= i <= a.len(),
        i <= b.len(),
        forall|k: int| 0 <= k < i ==> a[k] == b[k],
    ensures
        lex_lt(a, b) == lex_lt(a.subrange(i, a.len() as int), b.subrange(i, b.len() as int)),
    decreases i,
{
    if i > 0 {
        assert(a[0] == b[0]);
        assert forall|k: int| 0 <= k < i - 1 implies a.drop_first()[k] == b.drop_first()[k] by {
            assert(a.drop_first()[k] == a[k + 1]);
        }
        lemma_lex_common_prefix(a.drop_first(), b.drop_first(), i - 1);
        assert(a.drop_first().subrange(i - 1, a.len() - 1) =~= a.subrange(i, a.len() as int));
        assert(b.drop_first().subrange(i - 1, b.len() - 1) =~= b.subrange(i, b.len() as int));
    } else {
        assert(a.subrange(0, a.len() as int) =~= a);
        assert(b.subrange(0, b.len() as int) =~= b);
    }
}

/// Whether `a` sorts before `b`.
fn chars_lt(a: &Vec<char>, b: &Vec<char>) -> (r: bool)
    ensures
        r == lex_lt(a@, b@),
{
    let mut i: usize = 0;
    while i < a.len() && i < b.len() && a[i] == b[i]
        invariant
            0 <= i <= a@.len(),
            i <= b@.len(),
            forall|k: int| 0 <= k < i ==> a@[k] == b@[k],
        decreases a@.len() - i,
    {
        i += 1;
    }
    proof {
        lemma_lex_common_prefix(a@, b@, i as int);
        let sa = a@.subrange(i as int, a@.len() as int);
        let sb = b@.subrange(i as int, b@.len() as int);
        if i < a@.len() {
            assert(sa[0] == a@[i as int]);
        }
        if i < b@.len() {
            assert(sb[0] == b@[i as int]);
        }
    }
    if i == a.len() {
        i < b.len()
    } else if i == b.len() {
        false
    } else {
        a[i] < b[i]
    }
}

/// Whether `s` is strictly increasing.
pub open spec fn strictly_sorted(s: Seq<Seq<char>>) -> bool {
    forall|i: int, j: int| 0 <= i < j < s.len() ==> lex_lt(#[trigger] s[i], #[trigger] s[j])
}

pub open spec fn char_views(v: Seq<Vec<char>>) -> Seq<Seq<char>> {
    v.map_values(|x: Vec<char>| x@)
}

/// Adds `x` to the strictly sorted `acc` unless it is there already.
fn insert_sorted(acc: &mut Vec<Vec<char>>, x: Vec<char>)
    requires
        strictly_sorted(char_views(old(acc)@)),
    ensures
        strictly_sorted(char_views(final(acc)@)),
        forall|y: Seq<char>|
            char_views(final(acc)@).contains(y) <==> (char_views(old(acc)@).contains(y) || y
                == x@),
{
    let ghost before = char_views(acc@);
    let mut p: usize = 0;
    while p < acc.len() && chars_lt(&acc[p], &x)
        invariant
            0 <= p <= acc@.len(),
            before == char_views(acc@),
            strictly_sorted(before),
            forall|k: int| 0 <= k < p ==> lex_lt(#[trigger] before[k], x@),
        decreases acc@.len() - p,
    {
        p += 1;
    }
    if p < acc.len() && chars_lt(&x, &acc[p]) == false {
        proof {
            if x@ != before[p as int] {
                lemma_lex_total(x@, before[p as int]);
            }
        }
        assert(before[p as int] == x@);
        return ;
    }
    proof {
        if p < acc.len() {
            assert(lex_lt(x@, before[p as int]));
        }
    }
    let ghost xv = x@;
    acc.insert(p, x);
    proof {
        let after = char_views(acc@);
        assert(after =~= before.insert(p as int, xv));
        assert forall|i: int, j: int| 0 <= i < j < after.len() implies lex_lt(
            #[trigger] after[i],
            #[trigger] after[j],
        ) by {
            if j < p {
            } else if i < p && j == p {
            } else if i < p && j > p {
                if j - 1 > p {
                    lemma_lex_transitive(xv, before[p as int], before[j - 1]);
                }
                lemma_lex_transitive(after[i], xv, after[j]);
            } else if i == p {
                if j > p + 1 {
                    lemma_lex_transitive(xv, before[p as int], after[j]);
                }
            } else {
                assert(after[i] == before[i - 1]);
                assert(after[j] == before[j - 1]);
            }
        }
        assert forall|y: Seq<char>| after.contains(y) <==> (before.contains(y) || y == xv) by {
            if after.contains(y) {
                let k = choose|k: int| 0 <= k < after.len() && after[k] == y;
                if k < p {
                    assert(before[k] == y);
                } else if k > p {
                    assert(before[k - 1] == y);
                }
            }
            if before.contains(y) {
                let k = choose|k: int| 0 <= k < before.len() && before[k] == y;
                if k < p {
                    assert(after[k] == y);
                } else {
                    assert(after[k + 1] == y);
                }
            }
            if y == xv {
                assert(after[p as int] == y);
            }
        }
    }
}

/// What completion keeps of the files found: the smallest
/// `MAX_FILE_COMPLETION_CACHE` distinct paths, sorted.
pub open spec fn kept_paths(found: Seq<Seq<char>>, kept: Seq<Seq<char>>) -> bool {
    &&& strictly_sorted(kept)
    &&& kept.len() <= MAX_FILE_COMPLETION_CACHE
    &&& forall|i: int| 0 <= i < kept.len() ==> found.contains(#[trigger] kept[i])
    &&& forall|i: int|
        0 <= i < found.len() ==> kept.contains(#[trigger] found[i]) || (kept.len()
            == MAX_FILE_COMPLETION_CACHE && lex_lt(kept.last(), found[i]))
}

pub open spec fn item_paths(items: Seq<FileCompletionItem>) -> Seq<Seq<char>> {
    items.map_values(|f: FileCompletionItem| f.path@)
}

/// The completion items for the files found in the workspace: sorted,
/// without duplicates, and at most `MAX_FILE_COMPLETION_CACHE` of them.
pub fn workspace_file_completion_items(paths: Vec<String>) -> (r: Vec<FileCompletionItem>)
    ensures
        kept_paths(views(paths@), item_paths(r@)),
{
    let ghost found = views(paths@);
    let mut acc: Vec<Vec<char>> = Vec::new();
    let mut k: usize = 0;
    while k < paths.len()
        invariant
            0 <= k <= paths@.len(),
            found == views(paths@),
            strictly_sorted(char_views(acc@)),
            forall|y: Seq<char>|
                char_views(acc@).contains(y) <==> exists|j: int| 0 <= j < k && found[j] == y,
            forall|j: int| 0 <= j < k ==> char_views(acc@).contains(#[trigger] found[j]),
        decreases paths@.len() - k,
    {
        let x = chars_of(paths[k].as_str());
        let ghost xv = x@;
        insert_sorted(&mut acc, x);
        assert(found[k as int] == xv);
        assert forall|y: Seq<char>|
            char_views(acc@).contains(y) <== exists|j: int| 0 <= j < k + 1 && found[j] == y by {
            if exists|j: int| 0 <= j < k + 1 && found[j] == y {
                let j = choose|j: int| 0 <= j < k + 1 && found[j] == y;
                if j == k {
                    assert(y == xv);
                } else {
                    assert(exists|j: int| 0 <= j < k && found[j] == y);
                }
            }
        }
        assert forall|y: Seq<char>|
            char_views(acc@).contains(y) ==> exists|j: int| 0 <= j < k + 1 && found[j] == y by {
            if char_views(acc@).contains(y) && y == xv {
                assert(found[k as int] == y);
            }
        }
        k += 1;
    }
    assert(k == paths@.len());
    let ghost sorted = char_views(acc@);
    let n = if acc.len() < MAX_FILE_COMPLETION_CACHE {
        acc.len()
    } else {
        MAX_FILE_COMPLETION_CACHE
    };
    let mut r: Vec<FileCompletionItem> = Vec::new();
    let mut i: usize = 0;
    while i < n
        invariant
            0 <= i <= n <= acc@.len(),
            n <= MAX_FILE_COMPLETION_CACHE,
            sorted == char_views(acc@),
            item_paths(r@) == sorted.take(i as int),
        decreases n - i,
    {
        let path = string_of(&acc[i], 0, acc[i].len());
        assert(acc@[i as int]@.subrange(0, acc@[i as int]@.len() as int) =~= sorted[i as int]);
        let ghost prev = r@;
        let item = FileCompletionItem { path };
        assert(item.path@ == sorted[i as int]);
        r.push(item);
        assert(r@ == prev.push(item));
        assert(item_paths(r@) =~= item_paths(prev).push(item.path@));
        assert(sorted.take(i + 1) =~= sorted.take(i as int).push(sorted[i as int]));
        i += 1;
    }
    proof {
        let kept = item_paths(r@);
        assert(kept =~= sorted.take(n as int));
        assert forall|a: int, b: int| 0 <= a < b < kept.len() implies lex_lt(
            #[trigger] kept[a],
            #[trigger] kept[b],
        ) by {
            assert(kept[a] == sorted[a] && kept[b] == sorted[b]);
        }
        assert forall|a: int| 0 <= a < kept.len() implies found.contains(#[trigger] kept[a]) by {
            assert(kept[a] == sorted[a]);
            assert(sorted.contains(sorted[a]));
            let j = choose|j: int| 0 <= j < paths@.len() && found[j] == sorted[a];
        }
        assert forall|a: int| 0 <= a < found.len() implies kept.contains(#[trigger] found[a]) || (
        kept.len() == MAX_FILE_COMPLETION_CACHE && lex_lt(kept.last(), found[a])) by {
            assert(found.len() == paths@.len());
            assert(sorted.contains(found[a]));
            let q = choose|q: int| 0 <= q < sorted.len() && sorted[q] == found[a];
            if q < n {
                assert(kept[q] == found[a]);
            } else {
                assert(kept.last() == sorted[n - 1]);
            }
        }
    }
    r
}

pub open spec fn skipped_name(name: Seq<char>) -> bool {
    name == ".git"@ || name == "target"@ || name == "node_modules"@ || name == ".DS_Store"@ || name
        == ".roder"@
}

/// Whether a directory entry is left out of the completion walk: version
/// control, build output, dependencies and the tool's own directory.
pub fn should_skip_file_completion_path(name: &str) -> (r: bool)
    ensures
        r == skipped_name(name@),
{
    str_eq(name, ".git") || str_eq(name, "target") || str_eq(name, "node_modules") || str_eq(
        name,
        ".DS_Store",
    ) || str_eq(name, ".roder")
}

/// What `Path::strip_prefix` gives for `path` and `base`: what follows the
/// components of `base` in `path`, when `path` starts with them.
pub uninterp spec fn path_strip_prefix_of(path: Seq<char>, base: Seq<char>) -> Option<Seq<char>>;

/// `Path::strip_prefix` of `path` and `base`, as a string.
#[verifier::external_body]
fn path_strip_prefix(path: &str, base: &str) -> (r: Option<String>)
    ensures
        match r {
            Some(rest) => path_strip_prefix_of(path@, base@) == Some(rest@),
            None => path_strip_prefix_of(path@, base@) is None,
        },
{
    std::path::Path::new(path).strip_prefix(base).ok().map(|rest| rest.to_string_lossy().into_owned())
}

/// `s` with every backslash written as a forward slash.
pub open spec fn forward_slashes(s: Seq<char>) -> Seq<char> {
    s.map_values(
        |c: char|
            if c == '\\' {
                '/'
            } else {
                c
            },
    )
}

pub open spec fn relative_path(root: Seq<char>, path: Seq<char>) -> Seq<char> {
    forward_slashes(
        match path_strip_prefix_of(path, root) {
            Some(rest) => rest,
            None => path,
        },
    )
}

/// A found file as completion inserts it: relative to the workspace root
/// when it lies under it, with forward slashes.
pub fn relative_file_completion_path(root: &str, path: &str) -> (r: String)
    ensures
        r@ == relative_path(root@, path@),
{
    let rel = match path_strip_prefix(path, root) {
        Some(rest) => rest,
        None => string_from(path),
    };
    let v = chars_of(rel.as_str());
    let mut out = String::new();
    let mut i: usize = 0;
    while i < v.len()
        invariant
            0 <= i <= v@.len(),
            out@ == forward_slashes(v@.take(i as int)),
        decreases v@.len() - i,
    {
        let c = v[i];
        if c == '\\' {
            out.push('/');
        } else {
            out.push(c);
        }
        assert(forward_slashes(v@.take(i + 1)) =~= forward_slashes(v@.take(i as int)).push(
            if c == '\\' {
                '/'
            } else {
                c
            },
        ));
        i += 1;
    }
    assert(v@.take(v@.len() as int) =~= v@);
    out
}

/// The lines of `ls` that are not blank, in order.
pub open spec fn nonblank_lines(ls: Seq<Seq<char>>) -> Seq<Seq<char>>
    decreases ls.len(),
{
    if ls.len() == 0 {
        seq![]
    } else {
        let kept = nonblank_lines(ls.drop_last());
        if is_blank(ls.last()) {
            kept
        } else {
            kept.push(ls.last())
        }
    }
}

/// The non-blank lines of the first `i` lines are the first of those of
/// the first `j`.
proof fn lemma_nonblank_prefix(ls: Seq<Seq<char>>, i: int, j: int)
    requires
        0 <= i <= j <= ls.len(),
    ensures
        nonblank_lines(ls.take(i)).len() <= nonblank_lines(ls.take(j)).len(),
        nonblank_lines(ls.take(j)).take(nonblank_lines(ls.take(i)).len() as int) == nonblank_lines(ls.take(i)),
    decreases j - i,
{
    if i < j {
        lemma_nonblank_prefix(ls, i, j - 1);
        assert(ls.take(j).drop_last() =~= ls.take(j - 1));
        let a = nonblank_lines(ls.take(i));
        let b = nonblank_lines(ls.take(j - 1));
        let c = nonblank_lines(ls.take(j));
        assert(c.take(a.len() as int) =~= b.take(a.len() as int));
    } else {
        assert(nonblank_lines(ls.take(i)).take(nonblank_lines(ls.take(i)).len() as int) =~= nonblank_lines(
            ls.take(i),
        ));
    }
}

/// The paths in the output of `git ls-files`: its lines that are not
/// blank, at most `MAX_FILE_COMPLETION_CACHE` of them.
pub open spec fn git_listed_paths_spec(output: Seq<char>) -> Seq<Seq<char>> {
    let listed = nonblank_lines(lines(output));
    if listed.len() <= MAX_FILE_COMPLETION_CACHE {
        listed
    } else {
        listed.take(MAX_FILE_COMPLETION_CACHE as int)
    }
}

/// The paths that `git ls-files` printed, or nothing when it printed none.
pub fn git_listed_paths(output: &str) -> (r: Option<Vec<String>>)
    ensures
        match r {
            Some(v) => views(v@) == git_listed_paths_spec(output@) && v@.len() > 0,
            None => git_listed_paths_spec(output@).len() == 0,
        },
{
    let v = chars_of(output);
    let ranges = line_ranges(&v);
    let ghost ls = lines(v@);
    let mut out: Vec<String> = Vec::new();
    let mut i: usize = 0;
    assert(ls.take(0) =~= Seq::<Seq<char>>::empty());
    assert(views(out@) =~= Seq::<Seq<char>>::empty());
    while i < ranges.len() && out.len() < MAX_FILE_COMPLETION_CACHE
        invariant
            v@ == output@,
            ls == lines(v@),
            ranges@.len() == ls.len(),
            forall|k: int|
                0 <= k < ranges@.len() ==> {
                    &&& (#[trigger] ranges@[k]).0 <= ranges@[k].1 <= v@.len()
                    &&& v@.subrange(ranges@[k].0 as int, ranges@[k].1 as int) == ls[k]
                },
            0 <= i <= ranges@.len(),
            out@.len() <= MAX_FILE_COMPLETION_CACHE,
            views(out@) == nonblank_lines(ls.take(i as int)),
        decreases ranges@.len() - i,
    {
        let (a, b) = ranges[i];
        assert(ls.take(i + 1).drop_last() =~= ls.take(i as int));
        assert(ls.take(i + 1).last() == ls[i as int]);
        if !range_is_blank(&v, a, b) {
            let ghost before = views(out@);
            out.push(string_of(&v, a, b));
            assert(views(out@) =~= before.push(ls[i as int]));
        }
        i += 1;
    }
    proof {
        lemma_nonblank_prefix(ls, i as int, ls.len() as int);
        assert(ls.take(ls.len() as int) =~= ls);
        let listed = nonblank_lines(ls);
        if out@.len() == MAX_FILE_COMPLETION_CACHE {
            assert(listed.take(MAX_FILE_COMPLETION_CACHE as int) == views(out@));
            if listed.len() <= MAX_FILE_COMPLETION_CACHE {
                assert(listed.take(listed.len() as int) =~= listed);
            }
        } else {
            assert(i == ranges@.len());
        }
    }
    if out.len() == 0 {
        None
    } else {
        Some(out)
    }
}

} // verus!
