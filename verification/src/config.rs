//! Reading the few settings that are looked up by hand in TOML and YAML
//! front matter text, and spotting a bold heading in streamed reasoning.
use vstd::prelude::*;
use crate::text::{
    chars_of, find_char, is_blank, line_ranges, lines, push_range, range_eq, range_is_blank,
    str_eq, string_of, trim, trim_range, trim_start, skip_ws,
};

verus! {

broadcast use vstd::string::group_string_axioms;

/// The part of `s` before its first `c` and the part after it.
#[verifier::opaque]
pub open spec fn split_once(s: Seq<char>, c: char) -> Option<(Seq<char>, Seq<char>)> {
    if exists|i: int| 0 <= i < s.len() && s[i] == c {
        let i = choose|i: int| 0 <= i < s.len() && s[i] == c && forall|k: int| 0 <= k < i ==> s[k] != c;
        Some((s.subrange(0, i), s.subrange(i + 1, s.len() as int)))
    } else {
        None
    }
}

proof fn lemma_split_once(s: Seq<char>, c: char, i: int)
    requires
        0 <= i < s.len(),
        s[i] == c,
        forall|k: int| 0 <= k < i ==> s[k] != c,
    ensures
        split_once(s, c) == Some((s.subrange(0, i), s.subrange(i + 1, s.len() as int))),
{
    reveal(split_once);
    let j = choose|j: int| 0 <= j < s.len() && s[j] == c && forall|k: int| 0 <= k < j ==> s[k] != c;
    assert(j == i) by {
        if j < i {
            assert(s[j] != c);
        } else if i < j {
            assert(s[i] != c);
        }
    }
}

proof fn lemma_split_once_none(s: Seq<char>, c: char)
    requires
        forall|k: int| 0 <= k < s.len() ==> s[k] != c,
    ensures
        split_once(s, c) is None,
{
    reveal(split_once);
}

/// The position of the first `c` in `v[from..to]`, which is where
/// `split_once` cuts that range.
pub(crate) fn split_once_at(v: &Vec<char>, from: usize, to: usize, c: char) -> (r: Option<usize>)
    requires
        from <= to <= v@.len(),
    ensures
        match r {
            Some(j) => from <= j < to && split_once(v@.subrange(from as int, to as int), c) == Some(
                (v@.subrange(from as int, j as int), v@.subrange(j + 1, to as int)),
            ),
            None => split_once(v@.subrange(from as int, to as int), c) is None,
        },
{
    let ghost t = v@.subrange(from as int, to as int);
    match find_char(v, from, to, c) {
        None => {
            proof {
                assert forall|q: int| 0 <= q < t.len() implies t[q] != c by {
                    assert(t[q] == v@[from + q]);
                }
                lemma_split_once_none(t, c);
            }
            None
        },
        Some(j) => {
            proof {
                assert forall|q: int| 0 <= q < j - from implies t[q] != c by {
                    assert(t[q] == v@[from + q]);
                }
                lemma_split_once(t, c, j - from);
                assert(t.subrange(0, j - from) =~= v@.subrange(from as int, j as int));
                assert(t.subrange(j - from + 1, t.len() as int) =~= v@.subrange(j + 1, to as int));
            }
            Some(j)
        },
    }
}

/// Whether the trimmed line `t` is a table header `[...]`.
pub open spec fn is_table_header(t: Seq<char>) -> bool {
    t.len() > 0 && t[0] == '[' && t.last() == ']'
}

/// The assignments of the table, given the lines still to read, whether the
/// reader is inside the table, and the values found so far: a later
/// assignment of a key replaces an earlier one, and keys that are empty or
/// start with `#` are skipped.
pub open spec fn table_values(
    ls: Seq<Seq<char>>,
    header: Seq<char>,
    in_table: bool,
    acc: Map<Seq<char>, Seq<char>>,
) -> Map<Seq<char>, Seq<char>>
    decreases ls.len(),
{
    if ls.len() == 0 {
        acc
    } else {
        let t = trim(ls[0]);
        let rest = ls.drop_first();
        if is_table_header(t) {
            table_values(rest, header, t == header, acc)
        } else if !in_table {
            table_values(rest, header, in_table, acc)
        } else {
            match split_once(t, '=') {
                None => table_values(rest, header, in_table, acc),
                Some((k, v)) => {
                    let key = trim(k);
                    if key.len() > 0 && key[0] != '#' {
                        table_values(rest, header, in_table, acc.insert(key, trim(v)))
                    } else {
                        table_values(rest, header, in_table, acc)
                    }
                },
            }
        }
    }
}

/// The `key = value` assignments of the table `[table_name]` in `contents`.
pub open spec fn toml_table(contents: Seq<char>, table_name: Seq<char>) -> Map<Seq<char>, Seq<char>> {
    table_values(lines(contents), "["@ + table_name + "]"@, false, Map::empty())
}

/// The assignments of one table, in the order they appear. The line-by-line
/// reader keeps them in a `Vec` of pairs rather than a std `HashMap`: the
/// map's view is the only thing read from it (a later assignment of a key
/// wins, as an insert into a map would), and a map keyed by `String` is one
/// whose lookups this verifier does not tie to the keys' contents.
pub struct TableAssignments {
    entries: Vec<(String, String)>,
}

pub open spec fn assignments_map(e: Seq<(String, String)>) -> Map<Seq<char>, Seq<char>>
    decreases e.len(),
{
    if e.len() == 0 {
        Map::empty()
    } else {
        assignments_map(e.drop_last()).insert(e.last().0@, e.last().1@)
    }
}

impl View for TableAssignments {
    type V = Map<Seq<char>, Seq<char>>;

    closed spec fn view(&self) -> Map<Seq<char>, Seq<char>> {
        assignments_map(self.entries@)
    }
}

proof fn lemma_assignments_nonempty(e: Seq<(String, String)>)
    requires
        e.len() > 0,
    ensures
        assignments_map(e).dom().contains(e.last().0@),
{
}

impl TableAssignments {
    pub fn is_empty(&self) -> (r: bool)
        ensures
            r == self@.is_empty(),
    {
        proof {
            if self.entries@.len() > 0 {
                lemma_assignments_nonempty(self.entries@);
                assert(self@.dom().contains(self.entries@.last().0@));
            } else {
                assert(self@ =~= Map::<Seq<char>, Seq<char>>::empty());
            }
        }
        self.entries.len() == 0
    }

    /// The value assigned to `key`, if any.
    pub fn get(&self, key: &str) -> (r: Option<String>)
        ensures
            match r {
                Some(v) => self@.dom().contains(key@) && self@[key@] == v@,
                None => !self@.dom().contains(key@),
            },
    {
        let mut i = self.entries.len();
        while i > 0
            invariant
                0 <= i <= self.entries@.len(),
                forall|k: int| i <= k < self.entries@.len() ==> #[trigger] self.entries@[k].0@ != key@,
            decreases i,
        {
            if str_eq(self.entries[i - 1].0.as_str(), key) {
                proof {
                    lemma_lookup_last(self.entries@, i as int - 1, key@);
                }
                return Some(self.entries[i - 1].1.clone());
            }
            i -= 1;
        }
        proof {
            lemma_lookup_absent(self.entries@, key@);
        }
        None
    }
}

proof fn lemma_lookup_last(e: Seq<(String, String)>, j: int, key: Seq<char>)
    requires
        0 <= j < e.len(),
        e[j].0@ == key,
        forall|k: int| j < k < e.len() ==> #[trigger] e[k].0@ != key,
    ensures
        assignments_map(e).dom().contains(key),
        assignments_map(e)[key] == e[j].1@,
    decreases e.len(),
{
    if j < e.len() - 1 {
        assert(e.drop_last()[j] == e[j]);
        assert forall|k: int| j < k < e.drop_last().len() implies #[trigger] e.drop_last()[k].0@ != key by {
            assert(e.drop_last()[k] == e[k]);
        }
        lemma_lookup_last(e.drop_last(), j, key);
    }
}

proof fn lemma_lookup_absent(e: Seq<(String, String)>, key: Seq<char>)
    requires
        forall|k: int| 0 <= k < e.len() ==> #[trigger] e[k].0@ != key,
    ensures
        !assignments_map(e).dom().contains(key),
    decreases e.len(),
{
    if e.len() > 0 {
        assert forall|k: int| 0 <= k < e.drop_last().len() implies #[trigger] e.drop_last()[k].0@ != key by {
            assert(e.drop_last()[k] == e[k]);
        }
        lemma_lookup_absent(e.drop_last(), key);
    }
}


pub fn fallback_toml_table_assignments(contents: &str, table_name: &str) -> (r: TableAssignments)
    ensures
        r@ == toml_table(contents@, table_name@),
{
    let v = chars_of(contents);
    let mut header = chars_of("[");
    let name = chars_of(table_name);
    let mut k: usize = 0;
    while k < name.len()
        invariant
            0 <= k <= name@.len(),
            name@ == table_name@,
            header@ == "["@ + name@.take(k as int),
        decreases name@.len() - k,
    {
        header.push(name[k]);
        assert(name@.take(k + 1) =~= name@.take(k as int).push(name@[k as int]));
        k += 1;
    }
    header.push(']');
    assert(name@.take(name@.len() as int) =~= name@);
    proof {
        reveal_strlit("]");
        assert("]"@ =~= seq![']']);
    }
    assert(header@ =~= "["@ + table_name@ + "]"@);
    let ranges = line_ranges(&v);
    let ghost ls = lines(v@);
    let n = ranges.len();
    let mut entries: Vec<(String, String)> = Vec::new();
    let mut in_table = false;
    let mut i: usize = 0;
    assert(ls.subrange(0, n as int) =~= ls);
    assert(assignments_map(entries@) =~= Map::<Seq<char>, Seq<char>>::empty());
    while i < n
        invariant
            n == ranges@.len() == ls.len(),
            ls == lines(v@),
            v@ == contents@,
            header@ == "["@ + table_name@ + "]"@,
            0 <= i <= n,
            forall|j: int|
                0 <= j < ranges@.len() ==> {
                    &&& (#[trigger] ranges@[j]).0 <= ranges@[j].1 <= v@.len()
                    &&& v@.subrange(ranges@[j].0 as int, ranges@[j].1 as int) == ls[j]
                },
            toml_table(contents@, table_name@) == table_values(
                ls.subrange(i as int, n as int),
                header@,
                in_table,
                assignments_map(entries@),
            ),
        decreases n - i,
    {
        let ghost rest = ls.subrange(i as int, n as int);
        assert(rest[0] == ls[i as int]);
        assert(rest.drop_first() =~= ls.subrange(i + 1, n as int));
        let (a, b) = ranges[i];
        let (ta, tb) = trim_range(&v, a, b);
        let ghost t = v@.subrange(ta as int, tb as int);
        assert(t == trim(ls[i as int]));
        if tb > ta && v[ta] == '[' && v[tb - 1] == ']' {
            assert(t[0] == v@[ta as int] && t.last() == v@[tb - 1]);
            in_table = range_eq(&v, ta, tb, &header);
        } else if !in_table {
            proof {
                if t.len() > 0 {
                    assert(t[0] == v@[ta as int] && t.last() == v@[tb - 1]);
                }
            }
        } else {
            proof {
                if t.len() > 0 {
                    assert(t[0] == v@[ta as int] && t.last() == v@[tb - 1]);
                }
            }
            match find_char(&v, ta, tb, '=') {
                None => {
                    assert(split_once(t, '=') is None) by {
                        assert forall|q: int| 0 <= q < t.len() implies t[q] != '=' by {
                            assert(t[q] == v@[ta + q]);
                        }
                        lemma_split_once_none(t, '=');
                    }
                },
                Some(j) => {
                    proof {
                        assert forall|q: int| 0 <= q < j - ta implies t[q] != '=' by {
                            assert(t[q] == v@[ta + q]);
                        }
                        lemma_split_once(t, '=', j - ta);
                        assert(t.subrange(0, j - ta) =~= v@.subrange(ta as int, j as int));
                        assert(t.subrange(j - ta + 1, t.len() as int) =~= v@.subrange(
                            j + 1,
                            tb as int,
                        ));
                    }
                    let (ka, kb) = trim_range(&v, ta, j);
                    let (va, vb) = trim_range(&v, j + 1, tb);
                    if kb > ka && v[ka] != '#' {
                        let key = string_of(&v, ka, kb);
                        let value = string_of(&v, va, vb);
                        let ghost before = entries@;
                        entries.push((key, value));
                        proof {
                            assert(entries@.drop_last() =~= before);
                            let kk = v@.subrange(ka as int, kb as int);
                            assert(kk[0] == v@[ka as int]);
                        }
                    } else {
                        proof {
                            let kk = v@.subrange(ka as int, kb as int);
                            if kk.len() > 0 {
                                assert(kk[0] == v@[ka as int]);
                            }
                        }
                    }
                },
            }
        }
        i += 1;
    }
    assert(ls.subrange(n as int, n as int).len() == 0);
    TableAssignments { entries }
}

/// A TOML string literal in double or single quotes, without its quotes.
pub open spec fn toml_string(value: Seq<char>) -> Option<Seq<char>> {
    let t = trim(value);
    if t.len() >= 2 && t[0] == '"' && t.last() == '"' {
        Some(t.subrange(1, t.len() - 1))
    } else if t.len() >= 2 && t[0] == '\'' && t.last() == '\'' {
        Some(t.subrange(1, t.len() - 1))
    } else {
        None
    }
}

pub fn fallback_toml_string(value: &str) -> (r: Option<String>)
    ensures
        match r {
            Some(s) => toml_string(value@) == Some(s@),
            None => toml_string(value@) is None,
        },
{
    let v = chars_of(value);
    let (a, b) = trim_range(&v, 0, v.len());
    assert(v@.subrange(0, v@.len() as int) =~= v@);
    let ghost t = v@.subrange(a as int, b as int);
    if b - a >= 2 && ((v[a] == '"' && v[b - 1] == '"') || (v[a] == '\'' && v[b - 1] == '\'')) {
        assert(t[0] == v@[a as int] && t.last() == v@[b - 1]);
        assert(t.subrange(1, t.len() - 1) =~= v@.subrange(a + 1, b - 1));
        Some(string_of(&v, a + 1, b - 1))
    } else {
        proof {
            if t.len() >= 2 {
                assert(t[0] == v@[a as int] && t.last() == v@[b - 1]);
            }
        }
        None
    }
}

/// The key of a `key = value` line that is neither a comment nor a header.
pub open spec fn assignment_key(line: Seq<char>) -> Option<Seq<char>> {
    let t = trim_start(line);
    if t.len() > 0 && (t[0] == '#' || t[0] == '[') {
        None
    } else {
        match split_once(t, '=') {
            Some((k, _)) => if trim(k).len() > 0 {
                Some(trim(k))
            } else {
                None
            },
            None => None,
        }
    }
}

pub fn toml_assignment_key(line: &str) -> (r: Option<String>)
    ensures
        match r {
            Some(s) => assignment_key(line@) == Some(s@),
            None => assignment_key(line@) is None,
        },
{
    let v = chars_of(line);
    let a = skip_ws(&v, 0, v.len());
    assert(v@.subrange(0, v@.len() as int) =~= v@);
    let ghost t = v@.subrange(a as int, v@.len() as int);
    if a < v.len() && (v[a] == '#' || v[a] == '[') {
        assert(t[0] == v@[a as int]);
        return None;
    }
    proof {
        if t.len() > 0 {
            assert(t[0] == v@[a as int]);
        }
    }
    match find_char(&v, a, v.len(), '=') {
        None => {
            assert(split_once(t, '=') is None) by {
                assert forall|q: int| 0 <= q < t.len() implies t[q] != '=' by {
                    assert(t[q] == v@[a + q]);
                }
                lemma_split_once_none(t, '=');
            }
            None
        },
        Some(j) => {
            proof {
                assert forall|q: int| 0 <= q < j - a implies t[q] != '=' by {
                    assert(t[q] == v@[a + q]);
                }
                lemma_split_once(t, '=', j - a);
                assert(t.subrange(0, j - a) =~= v@.subrange(a as int, j as int));
            }
            let (ka, kb) = trim_range(&v, a, j);
            if kb > ka {
                Some(string_of(&v, ka, kb))
            } else {
                None
            }
        },
    }
}


/// `s` without leading and trailing `c`s (`str::trim_matches(c)`).
pub open spec fn strip_start_char(s: Seq<char>, c: char) -> Seq<char>
    decreases s.len(),
{
    if s.len() > 0 && s[0] == c {
        strip_start_char(s.drop_first(), c)
    } else {
        s
    }
}

pub open spec fn strip_end_char(s: Seq<char>, c: char) -> Seq<char>
    decreases s.len(),
{
    if s.len() > 0 && s.last() == c {
        strip_end_char(s.drop_last(), c)
    } else {
        s
    }
}

pub open spec fn trim_matches(s: Seq<char>, c: char) -> Seq<char> {
    strip_end_char(strip_start_char(s, c), c)
}

/// The bounds of `v[from..to]` with leading and trailing `c`s removed.
fn trim_matches_range(v: &Vec<char>, from: usize, to: usize, c: char) -> (r: (usize, usize))
    requires
        from <= to <= v@.len(),
    ensures
        from <= r.0 <= r.1 <= to,
        v@.subrange(r.0 as int, r.1 as int) == trim_matches(v@.subrange(from as int, to as int), c),
{
    let mut i = from;
    while i < to && v[i] == c
        invariant
            from <= i <= to <= v@.len(),
            strip_start_char(v@.subrange(i as int, to as int), c) == strip_start_char(
                v@.subrange(from as int, to as int),
                c,
            ),
        decreases to - i,
    {
        assert(v@.subrange(i as int, to as int).drop_first() =~= v@.subrange(i + 1, to as int));
        i += 1;
    }
    proof {
        if i < to {
            assert(v@.subrange(i as int, to as int)[0] == v@[i as int]);
        }
    }
    let mut j = to;
    while j > i && v[j - 1] == c
        invariant
            from <= i <= j <= to <= v@.len(),
            strip_end_char(v@.subrange(i as int, j as int), c) == strip_end_char(
                v@.subrange(i as int, to as int),
                c,
            ),
        decreases j - i,
    {
        assert(v@.subrange(i as int, j as int).drop_last() =~= v@.subrange(i as int, j - 1));
        j -= 1;
    }
    proof {
        if j > i {
            assert(v@.subrange(i as int, j as int).last() == v@[j - 1]);
        }
    }
    (i, j)
}

/// The value of `key:` on a front matter line: the trimmed rest of the
/// line, with surrounding double and then single quotes removed; `None`
/// when the line is not about `key` or the value is empty.
pub open spec fn yaml_line_value(line: Seq<char>, key: Seq<char>) -> Option<Seq<char>> {
    let t = trim(line);
    let prefix = key.push(':');
    if t.len() >= prefix.len() && t.subrange(0, prefix.len() as int) == prefix {
        let value = trim(t.subrange(prefix.len() as int, t.len() as int));
        if value.len() > 0 {
            Some(trim_matches(trim_matches(value, '"'), '\''))
        } else {
            None
        }
    } else {
        None
    }
}

/// The value of the first line of `ls` that gives one for `key`.
pub open spec fn first_yaml_value(ls: Seq<Seq<char>>, key: Seq<char>) -> Option<Seq<char>>
    decreases ls.len(),
{
    if ls.len() == 0 {
        None
    } else {
        match yaml_line_value(ls[0], key) {
            Some(v) => Some(v),
            None => first_yaml_value(ls.drop_first(), key),
        }
    }
}

pub fn yaml_scalar(frontmatter: &str, key: &str) -> (r: Option<String>)
    ensures
        match r {
            Some(s) => first_yaml_value(lines(frontmatter@), key@) == Some(s@),
            None => first_yaml_value(lines(frontmatter@), key@) is None,
        },
{
    let v = chars_of(frontmatter);
    let mut prefix = chars_of(key);
    prefix.push(':');
    let ranges = line_ranges(&v);
    let ghost ls = lines(v@);
    let n = ranges.len();
    let mut i: usize = 0;
    assert(ls.subrange(0, n as int) =~= ls);
    while i < n
        invariant
            n == ranges@.len() == ls.len(),
            ls == lines(v@),
            v@ == frontmatter@,
            prefix@ == key@.push(':'),
            0 <= i <= n,
            forall|j: int|
                0 <= j < ranges@.len() ==> {
                    &&& (#[trigger] ranges@[j]).0 <= ranges@[j].1 <= v@.len()
                    &&& v@.subrange(ranges@[j].0 as int, ranges@[j].1 as int) == ls[j]
                },
            first_yaml_value(ls, key@) == first_yaml_value(ls.subrange(i as int, n as int), key@),
        decreases n - i,
    {
        let ghost rest = ls.subrange(i as int, n as int);
        assert(rest[0] == ls[i as int]);
        assert(rest.drop_first() =~= ls.subrange(i + 1, n as int));
        let (a, b) = ranges[i];
        let (ta, tb) = trim_range(&v, a, b);
        let ghost t = v@.subrange(ta as int, tb as int);
        if crate::text::range_starts_with(&v, ta, tb, &prefix) {
            assert(t.subrange(0, prefix@.len() as int) =~= v@.subrange(
                ta as int,
                ta + prefix@.len(),
            ));
            let (va, vb) = trim_range(&v, ta + prefix.len(), tb);
            assert(t.subrange(prefix@.len() as int, t.len() as int) =~= v@.subrange(
                ta + prefix@.len(),
                tb as int,
            ));
            if vb > va {
                let (qa, qb) = trim_matches_range(&v, va, vb, '"');
                let (sa, sb) = trim_matches_range(&v, qa, qb, '\'');
                return Some(string_of(&v, sa, sb));
            }
        } else {
            proof {
                if t.len() >= prefix@.len() {
                    assert(t.subrange(0, prefix@.len() as int) =~= v@.subrange(
                        ta as int,
                        ta + prefix@.len(),
                    ));
                }
            }
        }
        i += 1;
    }
    None
}

/// The first line of `ls` that is not blank.
pub open spec fn first_nonblank(ls: Seq<Seq<char>>) -> Option<Seq<char>>
    decreases ls.len(),
{
    if ls.len() == 0 {
        None
    } else if !is_blank(ls[0]) {
        Some(ls[0])
    } else {
        first_nonblank(ls.drop_first())
    }
}

/// The text of a line that, trimmed, reads `**text**` with `text` not blank.
pub open spec fn bold_heading(line: Seq<char>) -> Option<Seq<char>> {
    let t = trim(line);
    if t.len() >= 4 && t[0] == '*' && t[1] == '*' && t[t.len() - 2] == '*' && t[t.len() - 1] == '*' {
        let inner = trim(t.subrange(2, t.len() - 2));
        if inner.len() > 0 {
            Some(inner)
        } else {
            None
        }
    } else {
        None
    }
}

fn bold_heading_range(v: &Vec<char>, a: usize, b: usize) -> (r: Option<String>)
    requires
        a <= b <= v@.len(),
    ensures
        match r {
            Some(s) => bold_heading(v@.subrange(a as int, b as int)) == Some(s@),
            None => bold_heading(v@.subrange(a as int, b as int)) is None,
        },
{
    let (ta, tb) = trim_range(v, a, b);
    let ghost t = v@.subrange(ta as int, tb as int);
    if tb - ta >= 4 && v[ta] == '*' && v[ta + 1] == '*' && v[tb - 2] == '*' && v[tb - 1] == '*' {
        assert(t[0] == v@[ta as int] && t[1] == v@[ta + 1]);
        assert(t[t.len() - 2] == v@[tb - 2] && t[t.len() - 1] == v@[tb - 1]);
        assert(t.subrange(2, t.len() - 2) =~= v@.subrange(ta + 2, tb - 2));
        let (ia, ib) = trim_range(v, ta + 2, tb - 2);
        if ib > ia {
            Some(string_of(v, ia, ib))
        } else {
            None
        }
    } else {
        proof {
            if t.len() >= 4 {
                assert(t[0] == v@[ta as int] && t[1] == v@[ta + 1]);
                assert(t[t.len() - 2] == v@[tb - 2] && t[t.len() - 1] == v@[tb - 1]);
            }
        }
        None
    }
}

pub fn parse_bold_heading_line(line: &str) -> (r: Option<String>)
    ensures
        match r {
            Some(s) => bold_heading(line@) == Some(s@),
            None => bold_heading(line@) is None,
        },
{
    let v = chars_of(line);
    assert(v@.subrange(0, v@.len() as int) =~= v@);
    bold_heading_range(&v, 0, v.len())
}

/// The heading that a reasoning delta opens with: its first non-blank line,
/// when that line is a bold heading.
pub open spec fn reasoning_heading(delta: Seq<char>) -> Option<Seq<char>> {
    match first_nonblank(lines(delta)) {
        Some(l) => bold_heading(l),
        None => None,
    }
}

pub fn reasoning_heading_from_delta(delta: &str) -> (r: Option<String>)
    ensures
        match r {
            Some(s) => reasoning_heading(delta@) == Some(s@),
            None => reasoning_heading(delta@) is None,
        },
{
    let v = chars_of(delta);
    let ranges = line_ranges(&v);
    let ghost ls = lines(v@);
    let n = ranges.len();
    let mut i: usize = 0;
    assert(ls.subrange(0, n as int) =~= ls);
    while i < n
        invariant
            n == ranges@.len() == ls.len(),
            ls == lines(v@),
            v@ == delta@,
            0 <= i <= n,
            forall|j: int|
                0 <= j < ranges@.len() ==> {
                    &&& (#[trigger] ranges@[j]).0 <= ranges@[j].1 <= v@.len()
                    &&& v@.subrange(ranges@[j].0 as int, ranges@[j].1 as int) == ls[j]
                },
            first_nonblank(ls) == first_nonblank(ls.subrange(i as int, n as int)),
        decreases n - i,
    {
        let ghost rest = ls.subrange(i as int, n as int);
        assert(rest[0] == ls[i as int]);
        assert(rest.drop_first() =~= ls.subrange(i + 1, n as int));
        let (a, b) = ranges[i];
        if !range_is_blank(&v, a, b) {
            return bold_heading_range(&v, a, b);
        }
        i += 1;
    }
    None
}

} // verus!
