//! Writing one TUI setting back into the text of the config file, line by
//! line, for files that a TOML parser would not take: the line that assigns
//! the key in its table is replaced, or a new one is added to the table, or
//! the table is added at the end.
use vstd::prelude::*;
use crate::config::{assignment_key, is_table_header, toml_assignment_key};
use crate::text::{
    chars_of, is_blank, line_ranges, lines, push_signed_decimal, push_str, range_eq,
    range_is_blank, signed_decimal, str_eq, string_from, string_of, trim, trim_range,
};

verus! {

broadcast use vstd::string::group_string_axioms;

/// A value that a TUI setting is saved as.
pub enum ConfigValue {
    Boolean(bool),
    Integer(i64),
    Text(String),
}

/// The quoted and escaped form of a string, as `format!("{s:?}")` writes it.
pub uninterp spec fn debug_str_literal(s: Seq<char>) -> Seq<char>;

/// Calls `<str as Debug>::fmt` through `format!("{:?}")`; the result is
/// named, not described: it is the string in double quotes with the
/// escapes of `char::escape_debug`.
#[verifier::external_body]
fn debug_quoted(s: &str) -> (r: String)
    ensures
        r@ == debug_str_literal(s@),
{
    format!("{s:?}")
}

/// How a value is written on the right of `=`.
pub open spec fn config_literal(value: ConfigValue) -> Seq<char> {
    match value {
        ConfigValue::Boolean(b) => if b {
            "true"@
        } else {
            "false"@
        },
        ConfigValue::Integer(n) => signed_decimal(n as int),
        ConfigValue::Text(s) => debug_str_literal(s@),
    }
}

pub fn toml_value_literal(value: &ConfigValue) -> (r: String)
    ensures
        r@ == config_literal(*value),
{
    match value {
        ConfigValue::Boolean(b) => {
            if *b {
                string_from("true")
            } else {
                string_from("false")
            }
        },
        ConfigValue::Integer(n) => {
            let mut s = String::new();
            push_signed_decimal(&mut s, *n);
            assert(s@ =~= signed_decimal(*n as int));
            s
        },
        ConfigValue::Text(t) => debug_quoted(t.as_str()),
    }
}

/// `tui` followed by `.segment` for each of `segments`: the dotted name of
/// the table that holds a setting.
pub open spec fn dotted_table_name(segments: Seq<Seq<char>>) -> Seq<char>
    decreases segments.len(),
{
    if segments.len() == 0 {
        "tui"@
    } else {
        dotted_table_name(segments.drop_last()) + "."@ + segments.last()
    }
}

/// The views of the strings in `v`.
pub open spec fn string_views(v: Seq<String>) -> Seq<Seq<char>> {
    v.map_values(|s: String| s@)
}

/// The header line `[tui.a.b]` of the table named by `segments`.
fn table_header(segments: &Vec<String>, count: usize) -> (r: String)
    requires
        count <= segments@.len(),
    ensures
        r@ == "["@ + dotted_table_name(string_views(segments@).subrange(0, count as int)) + "]"@,
{
    let mut s = string_from("[tui");
    let mut i: usize = 0;
    proof {
        reveal_strlit("[tui");
        reveal_strlit("[");
        reveal_strlit("tui");
        assert(string_views(segments@).subrange(0, 0) =~= Seq::<Seq<char>>::empty());
        assert(s@ =~= "["@ + dotted_table_name(string_views(segments@).subrange(0, 0)));
    }
    while i < count
        invariant
            count <= segments@.len(),
            0 <= i <= count,
            s@ == "["@ + dotted_table_name(string_views(segments@).subrange(0, i as int)),
        decreases count - i,
    {
        let ghost before = s@;
        push_str(&mut s, ".");
        push_str(&mut s, segments[i].as_str());
        proof {
            let segs = string_views(segments@).subrange(0, i + 1);
            assert(segs.drop_last() =~= string_views(segments@).subrange(0, i as int));
            assert(segs.last() == segments@[i as int]@);
            assert(s@ =~= "["@ + dotted_table_name(segs));
        }
        i += 1;
    }
    push_str(&mut s, "]");
    s
}


/// The first line at or after `from` whose trimmed text is `header`, or the
/// number of lines when there is none.
pub open spec fn header_line(ls: Seq<Seq<char>>, header: Seq<char>, from: int) -> int
    decreases ls.len() - from,
{
    if from < 0 || from >= ls.len() {
        ls.len() as int
    } else if trim(ls[from]) == header {
        from
    } else {
        header_line(ls, header, from + 1)
    }
}

/// The first line at or after `from` that opens a table, or the number of
/// lines when there is none: where the table that runs from `from` ends.
pub open spec fn section_end(ls: Seq<Seq<char>>, from: int) -> int
    decreases ls.len() - from,
{
    if from < 0 || from >= ls.len() {
        ls.len() as int
    } else if is_table_header(trim(ls[from])) {
        from
    } else {
        section_end(ls, from + 1)
    }
}

/// The first line in `from..end` that assigns `key`, or `end` when none does.
pub open spec fn key_line(ls: Seq<Seq<char>>, key: Seq<char>, from: int, end: int) -> int
    decreases end - from,
{
    if from < 0 || from >= end || from >= ls.len() {
        end
    } else if assignment_key(ls[from]) == Some(key) {
        from
    } else {
        key_line(ls, key, from + 1, end)
    }
}

/// The lines once `assignment` is written for `key` under `header`: it takes
/// the place of the first line of the table that assigns the key, or closes
/// the table; where the table is missing, it is added at the end, after a
/// blank line when the last line is not blank.
pub open spec fn patched_lines(
    ls: Seq<Seq<char>>,
    header: Seq<char>,
    key: Seq<char>,
    assignment: Seq<char>,
) -> Seq<Seq<char>> {
    let h = header_line(ls, header, 0);
    if h < ls.len() {
        let end = section_end(ls, h + 1);
        let k = key_line(ls, key, h + 1, end);
        if k < end {
            ls.update(k, assignment)
        } else {
            ls.insert(end, assignment)
        }
    } else {
        let padded = if ls.len() > 0 && !is_blank(ls.last()) {
            ls.push(seq![])
        } else {
            ls
        };
        padded.push(header).push(assignment)
    }
}

/// The lines each followed by a newline: for at least one line, the lines
/// joined by newlines with a newline at the end.
pub open spec fn terminated_lines(ls: Seq<Seq<char>>) -> Seq<char>
    decreases ls.len(),
{
    if ls.len() == 0 {
        seq![]
    } else {
        terminated_lines(ls.drop_last()) + ls.last() + seq!['\n']
    }
}

/// The config text once the setting at `segments` (tables under `tui`, then
/// the key) is written as `literal`; nothing when the path is empty.
pub open spec fn patched_config(
    contents: Seq<char>,
    segments: Seq<Seq<char>>,
    literal: Seq<char>,
) -> Option<Seq<char>> {
    if segments.len() == 0 {
        None
    } else {
        Some(
            terminated_lines(
                patched_lines(
                    lines(contents),
                    setting_header(segments),
                    segments.last(),
                    setting_line(segments, literal),
                ),
            ),
        )
    }
}


/// A line that `str::lines` gives back unchanged once a newline follows it:
/// it holds no newline and does not end in a carriage return.
pub open spec fn plain_line(l: Seq<char>) -> bool {
    &&& forall|k: int| 0 <= k < l.len() ==> l[k] != '\n'
    &&& !(l.len() > 0 && l.last() == '\r')
}

/// No line of `contents` ends in a carriage return that `str::lines` keeps
/// (as the first of two before a newline, or at the very end).
pub open spec fn no_line_ends_in_cr(contents: Seq<char>) -> bool {
    forall|i: int|
        0 <= i < lines(contents).len() ==> !(#[trigger] lines(contents)[i].len() > 0
            && lines(contents)[i].last() == '\r')
}

/// The line that writes `literal` for the key that ends `segments`.
pub open spec fn setting_line(segments: Seq<Seq<char>>, literal: Seq<char>) -> Seq<char> {
    segments.last() + " = "@ + literal
}

/// The header line of the table that holds the key that ends `segments`.
pub open spec fn setting_header(segments: Seq<Seq<char>>) -> Seq<char> {
    "["@ + dotted_table_name(segments.drop_last()) + "]"@
}

proof fn lemma_terminated_front(ls: Seq<Seq<char>>)
    requires
        ls.len() > 0,
    ensures
        terminated_lines(ls) == ls[0] + seq!['\n'] + terminated_lines(ls.drop_first()),
    decreases ls.len(),
{
    if ls.len() == 1 {
        assert(ls.drop_first() =~= Seq::<Seq<char>>::empty());
        assert(ls.drop_last() =~= Seq::<Seq<char>>::empty());
        assert(terminated_lines(ls.drop_last()) =~= Seq::<char>::empty());
        assert(terminated_lines(ls.drop_first()) =~= Seq::<char>::empty());
        assert(ls.last() == ls[0]);
        assert(terminated_lines(ls) =~= ls[0] + seq!['\n']);
    } else {
        lemma_terminated_front(ls.drop_last());
        assert(ls.drop_last().drop_first() =~= ls.drop_first().drop_last());
        assert(ls.drop_first().last() == ls.last());
        assert(ls.drop_last()[0] == ls[0]);
        assert(terminated_lines(ls) =~= ls[0] + seq!['\n'] + terminated_lines(ls.drop_first()));
    }
}

proof fn lemma_lines_of_terminated(ls: Seq<Seq<char>>)
    requires
        forall|i: int| 0 <= i < ls.len() ==> plain_line(#[trigger] ls[i]),
    ensures
        lines(terminated_lines(ls)) == ls,
    decreases ls.len(),
{
    if ls.len() == 0 {
        assert(terminated_lines(ls) =~= Seq::<char>::empty());
        assert(lines(terminated_lines(ls)) =~= ls);
    } else {
        lemma_terminated_front(ls);
        let rest = ls.drop_first();
        assert forall|i: int| 0 <= i < rest.len() implies plain_line(#[trigger] rest[i]) by {
            assert(rest[i] == ls[i + 1]);
        }
        lemma_lines_of_terminated(rest);
        let l = ls[0];
        assert(plain_line(ls[0]));
        let s = terminated_lines(ls);
        assert(s =~= l + seq!['\n'] + terminated_lines(rest));
        assert forall|k: int| 0 <= k < l.len() implies s[k] != '\n' by {
            assert(s[k] == l[k]);
        }
        assert(s[l.len() as int] == '\n');
        crate::text::lemma_first_index_of(s, '\n', l.len() as int);
        assert(s.subrange(0, l.len() as int) =~= l);
        assert(s.subrange(l.len() as int + 1, s.len() as int) =~= terminated_lines(rest));
        assert(lines(s) =~= seq![l] + rest);
        assert(seq![l] + rest =~= ls);
    }
}

proof fn lemma_lines_have_no_newline(s: Seq<char>)
    ensures
        forall|i: int, k: int|
            0 <= i < lines(s).len() && 0 <= k < lines(s)[i].len() ==> #[trigger] lines(s)[i][k]
                != '\n',
    decreases s.len(),
{
    if s.len() > 0 {
        let i = crate::text::first_index_of(s, '\n');
        crate::text::lemma_first_index_bounds(s, '\n');
        if i < s.len() {
            let rest = s.subrange(i + 1, s.len() as int);
            lemma_lines_have_no_newline(rest);
            let l = s.subrange(0, i);
            assert forall|j: int, k: int|
                0 <= j < lines(s).len() && 0 <= k < lines(s)[j].len() implies #[trigger] lines(
                s,
            )[j][k] != '\n' by {
                if j == 0 {
                    assert(lines(s)[0] == crate::text::strip_cr(l));
                    assert(crate::text::strip_cr(l)[k] == l[k]);
                    assert(l[k] == s[k]);
                } else {
                    assert(lines(s)[j] == lines(rest)[j - 1]);
                }
            }
        } else {
            assert forall|j: int, k: int|
                0 <= j < lines(s).len() && 0 <= k < lines(s)[j].len() implies #[trigger] lines(
                s,
            )[j][k] != '\n' by {
                assert(lines(s)[j] == s);
            }
        }
    }
}

proof fn lemma_dotted_has_no_newline(segments: Seq<Seq<char>>)
    requires
        forall|i: int, k: int|
            0 <= i < segments.len() && 0 <= k < segments[i].len() ==> #[trigger] segments[i][k]
                != '\n',
    ensures
        forall|k: int|
            0 <= k < dotted_table_name(segments).len() ==> #[trigger] dotted_table_name(
                segments,
            )[k] != '\n',
    decreases segments.len(),
{
    reveal_strlit("tui");
    reveal_strlit(".");
    if segments.len() > 0 {
        let init = segments.drop_last();
        assert forall|i: int, k: int|
            0 <= i < init.len() && 0 <= k < init[i].len() implies #[trigger] init[i][k] != '\n' by {
            assert(init[i] == segments[i]);
        }
        lemma_dotted_has_no_newline(init);
        let d = dotted_table_name(segments);
        let a = dotted_table_name(init);
        let last = segments.last();
        assert(d == a + "."@ + last);
        assert forall|k: int| 0 <= k < d.len() implies #[trigger] d[k] != '\n' by {
            if k < a.len() {
                assert(d[k] == a[k]);
            } else if k == a.len() {
                assert(d[k] == '.');
            } else {
                assert(d[k] == last[k - a.len() - 1]);
                assert(segments[segments.len() - 1] == last);
            }
        }
    }
}

proof fn lemma_header_line_props(ls: Seq<Seq<char>>, header: Seq<char>, from: int)
    requires
        0 <= from <= ls.len(),
    ensures
        from <= header_line(ls, header, from) <= ls.len(),
        forall|j: int| from <= j < header_line(ls, header, from) ==> trim(#[trigger] ls[j]) != header,
        header_line(ls, header, from) < ls.len() ==> trim(ls[header_line(ls, header, from)])
            == header,
    decreases ls.len() - from,
{
    if from < ls.len() && trim(ls[from]) != header {
        lemma_header_line_props(ls, header, from + 1);
    }
}

proof fn lemma_section_end_props(ls: Seq<Seq<char>>, from: int)
    requires
        0 <= from <= ls.len(),
    ensures
        from <= section_end(ls, from) <= ls.len(),
        forall|j: int| from <= j < section_end(ls, from) ==> !is_table_header(trim(#[trigger] ls[j])),
        section_end(ls, from) < ls.len() ==> is_table_header(trim(ls[section_end(ls, from)])),
    decreases ls.len() - from,
{
    if from < ls.len() && !is_table_header(trim(ls[from])) {
        lemma_section_end_props(ls, from + 1);
    }
}

proof fn lemma_key_line_props(ls: Seq<Seq<char>>, key: Seq<char>, from: int, end: int)
    requires
        0 <= from <= end <= ls.len(),
    ensures
        from <= key_line(ls, key, from, end) <= end,
        forall|j: int| from <= j < key_line(ls, key, from, end) ==> assignment_key(#[trigger] ls[j]) != Some(key),
        key_line(ls, key, from, end) < end ==> assignment_key(ls[key_line(ls, key, from, end)]) == Some(key),
    decreases end - from,
{
    if from < end && assignment_key(ls[from]) != Some(key) {
        lemma_key_line_props(ls, key, from + 1, end);
    }
}


proof fn lemma_patched_lines_fixed(
    ls: Seq<Seq<char>>,
    header: Seq<char>,
    key: Seq<char>,
    a: Seq<char>,
)
    requires
        header.len() > 0,
        trim(header) == header,
        assignment_key(a) == Some(key),
        !is_table_header(trim(a)),
    ensures
        patched_lines(patched_lines(ls, header, key, a), header, key, a) == patched_lines(
            ls,
            header,
            key,
            a,
        ),
{
    let p = patched_lines(ls, header, key, a);
    let h = header_line(ls, header, 0);
    lemma_header_line_props(ls, header, 0);
    if h < ls.len() {
        let e = section_end(ls, h + 1);
        lemma_section_end_props(ls, h + 1);
        let k = key_line(ls, key, h + 1, e);
        lemma_key_line_props(ls, key, h + 1, e);
        if k < e {
            assert(p == ls.update(k, a));
            lemma_header_line_props(p, header, 0);
            let h2 = header_line(p, header, 0);
            assert(p[h] == ls[h]);
            if h2 < h {
                assert(p[h2] == ls[h2]);
            }
            assert(h2 == h);
            lemma_section_end_props(p, h + 1);
            let e2 = section_end(p, h + 1);
            if e2 < e {
                if e2 != k {
                    assert(p[e2] == ls[e2]);
                }
            } else if e2 > e {
                assert(p[e] == ls[e]);
            }
            assert(e2 == e);
            lemma_key_line_props(p, key, h + 1, e);
            let k2 = key_line(p, key, h + 1, e);
            if k2 < k {
                assert(p[k2] == ls[k2]);
            } else if k2 > k {
                assert(p[k] == a);
            }
            assert(k2 == k);
            assert(p.update(k, a) =~= p);
        } else {
            assert(p == ls.insert(e, a));
            lemma_header_line_props(p, header, 0);
            let h2 = header_line(p, header, 0);
            assert(p[h] == ls[h]);
            if h2 < h {
                assert(p[h2] == ls[h2]);
            }
            assert(h2 == h);
            lemma_section_end_props(p, h + 1);
            let e2 = section_end(p, h + 1);
            if e2 < e {
                assert(p[e2] == ls[e2]);
            } else if e2 == e {
                assert(p[e] == a);
            } else if e2 > e + 1 {
                assert(p[e] == a);
                assert(p[e + 1] == ls[e]);
            }
            assert(e2 == e + 1);
            lemma_key_line_props(p, key, h + 1, e + 1);
            let k2 = key_line(p, key, h + 1, e + 1);
            if k2 < e {
                assert(p[k2] == ls[k2]);
            } else if k2 > e {
                assert(p[e] == a);
            }
            assert(k2 == e);
            assert(p.update(e, a) =~= p);
        }
    } else {
        let padded = if ls.len() > 0 && !is_blank(ls.last()) {
            ls.push(seq![])
        } else {
            ls
        };
        let m = padded.len() as int;
        assert(p == padded.push(header).push(a));
        assert(p[m] == header);
        assert(p[m + 1] == a);
        lemma_header_line_props(p, header, 0);
        let h2 = header_line(p, header, 0);
        if h2 < m {
            if h2 < ls.len() {
                assert(p[h2] == ls[h2]);
            } else {
                assert(p[h2] == Seq::<char>::empty());
                assert(trim(Seq::<char>::empty()) =~= Seq::<char>::empty());
            }
        } else if h2 > m {
            assert(trim(p[m]) == header);
        }
        assert(h2 == m);
        lemma_section_end_props(p, m + 1);
        let e2 = section_end(p, m + 1);
        if e2 == m + 1 {
            assert(p[m + 1] == a);
        }
        assert(e2 == m + 2);
        lemma_key_line_props(p, key, m + 1, m + 2);
        let k2 = key_line(p, key, m + 1, m + 2);
        if k2 > m + 1 {
            assert(p[m + 1] == a);
        }
        assert(k2 == m + 1);
        assert(p.update(m + 1, a) =~= p);
    }
}


proof fn lemma_patched_lines_plain(ls: Seq<Seq<char>>, header: Seq<char>, key: Seq<char>, a: Seq<char>)
    requires
        forall|i: int| 0 <= i < ls.len() ==> plain_line(#[trigger] ls[i]),
        plain_line(header),
        plain_line(a),
    ensures
        forall|i: int|
            0 <= i < patched_lines(ls, header, key, a).len() ==> plain_line(
                #[trigger] patched_lines(ls, header, key, a)[i],
            ),
{
    let p = patched_lines(ls, header, key, a);
    let h = header_line(ls, header, 0);
    lemma_header_line_props(ls, header, 0);
    if h < ls.len() {
        let e = section_end(ls, h + 1);
        lemma_section_end_props(ls, h + 1);
        let k = key_line(ls, key, h + 1, e);
        lemma_key_line_props(ls, key, h + 1, e);
        assert forall|i: int| 0 <= i < p.len() implies plain_line(#[trigger] p[i]) by {
            if k < e {
                if i != k {
                    assert(p[i] == ls[i]);
                }
            } else {
                if i < e {
                    assert(p[i] == ls[i]);
                } else if i > e {
                    assert(p[i] == ls[i - 1]);
                }
            }
        }
    } else {
        let padded = if ls.len() > 0 && !is_blank(ls.last()) {
            ls.push(seq![])
        } else {
            ls
        };
        assert(p == padded.push(header).push(a));
        assert forall|i: int| 0 <= i < p.len() implies plain_line(#[trigger] p[i]) by {
            if i < ls.len() {
                assert(p[i] == ls[i]);
            } else if i < padded.len() {
                assert(p[i] == Seq::<char>::empty());
            }
        }
    }
}

/// Writing a setting into the text that a first write of it gave leaves
/// that text unchanged: writing twice is writing once. This holds where the
/// written text reads back line for line and the written line is found
/// again: no line of `contents` keeps a carriage return at its end, the path
/// and the literal hold no newline, the literal does not end in a carriage
/// return, and the written line assigns the key and opens no table.
pub proof fn law_patch_twice_is_patch_once(
    contents: Seq<char>,
    segments: Seq<Seq<char>>,
    literal: Seq<char>,
)
    requires
        segments.len() > 0,
        no_line_ends_in_cr(contents),
        forall|i: int, k: int|
            0 <= i < segments.len() && 0 <= k < segments[i].len() ==> #[trigger] segments[i][k]
                != '\n',
        forall|k: int| 0 <= k < literal.len() ==> literal[k] != '\n',
        !(literal.len() > 0 && literal.last() == '\r'),
        assignment_key(setting_line(segments, literal)) == Some(segments.last()),
        !is_table_header(trim(setting_line(segments, literal))),
    ensures
        patched_config(contents, segments, literal) is Some,
        patched_config(patched_config(contents, segments, literal).unwrap(), segments, literal)
            == patched_config(contents, segments, literal),
{
    reveal_strlit("[");
    reveal_strlit("]");
    reveal_strlit(" = ");
    let ls = lines(contents);
    let key = segments.last();
    let header = setting_header(segments);
    let a = setting_line(segments, literal);
    let init = segments.drop_last();
    let d = dotted_table_name(init);
    // every line of the contents reads back
    lemma_lines_have_no_newline(contents);
    assert forall|i: int| 0 <= i < ls.len() implies plain_line(#[trigger] ls[i]) by {
        assert forall|k: int| 0 <= k < ls[i].len() implies ls[i][k] != '\n' by {
            assert(lines(contents)[i][k] != '\n');
        }
        assert(!(lines(contents)[i].len() > 0 && lines(contents)[i].last() == '\r'));
    }
    // so does the header
    assert forall|i: int, k: int| 0 <= i < init.len() && 0 <= k < init[i].len() implies #[trigger] init[i][k] != '\n' by {
        assert(init[i] == segments[i]);
    }
    lemma_dotted_has_no_newline(init);
    assert(header == seq!['['] + d + seq![']']);
    assert forall|k: int| 0 <= k < header.len() implies header[k] != '\n' by {
        if 0 < k < header.len() - 1 {
            assert(header[k] == d[k - 1]);
        }
    }
    assert(plain_line(header));
    // and so does the written line
    assert(a == key + seq![' ', '=', ' '] + literal);
    assert forall|k: int| 0 <= k < a.len() implies a[k] != '\n' by {
        if k < key.len() {
            assert(a[k] == key[k]);
            assert(segments[segments.len() - 1][k] != '\n');
        } else if k >= key.len() + 3 {
            assert(a[k] == literal[k - key.len() - 3]);
        }
    }
    if literal.len() > 0 {
        assert(a.last() == literal.last());
    }
    assert(plain_line(a));
    // the header is its own trimmed text
    assert(!crate::text::is_ws('[') && !crate::text::is_ws(']'));
    assert(header[0] == '[' && header.last() == ']');
    assert(crate::text::trim_start(header) == header);
    assert(crate::text::trim_end(header) == header);
    assert(trim(header) == header);
    let p = patched_lines(ls, header, key, a);
    lemma_patched_lines_plain(ls, header, key, a);
    lemma_lines_of_terminated(p);
    lemma_patched_lines_fixed(ls, header, key, a);
}

/// Why a setting could not be written.
#[derive(Debug, PartialEq, Eq, Structural)]
pub enum ConfigPatchError {
    /// The key path names no key.
    EmptyKeyPath,
}


/// `ranges` bounds the lines `ls` of `v`.
pub open spec fn ranges_bound(v: Seq<char>, ranges: Seq<(usize, usize)>, ls: Seq<Seq<char>>) -> bool {
    &&& ranges.len() == ls.len()
    &&& forall|j: int|
        0 <= j < ranges.len() ==> {
            &&& (#[trigger] ranges[j]).0 <= ranges[j].1 <= v.len()
            &&& v.subrange(ranges[j].0 as int, ranges[j].1 as int) == ls[j]
        }
}

/// The lines of `v`, each as a string of its own.
fn line_strings(v: &Vec<char>, ranges: &Vec<(usize, usize)>) -> (r: Vec<String>)
    requires
        ranges_bound(v@, ranges@, lines(v@)),
    ensures
        string_views(r@) == lines(v@),
{
    let ghost ls = lines(v@);
    let n = ranges.len();
    let mut r: Vec<String> = Vec::new();
    let mut i: usize = 0;
    while i < n
        invariant
            n == ranges@.len(),
            ranges_bound(v@, ranges@, ls),
            ls == lines(v@),
            0 <= i <= n,
            string_views(r@) =~= ls.subrange(0, i as int),
        decreases n - i,
    {
        let (a, b) = ranges[i];
        assert(ranges@[i as int] == (a, b));
        let line = string_of(v, a, b);
        assert(line@ == ls[i as int]);
        let ghost before = r@;
        r.push(line);
        assert(r@ == before.push(line));
        assert(string_views(r@) =~= string_views(before).push(line@));
        assert(string_views(r@) =~= ls.subrange(0, i + 1));
        i += 1;
    }
    assert(ls.subrange(0, n as int) =~= ls);
    r
}

/// The first line whose trimmed text equals `hv`.
fn find_header(v: &Vec<char>, ranges: &Vec<(usize, usize)>, hv: &Vec<char>) -> (h: usize)
    requires
        ranges_bound(v@, ranges@, lines(v@)),
    ensures
        h == header_line(lines(v@), hv@, 0),
{
    let ghost ls = lines(v@);
    let n = ranges.len();
    let mut i: usize = 0;
    while i < n
        invariant
            n == ranges@.len(),
            ranges_bound(v@, ranges@, ls),
            ls == lines(v@),
            0 <= i <= n,
            header_line(ls, hv@, 0) == header_line(ls, hv@, i as int),
        decreases n - i,
    {
        let (a0, b0) = ranges[i];
        assert(ranges@[i as int] == (a0, b0));
        let (a, b) = trim_range(v, a0, b0);
        if range_eq(v, a, b, hv) {
            return i;
        }
        i += 1;
    }
    n
}

/// The first line at or after `from` that opens a table.
fn find_section_end(v: &Vec<char>, ranges: &Vec<(usize, usize)>, from: usize) -> (e: usize)
    requires
        ranges_bound(v@, ranges@, lines(v@)),
        from <= ranges@.len(),
    ensures
        e == section_end(lines(v@), from as int),
        from <= e <= ranges@.len(),
{
    let ghost ls = lines(v@);
    let n = ranges.len();
    let mut i: usize = from;
    while i < n
        invariant
            n == ranges@.len(),
            ranges_bound(v@, ranges@, ls),
            ls == lines(v@),
            from <= i <= n,
            section_end(ls, from as int) == section_end(ls, i as int),
        decreases n - i,
    {
        let (a0, b0) = ranges[i];
        assert(ranges@[i as int] == (a0, b0));
        let (a, b) = trim_range(v, a0, b0);
        proof {
            let t = v@.subrange(a as int, b as int);
            if b > a {
                assert(t[0] == v@[a as int] && t.last() == v@[b - 1]);
            }
        }
        if b > a && v[a] == '[' && v[b - 1] == ']' {
            return i;
        }
        i += 1;
    }
    n
}

/// The first line in `from..end` that assigns `key`.
fn find_key_line(ls: &Vec<String>, key: &String, from: usize, end: usize) -> (k: usize)
    requires
        from <= end <= ls@.len(),
    ensures
        k == key_line(string_views(ls@), key@, from as int, end as int),
        from <= k <= end,
{
    let ghost lv = string_views(ls@);
    let mut i: usize = from;
    while i < end
        invariant
            from <= i <= end <= ls@.len(),
            lv == string_views(ls@),
            key_line(lv, key@, from as int, end as int) == key_line(lv, key@, i as int, end as int),
        decreases end - i,
    {
        assert(lv[i as int] == ls@[i as int]@);
        match toml_assignment_key(ls[i].as_str()) {
            Some(found) => {
                if str_eq(found.as_str(), key.as_str()) {
                    return i;
                }
            },
            None => {},
        }
        i += 1;
    }
    end
}

/// The strings each followed by a newline.
fn join_terminated(ls: &Vec<String>) -> (r: String)
    ensures
        r@ == terminated_lines(string_views(ls@)),
{
    let ghost lv = string_views(ls@);
    let mut out = String::new();
    let mut i: usize = 0;
    assert(lv.subrange(0, 0) =~= Seq::<Seq<char>>::empty());
    while i < ls.len()
        invariant
            0 <= i <= ls@.len(),
            lv == string_views(ls@),
            out@ == terminated_lines(lv.subrange(0, i as int)),
        decreases ls@.len() - i,
    {
        push_str(&mut out, ls[i].as_str());
        out.push('\n');
        proof {
            let p = lv.subrange(0, i + 1);
            assert(p.drop_last() =~= lv.subrange(0, i as int));
            assert(p.last() == ls@[i as int]@);
            assert(out@ =~= terminated_lines(p));
        }
        i += 1;
    }
    assert(lv.subrange(0, ls@.len() as int) =~= lv);
    out
}

/// The text once `assignment` is written for `key` under `header`.
fn patch_lines(contents: &str, header: &String, key: &String, assignment: String) -> (r: String)
    ensures
        r@ == terminated_lines(patched_lines(lines(contents@), header@, key@, assignment@)),
{
    let v = chars_of(contents);
    let ranges = line_ranges(&v);
    let ghost ls = lines(v@);
    let n = ranges.len();
    let hv = chars_of(header.as_str());
    let mut out = line_strings(&v, &ranges);
    let ghost av = assignment@;
    let h = find_header(&v, &ranges, &hv);
    if h < n {
        let end = find_section_end(&v, &ranges, h + 1);
        let k = find_key_line(&out, key, h + 1, end);
        if k < end {
            out.set(k, assignment);
            assert(string_views(out@) =~= ls.update(k as int, av));
        } else {
            out.insert(end, assignment);
            assert(string_views(out@) =~= ls.insert(end as int, av));
        }
    } else {
        let ghost padded = if ls.len() > 0 && !is_blank(ls.last()) {
            ls.push(seq![])
        } else {
            ls
        };
        if n > 0 {
            let (a, b) = ranges[n - 1];
            assert(ranges@[n - 1] == (a, b));
            if !range_is_blank(&v, a, b) {
                out.push(String::new());
            }
        }
        assert(string_views(out@) =~= padded);
        out.push(string_from(header.as_str()));
        out.push(assignment);
        assert(string_views(out@) =~= padded.push(header@).push(av));
    }
    join_terminated(&out)
}

/// Writes the setting at `path_segments` as `literal` into `contents`.
pub fn patch_tui_config_literal(contents: &str, path_segments: &Vec<String>, literal: &str) -> (r:
    Result<String, ConfigPatchError>)
    ensures
        match r {
            Ok(s) => patched_config(contents@, string_views(path_segments@), literal@) == Some(s@),
            Err(e) => e == ConfigPatchError::EmptyKeyPath && path_segments@.len() == 0,
        },
{
    let count = path_segments.len();
    if count == 0 {
        return Err(ConfigPatchError::EmptyKeyPath);
    }
    let ghost segs = string_views(path_segments@);
    let key = &path_segments[count - 1];
    let header = table_header(path_segments, count - 1);
    let mut assignment = string_from(key.as_str());
    push_str(&mut assignment, " = ");
    push_str(&mut assignment, literal);
    proof {
        assert(segs.drop_last() =~= segs.subrange(0, count - 1));
        assert(segs.last() == key@);
    }
    let updated = patch_lines(contents, &header, key, assignment);
    Ok(updated)
}

/// Writes the setting, as a value, at `path_segments` into `contents`.
pub fn patch_tui_config_text(contents: &str, path_segments: &Vec<String>, value: &ConfigValue) -> (r:
    Result<String, ConfigPatchError>)
    ensures
        match r {
            Ok(s) => patched_config(contents@, string_views(path_segments@), config_literal(*value))
                == Some(s@),
            Err(e) => e == ConfigPatchError::EmptyKeyPath && path_segments@.len() == 0,
        },
{
    let literal = toml_value_literal(value);
    patch_tui_config_literal(contents, path_segments, literal.as_str())
}

} // verus!
