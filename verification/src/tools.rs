//! Recognizing tool names and reading the plain-text results of tools.
use vstd::prelude::*;
use crate::text::{
    ascii_lower, ascii_lower_seq, ascii_lowercase_range, chars_of, find_seq, is_blank,
    is_first_occurrence, line_ranges, lines, occurs_in, range_ends_with, range_eq,
    range_is_blank, range_starts_with, skip_ws_back, string_of, trim, trim_end, trim_range,
};

verus! {

broadcast use vstd::string::group_string_axioms;

pub open spec fn is_ascii_alnum(c: char) -> bool {
    ('0' <= c <= '9') || ('a' <= c <= 'z') || ('A' <= c <= 'Z')
}

/// A tool id as the runtime sends it: not blank, and only ASCII letters,
/// digits, `_`, `-` and `.`.
pub open spec fn raw_tool_name(name: Seq<char>) -> bool {
    &&& !is_blank(name)
    &&& forall|i: int|
        0 <= i < name.len() ==> is_ascii_alnum(#[trigger] name[i]) || name[i] == '_' || name[i]
            == '-' || name[i] == '.'
}

pub fn is_raw_tool_name(name: &str) -> (r: bool)
    ensures
        r == raw_tool_name(name@),
{
    let v = chars_of(name);
    assert(v@.subrange(0, v@.len() as int) =~= v@);
    if range_is_blank(&v, 0, v.len()) {
        return false;
    }
    let mut i: usize = 0;
    while i < v.len()
        invariant
            0 <= i <= v@.len(),
            v@ == name@,
            forall|k: int|
                0 <= k < i ==> is_ascii_alnum(#[trigger] v@[k]) || v@[k] == '_' || v@[k] == '-'
                    || v@[k] == '.',
        decreases v@.len() - i,
    {
        let c = v[i];
        if !(('0' <= c && c <= '9') || ('a' <= c && c <= 'z') || ('A' <= c && c <= 'Z') || c == '_'
            || c == '-' || c == '.') {
            return false;
        }
        i += 1;
    }
    true
}

/// Whether the ASCII lower-cased `name` is `base`, or ends with `.base` or
/// `_base`.
pub open spec fn names_tool(name: Seq<char>, base: Seq<char>) -> bool {
    let n = ascii_lower_seq(name);
    ||| n == base
    ||| (n.len() >= base.len() + 1 && n.subrange(n.len() - base.len(), n.len() as int) == base && (n[n.len()
        - base.len() - 1] == '.' || n[n.len() - base.len() - 1] == '_'))
}

fn names_tool_exec(name: &str, base: &str) -> (r: bool)
    ensures
        r == names_tool(name@, base@),
{
    let v = chars_of(name);
    let n = ascii_lowercase_range(&v, 0, v.len());
    assert(v@.subrange(0, v@.len() as int) =~= v@);
    let b = chars_of(base);
    if range_eq(&n, 0, n.len(), &b) {
        assert(n@.subrange(0, n@.len() as int) =~= n@);
        return true;
    }
    assert(n@.subrange(0, n@.len() as int) =~= n@);
    if n.len() > b.len() && range_ends_with(&n, 0, n.len(), &b) {
        let c = n[n.len() - b.len() - 1];
        c == '.' || c == '_'
    } else {
        false
    }
}

pub fn is_stdin_tool(name: &str) -> (r: bool)
    ensures
        r == names_tool(name@, "write_stdin"@),
{
    names_tool_exec(name, "write_stdin")
}

pub fn is_exec_session_tool(name: &str) -> (r: bool)
    ensures
        r == names_tool(name@, "exec_command"@),
{
    names_tool_exec(name, "exec_command")
}

/// The text after the first `Output:\n` of a tool result, without trailing
/// whitespace, when that is not empty.
pub open spec fn aggregated_output(output: Seq<char>) -> Option<Seq<char>> {
    let marker = "Output:\n"@;
    if occurs_in(output, 0, output.len() as int, marker) {
        let p = choose|p: int| is_first_occurrence(output, 0, output.len() as int, marker, p);
        let text = trim_end(output.subrange(p + marker.len(), output.len() as int));
        if text.len() > 0 {
            Some(text)
        } else {
            None
        }
    } else {
        None
    }
}

proof fn lemma_first_occurrence_unique(v: Seq<char>, from: int, to: int, w: Seq<char>, p: int, q: int)
    requires
        is_first_occurrence(v, from, to, w, p),
        is_first_occurrence(v, from, to, w, q),
    ensures
        p == q,
{
    if p < q {
        assert(v.subrange(p, p + w.len()) == w);
    } else if q < p {
        assert(v.subrange(q, q + w.len()) == w);
    }
}

pub fn aggregated_output_from_tool_result(output: &str) -> (r: Option<String>)
    ensures
        match r {
            Some(s) => aggregated_output(output@) == Some(s@),
            None => aggregated_output(output@) is None,
        },
{
    let v = chars_of(output);
    let marker = chars_of("Output:\n");
    match find_seq(&v, 0, v.len(), &marker) {
        None => None,
        Some(p) => {
            proof {
                let q = choose|q: int| is_first_occurrence(v@, 0, v@.len() as int, marker@, q);
                lemma_first_occurrence_unique(v@, 0, v@.len() as int, marker@, p as int, q);
            }
            let start = p + marker.len();
            let end = skip_ws_back(&v, start, v.len());
            if end > start {
                Some(string_of(&v, start, end))
            } else {
                None
            }
        },
    }
}

/// The value of a decimal numeral: digits with an optional leading `+`, as
/// `u64::from_str` reads them.
pub open spec fn digits_value(d: Seq<char>) -> nat
    decreases d.len(),
{
    if d.len() == 0 {
        0
    } else {
        digits_value(d.drop_last()) * 10 + ((d.last() as u32) - 48) as nat
    }
}

pub open spec fn is_digit(c: char) -> bool {
    '0' <= c <= '9'
}

pub open spec fn all_digits(d: Seq<char>) -> bool {
    forall|i: int| 0 <= i < d.len() ==> is_digit(#[trigger] d[i])
}

/// A non-empty run of decimal digits whose value fits in `u64`.
pub open spec fn parse_digits(d: Seq<char>) -> Option<u64> {
    if d.len() > 0 && all_digits(d) && digits_value(d) <= u64::MAX {
        Some(digits_value(d) as u64)
    } else {
        None
    }
}

pub open spec fn parse_u64(s: Seq<char>) -> Option<u64> {
    if s.len() > 0 && s[0] == '+' {
        parse_digits(s.drop_first())
    } else {
        parse_digits(s)
    }
}

proof fn lemma_digits_value_monotone(d: Seq<char>, k: int)
    requires
        0 <= k <= d.len(),
        forall|i: int| 0 <= i < d.len() ==> is_digit(#[trigger] d[i]),
    ensures
        digits_value(d.subrange(0, k)) <= digits_value(d),
    decreases d.len() - k,
{
    if k < d.len() {
        lemma_digits_value_monotone(d, k + 1);
        assert(d.subrange(0, k + 1).drop_last() =~= d.subrange(0, k));
        assert(d.subrange(0, k + 1).last() == d[k]);
    } else {
        assert(d.subrange(0, k) =~= d);
    }
}

/// `u64::from_str` on `v[from..to]`.
pub fn parse_u64_range(v: &Vec<char>, from: usize, to: usize) -> (r: Option<u64>)
    requires
        from <= to <= v@.len(),
    ensures
        r == parse_u64(v@.subrange(from as int, to as int)),
{
    let ghost s = v@.subrange(from as int, to as int);
    let start = if from < to && v[from] == '+' {
        from + 1
    } else {
        from
    };
    let ghost d = v@.subrange(start as int, to as int);
    proof {
        if from < to && v@[from as int] == '+' {
            assert(s[0] == '+');
            assert(s.drop_first() =~= d);
        } else {
            if s.len() > 0 {
                assert(s[0] == v@[from as int]);
            }
        }
    }
    if start == to {
        return None;
    }
    let mut value: u64 = 0;
    let mut i = start;
    while i < to
        invariant
            start <= i <= to <= v@.len(),
            d == v@.subrange(start as int, to as int),
            s == v@.subrange(from as int, to as int),
            parse_u64(s) == parse_digits(d),
            d.len() > 0,
            forall|k: int| start <= k < i ==> is_digit(#[trigger] v@[k]),
            value == digits_value(v@.subrange(start as int, i as int)),
        decreases to - i,
    {
        let c = v[i];
        if !('0' <= c && c <= '9') {
            assert(d[i - start] == c);
            assert(!is_digit(d[i - start]));
            assert(!all_digits(d));
            return None;
        }
        let dg = (c as u32 - 48) as u64;
        assert(v@.subrange(start as int, i + 1).drop_last() =~= v@.subrange(start as int, i as int));
        if value > (u64::MAX - dg) / 10 {
            proof {
                assert(value * 10 + dg > u64::MAX) by (nonlinear_arith)
                    requires
                        value > (u64::MAX - dg) / 10,
                        dg < 10,
                ;
                if all_digits(d) {
                    lemma_digits_value_monotone(d, i + 1 - start);
                    assert(d.subrange(0, i + 1 - start) =~= v@.subrange(start as int, i + 1));
                    assert(digits_value(d) > u64::MAX);
                }
            }
            return None;
        }
        proof {
            assert(value * 10 + dg <= u64::MAX) by (nonlinear_arith)
                requires
                    value <= (u64::MAX - dg) / 10,
                    dg < 10,
            ;
        }
        value = value * 10 + dg;
        i += 1;
    }
    assert(v@.subrange(start as int, to as int) =~= d);
    Some(value)
}

/// The session id that an exec tool prints on a `Session id: N` line.
pub open spec fn line_session_id(line: Seq<char>) -> Option<u64> {
    let t = trim(line);
    let p = "Session id:"@;
    if t.len() >= p.len() && t.subrange(0, p.len() as int) == p {
        parse_u64(trim(t.subrange(p.len() as int, t.len() as int)))
    } else {
        None
    }
}

pub open spec fn first_session_id(ls: Seq<Seq<char>>) -> Option<u64>
    decreases ls.len(),
{
    if ls.len() == 0 {
        None
    } else {
        match line_session_id(ls[0]) {
            Some(id) => Some(id),
            None => first_session_id(ls.drop_first()),
        }
    }
}

pub fn session_id_from_tool_result(output: &str) -> (r: Option<u64>)
    ensures
        r == first_session_id(lines(output@)),
{
    let v = chars_of(output);
    let prefix = chars_of("Session id:");
    let ranges = line_ranges(&v);
    let ghost ls = lines(v@);
    let n = ranges.len();
    let mut i: usize = 0;
    assert(ls.subrange(0, n as int) =~= ls);
    while i < n
        invariant
            n == ranges@.len() == ls.len(),
            ls == lines(v@),
            v@ == output@,
            prefix@ == "Session id:"@,
            0 <= i <= n,
            forall|j: int|
                0 <= j < ranges@.len() ==> {
                    &&& (#[trigger] ranges@[j]).0 <= ranges@[j].1 <= v@.len()
                    &&& v@.subrange(ranges@[j].0 as int, ranges@[j].1 as int) == ls[j]
                },
            first_session_id(ls) == first_session_id(ls.subrange(i as int, n as int)),
        decreases n - i,
    {
        let ghost rest = ls.subrange(i as int, n as int);
        assert(rest[0] == ls[i as int]);
        assert(rest.drop_first() =~= ls.subrange(i + 1, n as int));
        let (a, b) = ranges[i];
        let (ta, tb) = trim_range(&v, a, b);
        let ghost t = v@.subrange(ta as int, tb as int);
        if range_starts_with(&v, ta, tb, &prefix) {
            assert(t.subrange(0, prefix@.len() as int) =~= v@.subrange(
                ta as int,
                ta + prefix@.len(),
            ));
            assert(t.subrange(prefix@.len() as int, t.len() as int) =~= v@.subrange(
                ta + prefix@.len(),
                tb as int,
            ));
            let (na, nb) = trim_range(&v, ta + prefix.len(), tb);
            let id = parse_u64_range(&v, na, nb);
            if id.is_some() {
                return id;
            }
        } else {
            proof {
                if t.len() >= prefix@.len() {
                    assert(t.subrange(0, prefix@.len() as int) =~= v@.subrange(
                        ta as int,
                        ta + prefix@.len(),
                    ));
                }
            }
        }
        i += 1;
    }
    None
}

/// Whether some line of a tool result reads `Status: running` (in any ASCII
/// case, surrounding whitespace ignored).
pub open spec fn result_is_running(output: Seq<char>) -> bool {
    exists|i: int|
        0 <= i < lines(output).len() && ascii_lower_seq(trim(#[trigger] lines(output)[i]))
            == "status: running"@
}

pub fn tool_result_is_running(output: &str) -> (r: bool)
    ensures
        r == result_is_running(output@),
{
    let v = chars_of(output);
    let target = chars_of("status: running");
    let ranges = line_ranges(&v);
    let ghost ls = lines(v@);
    let n = ranges.len();
    let mut i: usize = 0;
    while i < n
        invariant
            n == ranges@.len() == ls.len(),
            ls == lines(v@),
            v@ == output@,
            target@ == "status: running"@,
            0 <= i <= n,
            forall|j: int|
                0 <= j < ranges@.len() ==> {
                    &&& (#[trigger] ranges@[j]).0 <= ranges@[j].1 <= v@.len()
                    &&& v@.subrange(ranges@[j].0 as int, ranges@[j].1 as int) == ls[j]
                },
            forall|j: int| 0 <= j < i ==> ascii_lower_seq(trim(#[trigger] ls[j])) != "status: running"@,
        decreases n - i,
    {
        let (a, b) = ranges[i];
        let (ta, tb) = trim_range(&v, a, b);
        let lower = ascii_lowercase_range(&v, ta, tb);
        assert(lower@.subrange(0, lower@.len() as int) =~= lower@);
        if range_eq(&lower, 0, lower.len(), &target) {
            return true;
        }
        i += 1;
    }
    false
}

/// What `serde_json` reads from `text` at the top-level key `key` as an
/// unsigned integer: `None` when the text is not JSON, has no such key, or
/// the value there is not a `u64`.
pub uninterp spec fn json_u64_field_of(text: Seq<char>, key: Seq<char>) -> Option<u64>;

/// `serde_json::from_str::<Value>` on `text`, then the `u64` at `key`.
#[verifier::external_body]
fn json_u64_field(text: &str, key: &str) -> (r: Option<u64>)
    ensures
        r == json_u64_field_of(text@, key@),
{
    serde_json::from_str::<serde_json::Value>(text).ok()?.get(key)?.as_u64()
}

/// The `session_id` argument of a `write_stdin` call.
pub fn session_id_from_tool_arguments(arguments: &str) -> (r: Option<u64>)
    ensures
        r == json_u64_field_of(arguments@, "session_id"@),
{
    json_u64_field(arguments, "session_id")
}

} // verus!
