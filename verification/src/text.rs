//! Character-level building blocks shared by the rest of the library: the
//! view of a string as a sequence of characters, whitespace trimming, ASCII
//! case folding, decimal rendering and searching inside character ranges.
use vstd::prelude::*;
use vstd::string::StringExecFns;
use vstd::string::StringSliceAdditionalSpecFns;

verus! {

broadcast use vstd::string::group_string_axioms;

/// `String::push` appends one character to the end of the string.
pub assume_specification[ String::push ](s: &mut String, ch: char)
    ensures
        final(s)@ == old(s)@.push(ch),
;

/// Unicode `White_Space`, the property behind `char::is_whitespace`.
pub open spec fn is_ws(c: char) -> bool {
    let u = c as u32;
    ||| 0x9 <= u <= 0xD
    ||| u == 0x20
    ||| u == 0x85
    ||| u == 0xA0
    ||| u == 0x1680
    ||| 0x2000 <= u <= 0x200A
    ||| u == 0x2028
    ||| u == 0x2029
    ||| u == 0x202F
    ||| u == 0x205F
    ||| u == 0x3000
}

pub fn is_whitespace(c: char) -> (r: bool)
    ensures
        r == is_ws(c),
{
    let u = c as u32;
    (0x9 <= u && u <= 0xD) || u == 0x20 || u == 0x85 || u == 0xA0 || u == 0x1680 || (0x2000 <= u
        && u <= 0x200A) || u == 0x2028 || u == 0x2029 || u == 0x202F || u == 0x205F || u == 0x3000
}

/// `s` without its leading whitespace.
pub open spec fn trim_start(s: Seq<char>) -> Seq<char>
    decreases s.len(),
{
    if s.len() > 0 && is_ws(s[0]) {
        trim_start(s.drop_first())
    } else {
        s
    }
}

/// `s` without its trailing whitespace.
pub open spec fn trim_end(s: Seq<char>) -> Seq<char>
    decreases s.len(),
{
    if s.len() > 0 && is_ws(s.last()) {
        trim_end(s.drop_last())
    } else {
        s
    }
}

/// `s` without leading and trailing whitespace (`str::trim`).
pub open spec fn trim(s: Seq<char>) -> Seq<char> {
    trim_end(trim_start(s))
}

pub open spec fn has_ws(s: Seq<char>) -> bool {
    exists|i: int| 0 <= i < s.len() && #[trigger] is_ws(s[i])
}

/// Whether `s` is empty once trimmed (`s.trim().is_empty()`).
pub open spec fn is_blank(s: Seq<char>) -> bool {
    forall|i: int| 0 <= i < s.len() ==> #[trigger] is_ws(s[i])
}

pub proof fn lemma_trim_start_suffix(s: Seq<char>)
    ensures
        exists|k: int|
            0 <= k <= s.len() && trim_start(s) == #[trigger] s.subrange(k, s.len() as int) && (
            forall|i: int| 0 <= i < k ==> is_ws(#[trigger] s[i])) && (k < s.len() ==> !is_ws(
                s[k],
            )),
    decreases s.len(),
{
    if s.len() > 0 && is_ws(s[0]) {
        lemma_trim_start_suffix(s.drop_first());
        let k = choose|k: int|
            0 <= k <= s.drop_first().len() && trim_start(s.drop_first())
                == #[trigger] s.drop_first().subrange(k, s.drop_first().len() as int) && (forall|
                i: int,
            | 0 <= i < k ==> is_ws(#[trigger] s.drop_first()[i])) && (k < s.drop_first().len()
                ==> !is_ws(s.drop_first()[k]));
        assert(s.drop_first().subrange(k, s.drop_first().len() as int) =~= s.subrange(
            k + 1,
            s.len() as int,
        ));
        assert forall|i: int| 0 <= i < k + 1 implies is_ws(#[trigger] s[i]) by {
            if i > 0 {
                assert(s[i] == s.drop_first()[i - 1]);
            }
        }
        assert(k + 1 < s.len() ==> s[k + 1] == s.drop_first()[k]);
    } else {
        assert(s.subrange(0, s.len() as int) =~= s);
    }
}

pub proof fn lemma_trim_end_prefix(s: Seq<char>)
    ensures
        exists|k: int|
            0 <= k <= s.len() && trim_end(s) == #[trigger] s.subrange(0, k) && (forall|i: int|
                k <= i < s.len() ==> is_ws(#[trigger] s[i])) && (k > 0 ==> !is_ws(s[k - 1])),
    decreases s.len(),
{
    if s.len() > 0 && is_ws(s.last()) {
        lemma_trim_end_prefix(s.drop_last());
        let k = choose|k: int|
            0 <= k <= s.drop_last().len() && trim_end(s.drop_last()) == #[trigger] s.drop_last().subrange(
                0,
                k,
            ) && (forall|i: int| k <= i < s.drop_last().len() ==> is_ws(#[trigger] s.drop_last()[i]))
                && (k > 0 ==> !is_ws(s.drop_last()[k - 1]));
        assert(s.drop_last().subrange(0, k) =~= s.subrange(0, k));
        assert forall|i: int| k <= i < s.len() implies is_ws(#[trigger] s[i]) by {
            if i < s.len() - 1 {
                assert(s[i] == s.drop_last()[i]);
            }
        }
    } else {
        assert(s.subrange(0, s.len() as int) =~= s);
    }
}

/// The index at which `v[from..to]` stops being whitespace.
pub fn skip_ws(v: &Vec<char>, from: usize, to: usize) -> (i: usize)
    requires
        from <= to <= v@.len(),
    ensures
        from <= i <= to,
        v@.subrange(i as int, to as int) == trim_start(v@.subrange(from as int, to as int)),
        forall|k: int| from <= k < i ==> is_ws(#[trigger] v@[k]),
        i < to ==> !is_ws(v@[i as int]),
{
    let mut i = from;
    while i < to && is_whitespace(v[i])
        invariant
            from <= i <= to <= v@.len(),
            trim_start(v@.subrange(i as int, to as int)) == trim_start(
                v@.subrange(from as int, to as int),
            ),
            forall|k: int| from <= k < i ==> is_ws(#[trigger] v@[k]),
        decreases to - i,
    {
        assert(v@.subrange(i as int, to as int).drop_first() =~= v@.subrange(
            i + 1,
            to as int,
        ));
        i += 1;
    }
    proof {
        let s = v@.subrange(i as int, to as int);
        if i < to {
            assert(s[0] == v@[i as int]);
        }
    }
    i
}

/// The index at which the trailing whitespace of `v[from..to]` starts.
pub fn skip_ws_back(v: &Vec<char>, from: usize, to: usize) -> (j: usize)
    requires
        from <= to <= v@.len(),
    ensures
        from <= j <= to,
        v@.subrange(from as int, j as int) == trim_end(v@.subrange(from as int, to as int)),
        forall|k: int| j <= k < to ==> is_ws(#[trigger] v@[k]),
        j > from ==> !is_ws(v@[j - 1]),
{
    let mut j = to;
    while j > from && is_whitespace(v[j - 1])
        invariant
            from <= j <= to <= v@.len(),
            trim_end(v@.subrange(from as int, j as int)) == trim_end(
                v@.subrange(from as int, to as int),
            ),
            forall|k: int| j <= k < to ==> is_ws(#[trigger] v@[k]),
        decreases j - from,
    {
        assert(v@.subrange(from as int, j as int).drop_last() =~= v@.subrange(
            from as int,
            j - 1,
        ));
        j -= 1;
    }
    proof {
        let s = v@.subrange(from as int, j as int);
        if j > from {
            assert(s.last() == v@[j - 1]);
        }
    }
    j
}

/// The bounds of `v[from..to]` once trimmed on both sides.
pub fn trim_range(v: &Vec<char>, from: usize, to: usize) -> (r: (usize, usize))
    requires
        from <= to <= v@.len(),
    ensures
        from <= r.0 <= r.1 <= to,
        v@.subrange(r.0 as int, r.1 as int) == trim(v@.subrange(from as int, to as int)),
{
    let i = skip_ws(v, from, to);
    let j = skip_ws_back(v, i, to);
    (i, j)
}

/// `s` without its leading and trailing whitespace.
pub fn trimmed(s: &str) -> (r: String)
    ensures
        r@ == trim(s@),
{
    let v = chars_of(s);
    assert(v@.subrange(0, v@.len() as int) =~= v@);
    let (a, b) = trim_range(&v, 0, v.len());
    string_of(&v, a, b)
}

/// Whether every character of `v[from..to]` is whitespace.
pub fn range_is_blank(v: &Vec<char>, from: usize, to: usize) -> (r: bool)
    requires
        from <= to <= v@.len(),
    ensures
        r == is_blank(v@.subrange(from as int, to as int)),
{
    let i = skip_ws(v, from, to);
    proof {
        let s = v@.subrange(from as int, to as int);
        if i < to {
            assert(!is_ws(s[i - from]));
        } else {
            assert forall|k: int| 0 <= k < s.len() implies #[trigger] is_ws(s[k]) by {
                assert(s[k] == v@[from + k]);
            }
        }
    }
    i == to
}

/// Whether `v[from..to]` holds a whitespace character.
pub fn range_has_ws(v: &Vec<char>, from: usize, to: usize) -> (r: bool)
    requires
        from <= to <= v@.len(),
    ensures
        r == has_ws(v@.subrange(from as int, to as int)),
{
    let mut i = from;
    while i < to
        invariant
            from <= i <= to <= v@.len(),
            forall|k: int| from <= k < i ==> !is_ws(#[trigger] v@[k]),
        decreases to - i,
    {
        if is_whitespace(v[i]) {
            assert(v@.subrange(from as int, to as int)[i - from] == v@[i as int]);
            return true;
        }
        i += 1;
    }
    proof {
        let s = v@.subrange(from as int, to as int);
        assert forall|k: int| 0 <= k < s.len() implies !is_ws(#[trigger] s[k]) by {
            assert(s[k] == v@[from + k]);
        }
    }
    false
}

/// The characters of `s`, in order.
pub fn chars_of(s: &str) -> (v: Vec<char>)
    ensures
        v@ == s@,
{
    let mut v: Vec<char> = Vec::new();
    for c in it: s.chars()
        invariant
            v@ == it.seq().take(it.index()),
            it.seq() == s@,
    {
        v.push(c);
    }
    v
}

/// A string holding the characters of `chars[from..to]`.
pub fn string_of(chars: &Vec<char>, from: usize, to: usize) -> (s: String)
    requires
        from <= to <= chars@.len(),
    ensures
        s@ == chars@.subrange(from as int, to as int),
{
    let mut s = String::new();
    push_range(&mut s, chars, from, to);
    s
}

/// Appends `chars[from..to]` to `s`.
pub fn push_range(s: &mut String, chars: &Vec<char>, from: usize, to: usize)
    requires
        from <= to <= chars@.len(),
    ensures
        final(s)@ == old(s)@ + chars@.subrange(from as int, to as int),
{
    let mut i = from;
    while i < to
        invariant
            from <= i <= to <= chars@.len(),
            s@ == old(s)@ + chars@.subrange(from as int, i as int),
        decreases to - i,
    {
        s.push(chars[i]);
        assert(chars@.subrange(from as int, i + 1) =~= chars@.subrange(from as int, i as int).push(
            chars@[i as int],
        ));
        i += 1;
    }
}

/// Appends `t` to `s`.
pub fn push_str(s: &mut String, t: &str)
    ensures
        final(s)@ == old(s)@ + t@,
{
    s.append(t);
}

/// A fresh string equal to `t`.
pub fn string_from(t: &str) -> (s: String)
    ensures
        s@ == t@,
{
    let mut s = String::new();
    s.append(t);
    assert(s@ =~= t@);
    s
}

/// Whether `v[from..to]` equals `w`.
pub fn range_eq(v: &Vec<char>, from: usize, to: usize, w: &Vec<char>) -> (r: bool)
    requires
        from <= to <= v@.len(),
    ensures
        r == (v@.subrange(from as int, to as int) == w@),
{
    if to - from != w.len() {
        return false;
    }
    let mut i: usize = 0;
    while i < w.len()
        invariant
            from <= to <= v@.len(),
            to - from == w@.len(),
            0 <= i <= w@.len(),
            forall|k: int| 0 <= k < i ==> v@[from + k] == w@[k],
        decreases w@.len() - i,
    {
        if v[from + i] != w[i] {
            assert(v@.subrange(from as int, to as int)[i as int] != w@[i as int]);
            return false;
        }
        i += 1;
    }
    assert(v@.subrange(from as int, to as int) =~= w@);
    true
}

/// Whether `w` occurs in `v[from..to]` starting at position `at`.
pub open spec fn occurs_at(v: Seq<char>, at: int, w: Seq<char>) -> bool {
    0 <= at && at + w.len() <= v.len() && v.subrange(at, at + w.len()) == w
}

/// Whether `v[from..]` starts with `w` (and fits before `to`).
pub fn range_starts_with(v: &Vec<char>, from: usize, to: usize, w: &Vec<char>) -> (r: bool)
    requires
        from <= to <= v@.len(),
    ensures
        r == (w@.len() <= to - from && v@.subrange(from as int, from + w@.len()) == w@),
{
    if w.len() > to - from {
        return false;
    }
    range_eq(v, from, from + w.len(), w)
}

/// Whether `v[..to]` ends with `w` (and it fits after `from`).
pub fn range_ends_with(v: &Vec<char>, from: usize, to: usize, w: &Vec<char>) -> (r: bool)
    requires
        from <= to <= v@.len(),
    ensures
        r == (w@.len() <= to - from && v@.subrange(to - w@.len(), to as int) == w@),
{
    if w.len() > to - from {
        return false;
    }
    range_eq(v, to - w.len(), to, w)
}

/// The first position in `from..to` at which the character `c` stands.
pub fn find_char(v: &Vec<char>, from: usize, to: usize, c: char) -> (r: Option<usize>)
    requires
        from <= to <= v@.len(),
    ensures
        match r {
            Some(i) => from <= i < to && v@[i as int] == c && forall|k: int|
                from <= k < i ==> v@[k] != c,
            None => forall|k: int| from <= k < to ==> v@[k] != c,
        },
{
    let mut i = from;
    while i < to
        invariant
            from <= i <= to <= v@.len(),
            forall|k: int| from <= k < i ==> v@[k] != c,
        decreases to - i,
    {
        if v[i] == c {
            return Some(i);
        }
        i += 1;
    }
    None
}

/// The first position `p` in `from..` with `v[p..p+w.len()] == w`, inside `v[from..to]`.
pub open spec fn is_first_occurrence(v: Seq<char>, from: int, to: int, w: Seq<char>, p: int) -> bool {
    &&& from <= p && p + w.len() <= to
    &&& v.subrange(p, p + w.len()) == w
    &&& forall|q: int| from <= q < p ==> #[trigger] v.subrange(q, q + w.len()) != w
}

pub open spec fn occurs_in(v: Seq<char>, from: int, to: int, w: Seq<char>) -> bool {
    exists|p: int| from <= p && p + w.len() <= to && #[trigger] v.subrange(p, p + w.len()) == w
}

/// The first occurrence of `w` inside `v[from..to]` (`str::find` over characters).
pub fn find_seq(v: &Vec<char>, from: usize, to: usize, w: &Vec<char>) -> (r: Option<usize>)
    requires
        from <= to <= v@.len(),
    ensures
        match r {
            Some(p) => is_first_occurrence(v@, from as int, to as int, w@, p as int),
            None => !occurs_in(v@, from as int, to as int, w@),
        },
{
    if w.len() > to - from {
        assert forall|p: int| from <= p && p + w@.len() <= to implies #[trigger] v@.subrange(
            p,
            p + w@.len(),
        ) != w@ by {}
        return None;
    }
    let last = to - w.len();
    let mut p = from;
    loop
        invariant
            from <= p <= last,
            last + w@.len() == to <= v@.len(),
            forall|q: int| from <= q < p ==> #[trigger] v@.subrange(q, q + w@.len()) != w@,
        decreases last - p,
    {
        if range_eq(v, p, p + w.len(), w) {
            return Some(p);
        }
        if p == last {
            return None;
        }
        p += 1;
    }
}

/// ASCII lower-casing of one character (`char::to_ascii_lowercase`).
pub open spec fn ascii_lower(c: char) -> char {
    if 'A' <= c <= 'Z' {
        ((c as u32) + 32) as char
    } else {
        c
    }
}

pub open spec fn ascii_lower_seq(s: Seq<char>) -> Seq<char> {
    s.map_values(|c: char| ascii_lower(c))
}

pub fn to_ascii_lower(c: char) -> (r: char)
    ensures
        r == ascii_lower(c),
{
    if 'A' <= c && c <= 'Z' {
        let b = (c as u8) + 32;
        b as char
    } else {
        c
    }
}

/// The ASCII lower-case copy of `v[from..to]` (`str::to_ascii_lowercase`).
pub fn ascii_lowercase_range(v: &Vec<char>, from: usize, to: usize) -> (r: Vec<char>)
    requires
        from <= to <= v@.len(),
    ensures
        r@ == ascii_lower_seq(v@.subrange(from as int, to as int)),
{
    let mut r: Vec<char> = Vec::new();
    let mut i = from;
    while i < to
        invariant
            from <= i <= to <= v@.len(),
            r@ == ascii_lower_seq(v@.subrange(from as int, i as int)),
        decreases to - i,
    {
        r.push(to_ascii_lower(v[i]));
        assert(ascii_lower_seq(v@.subrange(from as int, i + 1)) =~= ascii_lower_seq(
            v@.subrange(from as int, i as int),
        ).push(ascii_lower(v@[i as int])));
        i += 1;
    }
    r
}

/// The character of the decimal digit `d`.
pub open spec fn digit_char(d: int) -> char {
    if d == 0 {
        '0'
    } else if d == 1 {
        '1'
    } else if d == 2 {
        '2'
    } else if d == 3 {
        '3'
    } else if d == 4 {
        '4'
    } else if d == 5 {
        '5'
    } else if d == 6 {
        '6'
    } else if d == 7 {
        '7'
    } else if d == 8 {
        '8'
    } else {
        '9'
    }
}

/// The decimal rendering of `n`, as `format!("{n}")` writes it.
pub open spec fn decimal(n: nat) -> Seq<char>
    decreases n,
{
    if n < 10 {
        seq![digit_char(n as int)]
    } else {
        decimal(n / 10).push(digit_char((n % 10) as int))
    }
}

fn digit(d: u64) -> (c: char)
    requires
        d < 10,
    ensures
        c == digit_char(d as int),
{
    if d == 0 {
        '0'
    } else if d == 1 {
        '1'
    } else if d == 2 {
        '2'
    } else if d == 3 {
        '3'
    } else if d == 4 {
        '4'
    } else if d == 5 {
        '5'
    } else if d == 6 {
        '6'
    } else if d == 7 {
        '7'
    } else if d == 8 {
        '8'
    } else {
        '9'
    }
}

/// Appends the decimal rendering of `n` to `s`.
pub fn push_decimal(s: &mut String, n: u64)
    ensures
        final(s)@ == old(s)@ + decimal(n as nat),
    decreases n,
{
    if n >= 10 {
        push_decimal(s, n / 10);
    }
    s.push(digit(n % 10));
    proof {
        if n < 10 {
            assert(old(s)@ + decimal(n as nat) =~= old(s)@.push(digit_char(n as int)));
        } else {
            assert(old(s)@ + decimal(n as nat) =~= (old(s)@ + decimal((n / 10) as nat)).push(
                digit_char((n % 10) as int),
            ));
        }
    }
}


/// The decimal rendering of a signed integer, with `-` before a negative one.
pub open spec fn signed_decimal(n: int) -> Seq<char> {
    if n < 0 {
        seq!['-'] + decimal((-n) as nat)
    } else {
        decimal(n as nat)
    }
}

/// Appends the decimal rendering of `n` to `s`.
pub fn push_signed_decimal(s: &mut String, n: i64)
    ensures
        final(s)@ == old(s)@ + signed_decimal(n as int),
{
    if n < 0 {
        s.push('-');
        let magnitude: u64 = (-(n + 1)) as u64 + 1;
        push_decimal(s, magnitude);
        assert(final(s)@ =~= old(s)@ + (seq!['-'] + decimal((-(n as int)) as nat)));
    } else {
        push_decimal(s, n as u64);
    }
}

/// The position of the first `c` in `s`, or `s.len()` when there is none.
pub open spec fn first_index_of(s: Seq<char>, c: char) -> int
    decreases s.len(),
{
    if s.len() == 0 {
        0
    } else if s[0] == c {
        0
    } else {
        1 + first_index_of(s.drop_first(), c)
    }
}

pub proof fn lemma_first_index_of(s: Seq<char>, c: char, i: int)
    requires
        0 <= i <= s.len(),
        forall|k: int| 0 <= k < i ==> s[k] != c,
        i < s.len() ==> s[i] == c,
    ensures
        first_index_of(s, c) == i,
    decreases s.len(),
{
    if s.len() > 0 && s[0] != c {
        assert forall|k: int| 0 <= k < i - 1 implies s.drop_first()[k] != c by {
            assert(s.drop_first()[k] == s[k + 1]);
        }
        if i - 1 < s.len() - 1 {
            assert(s.drop_first()[i - 1] == s[i]);
        }
        lemma_first_index_of(s.drop_first(), c, i - 1);
    }
}

/// `line` without a final carriage return.
pub open spec fn strip_cr(line: Seq<char>) -> Seq<char> {
    if line.len() > 0 && line.last() == '\r' {
        line.drop_last()
    } else {
        line
    }
}

/// The lines of `s` as `str::lines` yields them: split at `\n`, a `\r`
/// before the `\n` dropped, and no empty line after a final `\n`.
pub open spec fn lines(s: Seq<char>) -> Seq<Seq<char>>
    decreases s.len(),
{
    if s.len() == 0 {
        seq![]
    } else {
        let i = first_index_of(s, '\n');
        proof {
            lemma_first_index_bounds(s, '\n');
        }
        if i < s.len() {
            seq![strip_cr(s.subrange(0, i))] + lines(s.subrange(i + 1, s.len() as int))
        } else {
            seq![s]
        }
    }
}

pub proof fn lemma_first_index_bounds(s: Seq<char>, c: char)
    ensures
        0 <= first_index_of(s, c) <= s.len(),
        forall|k: int| 0 <= k < first_index_of(s, c) ==> s[k] != c,
        first_index_of(s, c) < s.len() ==> s[first_index_of(s, c)] == c,
    decreases s.len(),
{
    if s.len() > 0 && s[0] != c {
        lemma_first_index_bounds(s.drop_first(), c);
        assert forall|k: int| 0 <= k < first_index_of(s, c) implies s[k] != c by {
            if k > 0 {
                assert(s[k] == s.drop_first()[k - 1]);
            }
        }
    }
}

/// The bounds of the lines of `v`, each with its `\r\n` or `\n` left out.
pub fn line_ranges(v: &Vec<char>) -> (r: Vec<(usize, usize)>)
    ensures
        r@.len() == lines(v@).len(),
        forall|i: int|
            0 <= i < r@.len() ==> {
                &&& (#[trigger] r@[i]).0 <= r@[i].1 <= v@.len()
                &&& v@.subrange(r@[i].0 as int, r@[i].1 as int) == lines(v@)[i]
            },
{
    let mut r: Vec<(usize, usize)> = Vec::new();
    let mut pos: usize = 0;
    let n = v.len();
    let ghost done: Seq<Seq<char>> = seq![];
    assert(v@.subrange(0, n as int) =~= v@);
    assert(done + lines(v@) =~= lines(v@));
    while pos < n
        invariant
            n == v@.len(),
            0 <= pos <= n,
            lines(v@) == done + lines(v@.subrange(pos as int, n as int)),
            r@.len() == done.len(),
            forall|i: int|
                0 <= i < r@.len() ==> {
                    &&& (#[trigger] r@[i]).0 <= r@[i].1 <= v@.len()
                    &&& v@.subrange(r@[i].0 as int, r@[i].1 as int) == done[i]
                },
        decreases n - pos,
    {
        let ghost rest = v@.subrange(pos as int, n as int);
        match find_char(v, pos, n, '\n') {
            Some(j) => {
                proof {
                    lemma_first_index_of(rest, '\n', j - pos);
                    assert(rest.subrange(0, j - pos) =~= v@.subrange(pos as int, j as int));
                    assert(rest.subrange(j - pos + 1, rest.len() as int) =~= v@.subrange(
                        j + 1,
                        n as int,
                    ));
                }
                let end = if j > pos && v[j - 1] == '\r' {
                    j - 1
                } else {
                    j
                };
                proof {
                    let l = v@.subrange(pos as int, j as int);
                    if j > pos && v@[j - 1] == '\r' {
                        assert(l.drop_last() =~= v@.subrange(pos as int, end as int));
                    }
                    done = done.push(strip_cr(l));
                    assert(lines(v@) =~= done + lines(v@.subrange(j + 1, n as int)));
                }
                r.push((pos, end));
                pos = j + 1;
            },
            None => {
                proof {
                    lemma_first_index_of(rest, '\n', rest.len() as int);
                    done = done.push(rest);
                    assert(lines(v@.subrange(n as int, n as int)) =~= Seq::<Seq<char>>::empty());
                    assert(lines(v@) =~= done + lines(v@.subrange(n as int, n as int)));
                }
                r.push((pos, n));
                pos = n;
            },
        }
    }
    proof {
        assert(lines(v@.subrange(n as int, n as int)) =~= Seq::<Seq<char>>::empty());
        assert(done + Seq::<Seq<char>>::empty() =~= done);
    }
    r
}


/// Whether `a` and `b` hold the same characters.
pub fn str_eq(a: &str, b: &str) -> (r: bool)
    ensures
        r == (a@ == b@),
{
    let va = chars_of(a);
    let vb = chars_of(b);
    assert(va@.subrange(0, va@.len() as int) =~= va@);
    range_eq(&va, 0, va.len(), &vb)
}


/// The first `max_chars` characters of `value`, with `suffix` appended when
/// characters were cut off.
pub open spec fn truncated(value: Seq<char>, max_chars: nat, suffix: Seq<char>) -> Seq<char> {
    if max_chars < value.len() {
        value.take(max_chars as int) + suffix
    } else {
        value
    }
}

fn truncate_with(value: &str, max_chars: usize, suffix: &str) -> (r: String)
    ensures
        r@ == truncated(value@, max_chars as nat, suffix@),
{
    let v = chars_of(value);
    if max_chars < v.len() {
        let mut out = string_of(&v, 0, max_chars);
        push_str(&mut out, suffix);
        assert(v@.subrange(0, max_chars as int) =~= v@.take(max_chars as int));
        out
    } else {
        string_from(value)
    }
}

/// `value` cut to `max_chars` characters, ending in `...` when cut.
pub fn truncate(value: &str, max_chars: usize) -> (r: String)
    ensures
        r@ == truncated(value@, max_chars as nat, "..."@),
{
    truncate_with(value, max_chars, "...")
}

/// Tool output cut to `max_chars` characters, with a note on a line of its
/// own when cut.
pub fn truncate_for_transcript(text: &str, max_chars: usize) -> (r: String)
    ensures
        r@ == truncated(text@, max_chars as nat, "\n... output truncated ..."@),
{
    truncate_with(text, max_chars, "\n... output truncated ...")
}

/// The characters of `text` from `start` up to (not including) `end`.
pub open spec fn char_slice(text: Seq<char>, start: int, end: int) -> Seq<char> {
    if start >= text.len() || end <= start {
        seq![]
    } else if end >= text.len() {
        text.subrange(start, text.len() as int)
    } else {
        text.subrange(start, end)
    }
}

pub fn slice_chars(text: &str, start: usize, end: usize) -> (r: String)
    ensures
        r@ == char_slice(text@, start as int, end as int),
{
    let v = chars_of(text);
    if start >= v.len() || end <= start {
        String::new()
    } else if end >= v.len() {
        string_of(&v, start, v.len())
    } else {
        string_of(&v, start, end)
    }
}

/// ` args` (trimmed) when `args` is not blank, else nothing: what follows a
/// slash command's name in the event log.
pub open spec fn command_suffix(args: Seq<char>) -> Seq<char> {
    if is_blank(args) {
        seq![]
    } else {
        seq![' '] + trim(args)
    }
}

pub proof fn lemma_blank_iff_trim_empty(s: Seq<char>)
    ensures
        is_blank(s) <==> trim(s).len() == 0,
{
    lemma_trim_start_suffix(s);
    let k = choose|k: int|
        0 <= k <= s.len() && trim_start(s) == #[trigger] s.subrange(k, s.len() as int) && (forall|
            i: int,
        | 0 <= i < k ==> is_ws(#[trigger] s[i])) && (k < s.len() ==> !is_ws(s[k]));
    lemma_trim_end_prefix(trim_start(s));
    let t = trim_start(s);
    let j = choose|j: int|
        0 <= j <= t.len() && trim_end(t) == #[trigger] t.subrange(0, j) && (forall|i: int|
            j <= i < t.len() ==> is_ws(#[trigger] t[i])) && (j > 0 ==> !is_ws(t[j - 1]));
    if k < s.len() {
        assert(t[0] == s[k]);
        if j == 0 {
            assert(is_ws(t[0]));
        }
    } else {
        assert forall|i: int| 0 <= i < s.len() implies #[trigger] is_ws(s[i]) by {}
    }
}

pub fn slash_command_suffix(args: &str) -> (r: String)
    ensures
        r@ == command_suffix(args@),
{
    let v = chars_of(args);
    assert(v@.subrange(0, v@.len() as int) =~= v@);
    if range_is_blank(&v, 0, v.len()) {
        String::new()
    } else {
        let (a, b) = trim_range(&v, 0, v.len());
        let mut out = String::new();
        out.push(' ');
        push_range(&mut out, &v, a, b);
        assert(out@ =~= seq![' '] + trim(args@));
        out
    }
}

/// The first eight bytes of an id, when they end at a character boundary;
/// else the whole id.
pub fn short_id(id: &str) -> (r: &str)
    ensures
        r.spec_bytes() == (if vstd::utf8::is_char_boundary(id.spec_bytes(), 8) {
            id.spec_bytes().subrange(0, 8)
        } else {
            id.spec_bytes()
        }),
{
    if id.is_char_boundary(8) {
        id.split_at(8).0
    } else {
        id
    }
}

/// The roadmap file that `/roadmap <plan>` opens.
pub open spec fn roadmap_path(plan: Seq<char>) -> Seq<char> {
    if plan.len() >= 8 && plan.subrange(0, 8) == "roadmap/"@ {
        plan
    } else if plan.len() >= 3 && plan.subrange(plan.len() - 3, plan.len() as int) == ".md"@ {
        "roadmap/"@ + plan
    } else {
        "roadmap/"@ + plan + ".md"@
    }
}

pub fn roadmap_slash_path(plan: &str) -> (r: String)
    ensures
        r@ == roadmap_path(plan@),
{
    let v = chars_of(plan);
    let prefix = chars_of("roadmap/");
    let md = chars_of(".md");
    proof {
        reveal_strlit("roadmap/");
        reveal_strlit(".md");
    }
    if range_starts_with(&v, 0, v.len(), &prefix) {
        string_from(plan)
    } else if range_ends_with(&v, 0, v.len(), &md) {
        let mut out = string_from("roadmap/");
        push_str(&mut out, plan);
        out
    } else {
        let mut out = string_from("roadmap/");
        push_str(&mut out, plan);
        push_str(&mut out, ".md");
        assert(out@ =~= "roadmap/"@ + plan@ + ".md"@);
        out
    }
}

} // verus!
