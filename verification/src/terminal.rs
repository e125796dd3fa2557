//! What the terminal multiplexer reports about the outer terminal.
use vstd::prelude::*;
use crate::config::{split_once, split_once_at};
use crate::text::{
    ascii_lower_seq,
    ascii_lowercase_range,
    chars_of,
    find_seq,
    line_ranges,
    lines,
    occurs_in,
    range_eq,
    trim,
    trim_range,
};
use crate::theme::TerminalColorDepth;
use crate::tools::{all_digits, is_digit, parse_u64, parse_u64_range};

verus! {

broadcast use vstd::string::group_string_axioms;

/// Whether `w` occurs in `s`.
pub open spec fn contains(s: Seq<char>, w: Seq<char>) -> bool {
    occurs_in(s, 0, s.len() as int, w)
}

/// The capability part of a line of `tmux show-options`/`info` output: what
/// follows a leading `NNN:` index, or the whole line.
pub open spec fn capability_of(l: Seq<char>) -> Seq<char> {
    match split_once(l, ':') {
        Some((prefix, rest)) => if all_digits(trim(prefix)) {
            trim(rest)
        } else {
            l
        },
        None => l,
    }
}

/// Whether a line announces true colour: an `RGB` or `Tc` capability whose
/// value says `true` or `enabled` (in any case).
pub open spec fn line_has_truecolor(line: Seq<char>) -> bool {
    match split_once(capability_of(trim(line)), ':') {
        None => false,
        Some((name, value)) => {
            let n = trim(name);
            let v = ascii_lower_seq(trim(value));
            (n == "RGB"@ || n == "Tc"@) && (contains(v, "true"@) || contains(v, "enabled"@))
        },
    }
}

pub open spec fn info_has_truecolor(info: Seq<char>) -> bool {
    exists|i: int| 0 <= i < lines(info).len() && #[trigger] line_has_truecolor(lines(info)[i])
}

fn range_all_digits(v: &Vec<char>, from: usize, to: usize) -> (r: bool)
    requires
        from <= to <= v@.len(),
    ensures
        r == all_digits(v@.subrange(from as int, to as int)),
{
    let mut i = from;
    while i < to
        invariant
            from <= i <= to <= v@.len(),
            forall|k: int| from <= k < i ==> is_digit(#[trigger] v@[k]),
        decreases to - i,
    {
        if !('0' <= v[i] && v[i] <= '9') {
            assert(v@.subrange(from as int, to as int)[i - from] == v@[i as int]);
            return false;
        }
        i += 1;
    }
    assert forall|k: int| 0 <= k < to - from implies is_digit(
        #[trigger] v@.subrange(from as int, to as int)[k],
    ) by {
        assert(v@.subrange(from as int, to as int)[k] == v@[from + k]);
    }
    true
}

fn range_contains(v: &Vec<char>, w: &str) -> (r: bool)
    ensures
        r == contains(v@, w@),
{
    let wv = chars_of(w);
    find_seq(v, 0, v.len(), &wv).is_some()
}

fn range_has_truecolor(v: &Vec<char>, a: usize, b: usize) -> (r: bool)
    requires
        a <= b <= v@.len(),
    ensures
        r == line_has_truecolor(v@.subrange(a as int, b as int)),
{
    let (la, lb) = trim_range(v, a, b);
    let (ca, cb) = match split_once_at(v, la, lb, ':') {
        Some(j) => {
            let (pa, pb) = trim_range(v, la, j);
            if range_all_digits(v, pa, pb) {
                trim_range(v, j + 1, lb)
            } else {
                (la, lb)
            }
        },
        None => (la, lb),
    };
    assert(v@.subrange(ca as int, cb as int) == capability_of(trim(v@.subrange(a as int, b as int))));
    match split_once_at(v, ca, cb, ':') {
        None => false,
        Some(k) => {
            let (na, nb) = trim_range(v, ca, k);
            let rgb = chars_of("RGB");
            let tc = chars_of("Tc");
            if !(range_eq(v, na, nb, &rgb) || range_eq(v, na, nb, &tc)) {
                return false;
            }
            let (va, vb) = trim_range(v, k + 1, cb);
            let lower = ascii_lowercase_range(v, va, vb);
            range_contains(&lower, "true") || range_contains(&lower, "enabled")
        },
    }
}

/// Whether `tmux` output shows that the outer terminal takes 24-bit colour.
pub fn tmux_info_has_truecolor(info: &str) -> (r: bool)
    ensures
        r == info_has_truecolor(info@),
{
    let v = chars_of(info);
    let ranges = line_ranges(&v);
    let mut i: usize = 0;
    while i < ranges.len()
        invariant
            0 <= i <= ranges@.len(),
            v@ == info@,
            ranges@.len() == lines(v@).len(),
            forall|k: int|
                0 <= k < ranges@.len() ==> {
                    &&& (#[trigger] ranges@[k]).0 <= ranges@[k].1 <= v@.len()
                    &&& v@.subrange(ranges@[k].0 as int, ranges@[k].1 as int) == lines(v@)[k]
                },
            forall|k: int| 0 <= k < i ==> !line_has_truecolor(#[trigger] lines(v@)[k]),
        decreases ranges@.len() - i,
    {
        let (a, b) = ranges[i];
        assert(ranges@[i as int] == (a, b));
        if range_has_truecolor(&v, a, b) {
            return true;
        }
        i += 1;
    }
    false
}

/// What follows the last `;` of `s`, or all of `s` (`rsplit(';').next()`).
pub open spec fn after_last_semicolon(s: Seq<char>) -> Seq<char>
    decreases s.len(),
{
    if s.len() == 0 {
        s
    } else if s.last() == ';' {
        seq![]
    } else {
        after_last_semicolon(s.drop_last()).push(s.last())
    }
}

/// Whether the terminal background is dark, from `COLORFGBG`
/// (`fg;bg` or `fg;other;bg`): a background colour 0 to 6 or 8 is dark,
/// another one light; without a readable value the background counts as
/// dark.
pub open spec fn dark_from_colorfgbg(value: Option<Seq<char>>) -> bool {
    match value {
        Some(v) => match parse_u64(after_last_semicolon(v)) {
            Some(bg) => if bg <= 255 {
                bg <= 6 || bg == 8
            } else {
                true
            },
            None => true,
        },
        None => true,
    }
}

pub fn dark_background_from_colorfgbg(value: Option<&str>) -> (r: bool)
    ensures
        r == dark_from_colorfgbg(match value {
            Some(v) => Some(v@),
            None => None,
        }),
{
    match value {
        Some(v) => {
            let c = chars_of(v);
            let n = c.len();
            let mut start = n;
            proof {
                assert(c@.subrange(0, n as int) =~= c@);
                assert(c@.subrange(n as int, n as int) =~= Seq::<char>::empty());
                assert(after_last_semicolon(c@) + Seq::<char>::empty() =~= after_last_semicolon(c@));
            }
            while start > 0 && c[start - 1] != ';'
                invariant
                    0 <= start <= n,
                    n == c@.len(),
                    after_last_semicolon(c@) == after_last_semicolon(c@.subrange(0, start as int))
                        + c@.subrange(start as int, n as int),
                decreases start,
            {
                proof {
                    let p = c@.subrange(0, start as int);
                    assert(p.drop_last() =~= c@.subrange(0, start - 1));
                    assert(p.last() == c@[start - 1]);
                    assert(c@.subrange(start - 1, n as int) =~= seq![c@[start - 1]] + c@.subrange(
                        start as int,
                        n as int,
                    ));
                    assert(after_last_semicolon(p) == after_last_semicolon(p.drop_last()).push(p.last()));
                }
                start -= 1;
            }
            proof {
                assert(c@.subrange(0, n as int) =~= c@);
                let p = c@.subrange(0, start as int);
                if start > 0 {
                    assert(p.last() == c@[start - 1]);
                    assert(after_last_semicolon(p) =~= Seq::<char>::empty());
                } else {
                    assert(p =~= Seq::<char>::empty());
                }
                assert(after_last_semicolon(c@) =~= c@.subrange(start as int, n as int));
            }
            match parse_u64_range(&c, start, n) {
                Some(bg) => if bg <= 255 {
                    bg <= 6 || bg == 8
                } else {
                    true
                },
                None => true,
            }
        },
        None => true,
    }
}

/// Whether an environment value names 24-bit colour: `truecolor` or
/// `24bit`, in any ASCII case.
pub open spec fn names_truecolor(value: Seq<char>) -> bool {
    contains(ascii_lower_seq(value), "truecolor"@) || contains(ascii_lower_seq(value), "24bit"@)
}

fn value_names_truecolor(value: &str) -> (r: bool)
    ensures
        r == names_truecolor(value@),
{
    let v = chars_of(value);
    assert(v@.subrange(0, v@.len() as int) =~= v@);
    let lower = ascii_lowercase_range(&v, 0, v.len());
    range_contains(&lower, "truecolor") || range_contains(&lower, "24bit")
}

/// Whether tmux has to be asked about the outer terminal: only where
/// `COLORTERM` does not already name 24-bit colour.
pub fn should_ask_tmux(colorterm: &str) -> (r: bool)
    ensures
        r == !names_truecolor(colorterm@),
{
    !value_names_truecolor(colorterm)
}

/// The colour depth of the terminal, from `COLORTERM`, what tmux says of
/// the outer terminal, and `TERM`, in that order.
pub fn color_depth_from_env(colorterm: &str, tmux_truecolor: bool, term: &str) -> (r: TerminalColorDepth)
    ensures
        r == if names_truecolor(colorterm@) || tmux_truecolor || names_truecolor(term@) {
            TerminalColorDepth::TrueColor
        } else {
            TerminalColorDepth::Ansi256
        },
{
    if value_names_truecolor(colorterm) {
        return TerminalColorDepth::TrueColor;
    }
    if tmux_truecolor {
        return TerminalColorDepth::TrueColor;
    }
    if value_names_truecolor(term) {
        TerminalColorDepth::TrueColor
    } else {
        TerminalColorDepth::Ansi256
    }
}

} // verus!
