//! Selecting transcript text with the mouse: the dragged range, the columns
//! it covers on each screen row, and the text that is copied.
use vstd::prelude::*;
use crate::paste::join;
use crate::text::{chars_of, is_blank, push_range, push_str, range_is_blank, skip_ws_back, trim_end};

verus! {

broadcast use vstd::string::group_string_axioms;

/// A cell on screen.
#[derive(Debug, Clone, Copy, PartialEq, Eq, Structural)]
pub struct SelectionPoint {
    pub row: u16,
    pub column: u16,
}

/// A drag from `anchor` (where the button went down) to `cursor`.
#[derive(Debug, Clone, Copy, PartialEq, Eq, Structural)]
pub struct MouseSelection {
    pub anchor: SelectionPoint,
    pub cursor: SelectionPoint,
    pub dragging: bool,
}

/// The text drawn on one screen row.
#[derive(Debug, Clone, PartialEq, Eq)]
pub struct SelectableLine {
    pub row: u16,
    pub text: String,
}

/// Whether `a` comes before `b` in reading order (row, then column).
pub open spec fn point_before(a: SelectionPoint, b: SelectionPoint) -> bool {
    a.row < b.row || (a.row == b.row && a.column < b.column)
}

/// The two ends of a drag in reading order.
pub open spec fn ordered(a: SelectionPoint, b: SelectionPoint) -> (SelectionPoint, SelectionPoint) {
    if point_before(b, a) {
        (b, a)
    } else {
        (a, b)
    }
}

/// The start and end of a selection, whichever way it was dragged.
pub fn normalized_selection(selection: &MouseSelection) -> (r: (SelectionPoint, SelectionPoint))
    ensures
        r == ordered(selection.anchor, selection.cursor),
{
    let a = selection.anchor;
    let b = selection.cursor;
    if b.row < a.row || (b.row == a.row && b.column < a.column) {
        (b, a)
    } else {
        (a, b)
    }
}

/// A drag selects the same range whichever end it started from.
pub proof fn law_selection_ignores_drag_direction(a: SelectionPoint, b: SelectionPoint)
    ensures
        ordered(a, b) == ordered(b, a),
        !point_before(ordered(a, b).1, ordered(a, b).0),
{
}

/// The columns `from..to` of a row of `len` characters that the range
/// `start..=end` covers, if any.
pub open spec fn columns_for_row(
    row: u16,
    len: nat,
    range: (SelectionPoint, SelectionPoint),
) -> Option<(nat, nat)> {
    let (start, end) = range;
    if row < start.row || row > end.row {
        None
    } else {
        let from: nat = if row == start.row {
            if (start.column as nat) < len {
                start.column as nat
            } else {
                len
            }
        } else {
            0
        };
        let to: nat = if row == end.row {
            if (end.column as nat) + 1 < len {
                (end.column as nat + 1) as nat
            } else {
                len
            }
        } else {
            len
        };
        if from < to {
            Some((from, to))
        } else {
            None
        }
    }
}

/// The character columns of `text`, on screen row `row`, that the range
/// covers: from the start column on the first row, up to and including the
/// end column on the last row, whole rows in between.
pub fn selection_columns_for_row(row: u16, text: &str, range: (SelectionPoint, SelectionPoint)) -> (r:
    Option<(usize, usize)>)
    ensures
        r == (match columns_for_row(row, text@.len(), range) {
            Some((f, t)) => Some((f as usize, t as usize)),
            None => None::<(usize, usize)>,
        }),
        r matches Some((f, t)) ==> f < t <= text@.len() && columns_for_row(row, text@.len(), range)
            == Some((f as nat, t as nat)),
{
    let (start, end) = range;
    if row < start.row || row > end.row {
        return None;
    }
    let len = chars_of(text).len();
    let from: usize = if row == start.row {
        if (start.column as usize) < len {
            start.column as usize
        } else {
            len
        }
    } else {
        0
    };
    let to: usize = if row == end.row {
        if (end.column as usize) + 1 < len {
            end.column as usize + 1
        } else {
            len
        }
    } else {
        len
    };
    if from < to {
        Some((from, to))
    } else {
        None
    }
}

/// What one row contributes to the copied text: the covered characters
/// without trailing whitespace.
pub open spec fn line_piece(line: SelectableLine, range: (SelectionPoint, SelectionPoint)) -> Option<
    Seq<char>,
> {
    match columns_for_row(line.row, line.text@.len(), range) {
        Some((f, t)) => Some(trim_end(line.text@.subrange(f as int, t as int))),
        None => None,
    }
}

/// The pieces of the rows that the range covers, in order.
pub open spec fn pieces(lines: Seq<SelectableLine>, range: (SelectionPoint, SelectionPoint)) -> Seq<
    Seq<char>,
>
    decreases lines.len(),
{
    if lines.len() == 0 {
        seq![]
    } else {
        let prev = pieces(lines.drop_last(), range);
        match line_piece(lines.last(), range) {
            Some(p) => prev.push(p),
            None => prev,
        }
    }
}

/// The text a selection copies: the pieces joined by newlines, unless that
/// is blank.
pub open spec fn selection_text(lines: Seq<SelectableLine>, selection: MouseSelection) -> Option<
    Seq<char>,
> {
    let text = join(pieces(lines, ordered(selection.anchor, selection.cursor)), "\n"@);
    if is_blank(text) {
        None
    } else {
        Some(text)
    }
}

/// The text under a mouse selection, row by row, or nothing when only
/// blanks are covered.
pub fn selected_text(lines: &[SelectableLine], selection: &MouseSelection) -> (r: Option<String>)
    ensures
        match r {
            Some(s) => selection_text(lines@, *selection) == Some(s@),
            None => selection_text(lines@, *selection) is None,
        },
{
    let range = normalized_selection(selection);
    let mut out = String::new();
    let mut any = false;
    let mut i: usize = 0;
    assert(lines@.take(0) =~= Seq::<SelectableLine>::empty());
    while i < lines.len()
        invariant
            0 <= i <= lines@.len(),
            range == ordered(selection.anchor, selection.cursor),
            out@ == join(pieces(lines@.take(i as int), range), "\n"@),
            any == (pieces(lines@.take(i as int), range).len() > 0),
        decreases lines@.len() - i,
    {
        let line = &lines[i];
        assert(lines@.take(i + 1).drop_last() =~= lines@.take(i as int));
        assert(lines@.take(i + 1).last() == lines@[i as int]);
        match selection_columns_for_row(line.row, line.text.as_str(), range) {
            Some((s, e)) => {
                let v = chars_of(line.text.as_str());
                let j = skip_ws_back(&v, s, e);
                if any {
                    push_str(&mut out, "\n");
                }
                push_range(&mut out, &v, s, j);
                proof {
                    let prev = pieces(lines@.take(i as int), range);
                    let p = trim_end(line.text@.subrange(s as int, e as int));
                    
                    assert(line_piece(lines@[i as int], range) == Some(p));
                    assert(pieces(lines@.take(i + 1), range) == prev.push(p));
                    if prev.len() == 0 {
                        assert(out@ =~= prev.push(p)[0]);
                    } else {
                        assert(prev.push(p).drop_last() =~= prev);
                    }
                }
                any = true;
            },
            None => {
                
                assert(line_piece(lines@[i as int], range) is None);
            },
        }
        i += 1;
    }
    assert(lines@.take(lines@.len() as int) =~= lines@);
    let v = chars_of(out.as_str());
    assert(v@.subrange(0, v@.len() as int) =~= v@);
    if range_is_blank(&v, 0, v.len()) {
        None
    } else {
        Some(out)
    }
}

} // verus!
