//! What the question dialog shows: its height for the screen, its title,
//! the question's context and heading, each answer with its number and
//! description, and the keys.
use vstd::prelude::*;
use crate::dialog::{UserInputDialogState, UserInputOption, UserInputQuestion};
use crate::text::{decimal, is_blank, push_decimal, push_str, string_from, trimmed, trim};
use crate::timeline_rows::{line_view, lines_view, StyledLine, TextRole};

verus! {

broadcast use vstd::string::group_string_axioms;

/// The dialog's height: two lines per answer and six more, cut to the
/// screen less two, and at least seven.
pub open spec fn dialog_height_spec(option_count: nat, area_height: u16) -> u16 {
    let desired: int = (option_count * 2 + 6) as int;
    let room: int = if area_height >= 2 {
        area_height - 2
    } else {
        0
    };
    let h = if desired < room {
        desired
    } else {
        room
    };
    (if h < 7 {
        7
    } else {
        h
    }) as u16
}

pub fn user_input_dialog_height(option_count: usize, area_height: u16) -> (r: u16)
    requires
        option_count * 2 + 6 <= u16::MAX,
    ensures
        r == dialog_height_spec(option_count as nat, area_height),
{
    let desired = option_count as u16 * 2 + 6;
    let h = if desired < area_height.saturating_sub(2) {
        desired
    } else {
        area_height.saturating_sub(2)
    };
    if h < 7 {
        7
    } else {
        h
    }
}

/// The title: ` Your input (k/n) ` with several questions, else ` Your input `.
pub open spec fn dialog_title_spec(current: nat, count: nat) -> Seq<char> {
    if count > 1 {
        " Your input ("@ + decimal(current + 1) + "/"@ + decimal(count) + ") "@
    } else {
        " Your input "@
    }
}

/// The line over the question: its header, or a generic note when blank.
pub open spec fn dialog_context_spec(header: Seq<char>) -> Seq<char> {
    if trim(header).len() == 0 {
        "model needs your input"@
    } else {
        header
    }
}

/// An answer's lines: `› 1. label` (the marker and the label accented when
/// highlighted), then its description, indented, unless blank.
pub open spec fn option_lines_spec(index: nat, o: UserInputOption, selected: bool) -> Seq<Seq<(Seq<char>, TextRole)>> {
    let first = seq![
        ((if selected {
            "›"@
        } else {
            " "@
        }) + " "@ + decimal(index + 1) + ". "@, TextRole::AccentSoft),
        (o.label@, if selected {
            TextRole::Accent
        } else {
            TextRole::DialogSurface
        }),
    ];
    if is_blank(o.description@) {
        seq![first]
    } else {
        seq![first, seq![("    "@ + o.description@, TextRole::DialogSurface)]]
    }
}

/// The answers' lines, in order.
pub open spec fn options_lines_spec(options: Seq<UserInputOption>, selected: nat) -> Seq<Seq<(Seq<char>, TextRole)>>
    decreases options.len(),
{
    if options.len() == 0 {
        seq![]
    } else {
        options_lines_spec(options.drop_last(), selected) + option_lines_spec(
            (options.len() - 1) as nat,
            options.last(),
            (options.len() - 1) as nat == selected,
        )
    }
}

/// What the dialog shows.
#[derive(Debug, Clone, PartialEq, Eq)]
pub struct UserInputDialogView {
    pub height: u16,
    pub title: String,
    pub context: String,
    pub heading: String,
    pub options: Vec<StyledLine>,
    pub controls: String,
}

pub fn dialog_title(current: usize, count: usize) -> (r: String)
    requires
        current < count,
    ensures
        r@ == dialog_title_spec(current as nat, count as nat),
{
    if count > 1 {
        let mut t = string_from(" Your input (");
        push_decimal(&mut t, (current + 1) as u64);
        push_str(&mut t, "/");
        push_decimal(&mut t, count as u64);
        push_str(&mut t, ") ");
        t
    } else {
        string_from(" Your input ")
    }
}

fn option_lines(index: usize, o: &UserInputOption, selected: bool, out: &mut Vec<StyledLine>)
    requires
        index < usize::MAX,
    ensures
        lines_view(final(out)@) == lines_view(old(out)@) + option_lines_spec(index as nat, *o, selected),
{
    let mut head = string_from(if selected { "›" } else { " " });
    push_str(&mut head, " ");
    push_decimal(&mut head, (index + 1) as u64);
    push_str(&mut head, ". ");
    let mut first: StyledLine = Vec::new();
    first.push((head, TextRole::AccentSoft));
    first.push((o.label.clone(), if selected { TextRole::Accent } else { TextRole::DialogSurface }));
    let ghost want = option_lines_spec(index as nat, *o, selected);
    assert(line_view(first@) =~= want[0]);
    let ghost start = lines_view(out@);
    out.push(first);
    let d = trimmed(o.description.as_str());
    proof {
        crate::text::lemma_blank_iff_trim_empty(o.description@);
    }
    if !d.as_str().is_empty() {
        let mut text = string_from("    ");
        push_str(&mut text, o.description.as_str());
        let mut second: StyledLine = Vec::new();
        second.push((text, TextRole::DialogSurface));
        assert(line_view(second@) =~= want[1]);
        out.push(second);
    }
    assert(lines_view(out@) =~= start + want);
}

/// The question dialog's contents for the current question.
pub fn user_input_dialog_view(state: &UserInputDialogState, area_height: u16) -> (v: UserInputDialogView)
    requires
        state.current < state.questions@.len(),
        state.questions@[state.current as int].options@.len() * 2 + 6 <= u16::MAX,
    ensures
        ({
            let q = state.questions@[state.current as int];
            &&& v.height == dialog_height_spec(q.options@.len(), area_height)
            &&& v.title@ == dialog_title_spec(state.current as nat, state.questions@.len())
            &&& v.context@ == dialog_context_spec(q.header@)
            &&& v.heading@ == q.question@
            &&& lines_view(v.options@) == options_lines_spec(q.options@, state.selected as nat)
            &&& v.controls@ == "↑/↓ move · 1-9 jump · Enter select · Esc skip"@
        }),
{
    let q = state.current_question();
    let height = user_input_dialog_height(q.options.len(), area_height);
    let title = dialog_title(state.current, state.questions.len());
    let h = trimmed(q.header.as_str());
    let context = if h.as_str().is_empty() {
        string_from("model needs your input")
    } else {
        q.header.clone()
    };
    let mut options: Vec<StyledLine> = Vec::new();
    let mut i: usize = 0;
    assert(q.options@.take(0) =~= Seq::<UserInputOption>::empty());
    while i < q.options.len()
        invariant
            0 <= i <= q.options@.len(),
            q.options@.len() * 2 + 6 <= u16::MAX,
            lines_view(options@) == options_lines_spec(q.options@.take(i as int), state.selected as nat),
        decreases q.options@.len() - i,
    {
        option_lines(i, &q.options[i], i == state.selected, &mut options);
        assert(q.options@.take(i + 1).drop_last() =~= q.options@.take(i as int));
        assert(q.options@.take(i + 1).last() == q.options@[i as int]);
        i += 1;
    }
    assert(q.options@.take(i as int) =~= q.options@);
    UserInputDialogView {
        height,
        title,
        context,
        heading: q.question.clone(),
        options,
        controls: string_from("↑/↓ move · 1-9 jump · Enter select · Esc skip"),
    }
}

} // verus!
