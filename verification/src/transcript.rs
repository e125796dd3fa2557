//! How a transcript message becomes styled lines: a prefix such as `user: `
//! or `tool_failed: ` picks the marker and the roles, and each line of the
//! body becomes one line of the transcript.
use vstd::prelude::*;
use crate::settings::string_views;
use crate::text::{chars_of, find_char, first_index_of, lemma_first_index_bounds, lemma_first_index_of, range_starts_with, string_of, string_from};
use crate::timeline_rows::{line_view, lines_view, StyledLine, TextRole};

verus! {

broadcast use vstd::string::group_string_axioms;

/// `s` cut at each `c`, as `str::split` cuts it: there is always at least
/// one piece, and an empty one after a final `c`.
pub open spec fn split_at_char(s: Seq<char>, c: char) -> Seq<Seq<char>>
    decreases s.len(),
{
    let i = first_index_of(s, c);
    proof {
        lemma_first_index_bounds(s, c);
    }
    if i < s.len() {
        seq![s.subrange(0, i)] + split_at_char(s.subrange(i + 1, s.len() as int), c)
    } else {
        seq![s]
    }
}

pub proof fn lemma_split_nonempty(s: Seq<char>, c: char)
    ensures
        split_at_char(s, c).len() >= 1,
    decreases s.len(),
{
    lemma_first_index_bounds(s, c);
    let i = first_index_of(s, c);
    if i < s.len() {
        lemma_split_nonempty(s.subrange(i + 1, s.len() as int), c);
    }
}

/// The lines of `text`, cut at every `\n`.
pub fn split_lines(text: &str) -> (r: Vec<String>)
    ensures
        string_views(r@) == split_at_char(text@, '\n'),
{
    let v = chars_of(text);
    let n = v.len();
    let mut out: Vec<String> = Vec::new();
    let mut pos: usize = 0;
    let mut finished = false;
    assert(v@.subrange(0, n as int) =~= v@);
    assert(string_views(out@) + split_at_char(v@, '\n') =~= split_at_char(v@, '\n'));
    while !finished
        invariant
            n == v@.len(),
            v@ == text@,
            pos <= n,
            !finished ==> split_at_char(v@, '\n') == string_views(out@) + split_at_char(
                v@.subrange(pos as int, n as int),
                '\n',
            ),
            finished ==> split_at_char(v@, '\n') == string_views(out@),
        decreases n - pos + (if finished { 0int } else { 1int }),
    {
        let ghost rest = v@.subrange(pos as int, n as int);
        let ghost before = out@;
        match find_char(&v, pos, n, '\n') {
            Some(j) => {
                proof {
                    lemma_first_index_of(rest, '\n', j - pos);
                    assert(rest.subrange(0, j - pos) =~= v@.subrange(pos as int, j as int));
                    assert(rest.subrange(j - pos + 1, rest.len() as int) =~= v@.subrange(
                        j + 1,
                        n as int,
                    ));
                }
                out.push(string_of(&v, pos, j));
                proof {
                    assert(string_views(out@) =~= string_views(before).push(
                        v@.subrange(pos as int, j as int),
                    ));
                    assert(split_at_char(v@, '\n') =~= string_views(out@) + split_at_char(
                        v@.subrange(j + 1, n as int),
                        '\n',
                    ));
                }
                pos = j + 1;
            },
            None => {
                proof {
                    lemma_first_index_of(rest, '\n', rest.len() as int);
                }
                out.push(string_of(&v, pos, n));
                proof {
                    assert(string_views(out@) =~= string_views(before).push(rest));
                    assert(split_at_char(v@, '\n') =~= string_views(out@));
                }
                finished = true;
            },
        }
    }
    out
}

/// The kinds of transcript message, told apart by their prefix.
#[derive(Debug, Clone, Copy, PartialEq, Eq, Structural)]
pub enum MessageStyle {
    User,
    Assistant,
    Error,
    SlashCommand,
    Tool,
    ToolRunning,
    ToolFailed,
    Shell,
    ShellOutput,
    System,
    Plain,
}

/// The prefix that marks a message of `style` (none for a plain message).
pub open spec fn style_prefix(style: MessageStyle) -> Seq<char> {
    match style {
        MessageStyle::User => "user: "@,
        MessageStyle::Assistant => "assistant: "@,
        MessageStyle::Error => "error: "@,
        MessageStyle::SlashCommand => "executed slash command: "@,
        MessageStyle::Tool => "tool: "@,
        MessageStyle::ToolRunning => "tool_running: "@,
        MessageStyle::ToolFailed => "tool_failed: "@,
        MessageStyle::Shell => "shell: "@,
        MessageStyle::ShellOutput => "shell output: "@,
        MessageStyle::System => "system: "@,
        MessageStyle::Plain => ""@,
    }
}

/// The style of `message`: the first of the prefixes, in this order, that
/// it starts with.
pub open spec fn message_style(message: Seq<char>) -> MessageStyle {
    if "user: "@.is_prefix_of(message) {
        MessageStyle::User
    } else if "assistant: "@.is_prefix_of(message) {
        MessageStyle::Assistant
    } else if "error: "@.is_prefix_of(message) {
        MessageStyle::Error
    } else if "executed slash command: "@.is_prefix_of(message) {
        MessageStyle::SlashCommand
    } else if "tool: "@.is_prefix_of(message) {
        MessageStyle::Tool
    } else if "tool_running: "@.is_prefix_of(message) {
        MessageStyle::ToolRunning
    } else if "tool_failed: "@.is_prefix_of(message) {
        MessageStyle::ToolFailed
    } else if "shell: "@.is_prefix_of(message) {
        MessageStyle::Shell
    } else if "shell output: "@.is_prefix_of(message) {
        MessageStyle::ShellOutput
    } else if "system: "@.is_prefix_of(message) {
        MessageStyle::System
    } else {
        MessageStyle::Plain
    }
}

/// The marker before the first line of a message of `style`.
pub open spec fn style_marker(style: MessageStyle) -> Seq<char> {
    match style {
        MessageStyle::Error => "! "@,
        MessageStyle::SlashCommand => "/ "@,
        MessageStyle::Tool | MessageStyle::ToolRunning | MessageStyle::ToolFailed => "◆ "@,
        MessageStyle::Shell => "$ "@,
        MessageStyle::ShellOutput => "↳ "@,
        MessageStyle::System => "• "@,
        _ => ""@,
    }
}

pub open spec fn marker_role(style: MessageStyle) -> TextRole {
    match style {
        MessageStyle::User => TextRole::Accent,
        MessageStyle::Assistant => TextRole::AccentSoft,
        MessageStyle::Error | MessageStyle::ToolFailed => TextRole::Error,
        MessageStyle::SlashCommand | MessageStyle::Tool | MessageStyle::ToolRunning
        | MessageStyle::Shell => TextRole::Tool,
        MessageStyle::ShellOutput | MessageStyle::System => TextRole::Subtle,
        MessageStyle::Plain => TextRole::Text,
    }
}

pub open spec fn body_role(style: MessageStyle) -> TextRole {
    match style {
        MessageStyle::Error | MessageStyle::ToolFailed => TextRole::Error,
        MessageStyle::SlashCommand | MessageStyle::Tool | MessageStyle::ToolRunning
        | MessageStyle::ShellOutput | MessageStyle::System => TextRole::Muted,
        _ => TextRole::Text,
    }
}

/// Line `index` of a message of `style` whose body line there is `piece`.
/// A user or assistant line leads with an empty marker (and, on the first
/// line, an empty label); a marked message shows its marker on the first
/// line and two spaces under it after; a plain line is the text alone.
pub open spec fn message_line_at(style: MessageStyle, index: int, piece: Seq<char>) -> Seq<(Seq<char>, TextRole)> {
    match style {
        MessageStyle::User | MessageStyle::Assistant => {
            let label_role = if style == MessageStyle::User {
                TextRole::Accent
            } else {
                TextRole::Strong
            };
            if index == 0 {
                seq![(""@, marker_role(style)), (""@, label_role), (piece, TextRole::Text)]
            } else {
                seq![(""@, marker_role(style)), (piece, TextRole::Text)]
            }
        },
        MessageStyle::Plain => seq![(piece, TextRole::Text)],
        _ => seq![
            (if index == 0 {
                style_marker(style)
            } else {
                "  "@
            }, marker_role(style)),
            (piece, body_role(style)),
        ],
    }
}

/// The transcript lines of `message`: its prefix taken off, its body cut at
/// each `\n`, each piece on a line of the message's style.
pub open spec fn message_lines_of(message: Seq<char>) -> Seq<Seq<(Seq<char>, TextRole)>> {
    let style = message_style(message);
    let body = message.subrange(style_prefix(style).len() as int, message.len() as int);
    let pieces = split_at_char(body, '\n');
    Seq::new(pieces.len(), |i: int| message_line_at(style, i, pieces[i]))
}

pub proof fn lemma_style_prefix(message: Seq<char>)
    ensures
        style_prefix(message_style(message)).is_prefix_of(message),
{
    reveal_strlit("");
    if message_style(message) == MessageStyle::Plain {
        assert(""@.is_prefix_of(message)) by {
            assert(message.subrange(0, 0) =~= ""@);
        }
    }
}

fn starts_with(v: &Vec<char>, prefix: &str) -> (r: bool)
    ensures
        r == prefix@.is_prefix_of(v@),
{
    let p = chars_of(prefix);
    let r = range_starts_with(v, 0, v.len(), &p);
    assert(r == prefix@.is_prefix_of(v@)) by {
        if prefix@.len() <= v@.len() {
            assert(v@.subrange(0, prefix@.len() as int) == prefix@ <==> prefix@ =~= v@.subrange(
                0,
                prefix@.len() as int,
            ));
        }
    }
    r
}

/// The style of `message`, by its prefix.
pub fn classify_message(message: &str) -> (r: MessageStyle)
    ensures
        r == message_style(message@),
{
    let v = chars_of(message);
    if starts_with(&v, "user: ") {
        MessageStyle::User
    } else if starts_with(&v, "assistant: ") {
        MessageStyle::Assistant
    } else if starts_with(&v, "error: ") {
        MessageStyle::Error
    } else if starts_with(&v, "executed slash command: ") {
        MessageStyle::SlashCommand
    } else if starts_with(&v, "tool: ") {
        MessageStyle::Tool
    } else if starts_with(&v, "tool_running: ") {
        MessageStyle::ToolRunning
    } else if starts_with(&v, "tool_failed: ") {
        MessageStyle::ToolFailed
    } else if starts_with(&v, "shell: ") {
        MessageStyle::Shell
    } else if starts_with(&v, "shell output: ") {
        MessageStyle::ShellOutput
    } else if starts_with(&v, "system: ") {
        MessageStyle::System
    } else {
        MessageStyle::Plain
    }
}

fn prefix_len(style: MessageStyle) -> (r: usize)
    ensures
        r == style_prefix(style).len(),
{
    proof {
        reveal_strlit("user: ");
        reveal_strlit("assistant: ");
        reveal_strlit("error: ");
        reveal_strlit("executed slash command: ");
        reveal_strlit("tool: ");
        reveal_strlit("tool_running: ");
        reveal_strlit("tool_failed: ");
        reveal_strlit("shell: ");
        reveal_strlit("shell output: ");
        reveal_strlit("system: ");
        reveal_strlit("");
    }
    match style {
        MessageStyle::User => 6,
        MessageStyle::Assistant => 11,
        MessageStyle::Error => 7,
        MessageStyle::SlashCommand => 24,
        MessageStyle::Tool => 6,
        MessageStyle::ToolRunning => 14,
        MessageStyle::ToolFailed => 13,
        MessageStyle::Shell => 7,
        MessageStyle::ShellOutput => 14,
        MessageStyle::System => 8,
        MessageStyle::Plain => 0,
    }
}

fn styled(text: &str, role: TextRole) -> (r: (String, TextRole))
    ensures
        r.0@ == text@,
        r.1 == role,
{
    (string_from(text), role)
}

fn line_at(style: MessageStyle, index: usize, piece: String) -> (r: StyledLine)
    ensures
        line_view(r@) == message_line_at(style, index as int, piece@),
{
    let mut l: StyledLine = Vec::new();
    match style {
        MessageStyle::User | MessageStyle::Assistant => {
            let (marker, label) = if style == MessageStyle::User {
                (TextRole::Accent, TextRole::Accent)
            } else {
                (TextRole::AccentSoft, TextRole::Strong)
            };
            l.push(styled("", marker));
            if index == 0 {
                l.push(styled("", label));
            }
            l.push((piece, TextRole::Text));
        },
        MessageStyle::Plain => {
            l.push((piece, TextRole::Text));
        },
        _ => {
            let (marker, marker_role, body_role) = match style {
                MessageStyle::Error => ("! ", TextRole::Error, TextRole::Error),
                MessageStyle::SlashCommand => ("/ ", TextRole::Tool, TextRole::Muted),
                MessageStyle::Tool => ("◆ ", TextRole::Tool, TextRole::Muted),
                MessageStyle::ToolRunning => ("◆ ", TextRole::Tool, TextRole::Muted),
                MessageStyle::ToolFailed => ("◆ ", TextRole::Error, TextRole::Error),
                MessageStyle::Shell => ("$ ", TextRole::Tool, TextRole::Text),
                MessageStyle::ShellOutput => ("↳ ", TextRole::Subtle, TextRole::Muted),
                _ => ("• ", TextRole::Subtle, TextRole::Muted),
            };
            l.push(styled(if index == 0 { marker } else { "  " }, marker_role));
            l.push((piece, body_role));
        },
    }
    assert(line_view(l@) =~= message_line_at(style, index as int, piece@));
    l
}

/// The transcript lines of `message`, one per line of its body.
pub fn message_lines(message: &str) -> (r: Vec<StyledLine>)
    ensures
        lines_view(r@) == message_lines_of(message@),
        r@.len() >= 1,
{
    let style = classify_message(message);
    let v = chars_of(message);
    let skip = prefix_len(style);
    proof {
        lemma_style_prefix(message@);
    }
    let body = string_of(&v, skip, v.len());
    let pieces = split_lines(body.as_str());
    let ghost target = message_lines_of(message@);
    proof {
        lemma_split_nonempty(body@, '\n');
    }
    let mut out: Vec<StyledLine> = Vec::new();
    let mut i: usize = 0;
    while i < pieces.len()
        invariant
            0 <= i <= pieces@.len(),
            string_views(pieces@) == split_at_char(body@, '\n'),
            body@ == message@.subrange(style_prefix(style).len() as int, message@.len() as int),
            style == message_style(message@),
            target == message_lines_of(message@),
            lines_view(out@) == target.take(i as int),
        decreases pieces@.len() - i,
    {
        let piece = pieces[i].clone();
        let ghost prev = out@;
        proof {
            assert(string_views(pieces@)[i as int] == pieces@[i as int]@);
        }
        out.push(line_at(style, i, piece));
        assert(lines_view(out@) =~= lines_view(prev).push(target[i as int]));
        assert(target.take(i + 1) =~= target.take(i as int).push(target[i as int]));
        i += 1;
    }
    assert(target.take(i as int) =~= target);
    out
}

/// The first transcript line of `message`.
pub fn message_line(message: &str) -> (r: StyledLine)
    ensures
        line_view(r@) == message_lines_of(message@)[0],
{
    let mut lines = message_lines(message);
    let ghost all = lines@;
    let first = lines.remove(0);
    assert(lines_view(all)[0] == line_view(all[0]@));
    first
}

} // verus!
