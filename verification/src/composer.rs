//! The prompt composer: chat or shell mode, what a key does to it, and the
//! `@file` / `$skill` completions it offers.
use vstd::prelude::*;
use crate::keys::{KeyCode, KeyEvent, no_modifiers};
use crate::text::{
    ascii_lower_seq, ascii_lowercase_range, chars_of, find_seq, has_ws, occurs_in, push_str,
    range_has_ws, skip_ws, string_from, string_of, trim, trim_range, trim_start,
};

verus! {

broadcast use vstd::string::group_string_axioms;

#[derive(Debug, Clone, Copy, PartialEq, Eq, Structural)]
pub enum ComposerMode {
    Chat,
    Shell,
}

impl ComposerMode {
    pub fn is_shell(self) -> (r: bool)
        ensures
            r == (self == ComposerMode::Shell),
    {
        match self {
            ComposerMode::Shell => true,
            ComposerMode::Chat => false,
        }
    }

    pub fn placeholder(self) -> (r: &'static str)
        ensures
            r@ == (match self {
                ComposerMode::Chat => "Ask Roder to work on this repo"@,
                ComposerMode::Shell => "Run a shell command"@,
            }),
    {
        match self {
            ComposerMode::Chat => "Ask Roder to work on this repo",
            ComposerMode::Shell => "Run a shell command",
        }
    }
}

/// Text that starts with `!` is a shell command.
pub fn composer_mode_from_text(input: &str) -> (r: ComposerMode)
    ensures
        r == (if input@.len() > 0 && input@[0] == '!' {
            ComposerMode::Shell
        } else {
            ComposerMode::Chat
        }),
{
    let v = chars_of(input);
    if v.len() > 0 && v[0] == '!' {
        ComposerMode::Shell
    } else {
        ComposerMode::Chat
    }
}

/// The command of `!command`, trimmed, when it is not empty.
pub open spec fn shell_command(input: Seq<char>) -> Option<Seq<char>> {
    if input.len() > 0 && input[0] == '!' && trim(input.drop_first()).len() > 0 {
        Some(trim(input.drop_first()))
    } else {
        None
    }
}

pub fn shell_command_from_input(input: &str) -> (r: Option<String>)
    ensures
        match r {
            Some(c) => shell_command(input@) == Some(c@),
            None => shell_command(input@) is None,
        },
{
    let v = chars_of(input);
    if v.len() == 0 || v[0] != '!' {
        return None;
    }
    let (a, b) = trim_range(&v, 1, v.len());
    assert(v@.subrange(1, v@.len() as int) =~= v@.drop_first());
    if b > a {
        Some(string_of(&v, a, b))
    } else {
        None
    }
}

/// The outcome of a key in the composer.
#[derive(Debug, Clone, Copy, PartialEq, Eq, Structural)]
pub enum ComposerKeyAction {
    Submit,
    Edited,
    Ignored,
}

pub fn action_from_modified(modified: bool) -> (r: ComposerKeyAction)
    ensures
        r == (if modified {
            ComposerKeyAction::Edited
        } else {
            ComposerKeyAction::Ignored
        }),
{
    if modified {
        ComposerKeyAction::Edited
    } else {
        ComposerKeyAction::Ignored
    }
}

/// Shift+Enter, or Ctrl+Shift+M without Alt, inserts a line break.
pub open spec fn inserts_newline(key: KeyEvent) -> bool {
    if key.code == KeyCode::Enter {
        key.modifiers.shift
    } else {
        (key.code == KeyCode::Char('m') || key.code == KeyCode::Char('M')) && key.modifiers.control
            && key.modifiers.shift && !key.modifiers.alt
    }
}

pub fn composer_key_inserts_newline(key: KeyEvent) -> (r: bool)
    ensures
        r == inserts_newline(key),
{
    if key.code == KeyCode::Enter {
        return key.modifiers.shift;
    }
    (key.code == KeyCode::Char('m') || key.code == KeyCode::Char('M')) && key.modifiers.control
        && key.modifiers.shift && !key.modifiers.alt
}

/// What the composer does with a key.
#[derive(Debug, Clone, Copy, PartialEq, Eq, Structural)]
pub enum ComposerKeyPlan {
    /// Insert a line break (the key edited the text).
    InsertNewline,
    /// Submit the prompt.
    Submit,
    /// Do nothing.
    Ignore,
    /// Clear the whole text; edited when something was cleared.
    Clear,
    /// Delete to the end of the line; edited when something was deleted.
    DeleteToLineEnd,
    /// Move the cursor to the start of the line.
    MoveHead,
    /// Move the cursor to the end of the line.
    MoveEnd,
    /// Move the cursor to the first line.
    MoveTop,
    /// Move the cursor to the last line.
    MoveBottom,
    /// Let the text area handle the key.
    Input,
}

pub open spec fn key_plan(key: KeyEvent) -> ComposerKeyPlan {
    if inserts_newline(key) {
        ComposerKeyPlan::InsertNewline
    } else if key.code == KeyCode::Enter && no_modifiers(key.modifiers) {
        ComposerKeyPlan::Submit
    } else if key.code == KeyCode::Enter {
        ComposerKeyPlan::Ignore
    } else if key.modifiers.super_key {
        match key.code {
            KeyCode::Backspace => ComposerKeyPlan::Clear,
            KeyCode::Delete => ComposerKeyPlan::DeleteToLineEnd,
            KeyCode::Left | KeyCode::Home => ComposerKeyPlan::MoveHead,
            KeyCode::Right | KeyCode::End => ComposerKeyPlan::MoveEnd,
            KeyCode::Up => ComposerKeyPlan::MoveTop,
            KeyCode::Down => ComposerKeyPlan::MoveBottom,
            _ => ComposerKeyPlan::Ignore,
        }
    } else {
        ComposerKeyPlan::Input
    }
}

/// The plan for a key in the composer; the caller carries it out on the
/// text area.
pub fn composer_key_plan(key: KeyEvent) -> (r: ComposerKeyPlan)
    ensures
        r == key_plan(key),
{
    if composer_key_inserts_newline(key) {
        return ComposerKeyPlan::InsertNewline;
    }
    if key.code == KeyCode::Enter && key.modifiers.is_none() {
        return ComposerKeyPlan::Submit;
    }
    if key.code == KeyCode::Enter {
        return ComposerKeyPlan::Ignore;
    }
    if key.modifiers.super_key {
        return match key.code {
            KeyCode::Backspace => ComposerKeyPlan::Clear,
            KeyCode::Delete => ComposerKeyPlan::DeleteToLineEnd,
            KeyCode::Left | KeyCode::Home => ComposerKeyPlan::MoveHead,
            KeyCode::Right | KeyCode::End => ComposerKeyPlan::MoveEnd,
            KeyCode::Up => ComposerKeyPlan::MoveTop,
            KeyCode::Down => ComposerKeyPlan::MoveBottom,
            _ => ComposerKeyPlan::Ignore,
        };
    }
    ComposerKeyPlan::Input
}

#[derive(Debug, Clone, Copy, PartialEq, Eq, Structural)]
pub enum InlineCompletionKind {
    File,
    Skill,
}

/// The `@file` or `$skill` word being typed.
#[derive(Debug, Clone, PartialEq, Eq)]
pub struct InlineCompletionQuery {
    pub kind: InlineCompletionKind,
    pub term: String,
}

/// The completion query of composer text that is, after leading
/// whitespace, a single `@word` or `$word`.
pub open spec fn completion_query(input: Seq<char>) -> Option<(InlineCompletionKind, Seq<char>)> {
    let t = trim_start(input);
    if t.len() > 0 && (t[0] == '@' || t[0] == '$') && !has_ws(t.drop_first()) {
        Some(
            (if t[0] == '@' {
                InlineCompletionKind::File
            } else {
                InlineCompletionKind::Skill
            }, t.drop_first()),
        )
    } else {
        None
    }
}

pub fn inline_completion_query(input: &str) -> (r: Option<InlineCompletionQuery>)
    ensures
        match r {
            Some(q) => completion_query(input@) == Some((q.kind, q.term@)),
            None => completion_query(input@) is None,
        },
{
    let v = chars_of(input);
    let a = skip_ws(&v, 0, v.len());
    assert(v@.subrange(0, v@.len() as int) =~= v@);
    let ghost t = v@.subrange(a as int, v@.len() as int);
    if a == v.len() || !(v[a] == '@' || v[a] == '$') {
        proof {
            if t.len() > 0 {
                assert(t[0] == v@[a as int]);
            }
        }
        return None;
    }
    assert(t[0] == v@[a as int]);
    assert(t.drop_first() =~= v@.subrange(a + 1, v@.len() as int));
    if range_has_ws(&v, a + 1, v.len()) {
        return None;
    }
    let kind = if v[a] == '@' {
        InlineCompletionKind::File
    } else {
        InlineCompletionKind::Skill
    };
    Some(InlineCompletionQuery { kind, term: string_of(&v, a + 1, v.len()) })
}

/// A file that `@` completion can insert.
#[derive(Debug, Clone, PartialEq, Eq)]
pub struct FileCompletionItem {
    pub path: String,
}

/// A skill that `$` completion can insert.
#[derive(Debug, Clone, PartialEq, Eq)]
pub struct SkillCompletion {
    pub name: String,
    pub description: String,
    pub disabled: bool,
}

#[derive(Debug, Clone, PartialEq, Eq)]
pub enum InlineCompletionItem {
    File(FileCompletionItem),
    Skill(SkillCompletion),
}

impl InlineCompletionItem {
    /// `@path ` or `$name `.
    pub open spec fn insertion_spec(&self) -> Seq<char> {
        match self {
            InlineCompletionItem::File(f) => "@"@ + f.path@ + " "@,
            InlineCompletionItem::Skill(s) => "$"@ + s.name@ + " "@,
        }
    }

    pub fn insertion_text(&self) -> (r: String)
        ensures
            r@ == self.insertion_spec(),
    {
        match self {
            InlineCompletionItem::File(item) => {
                let mut out = string_from("@");
                push_str(&mut out, item.path.as_str());
                push_str(&mut out, " ");
                out
            },
            InlineCompletionItem::Skill(skill) => {
                let mut out = string_from("$");
                push_str(&mut out, skill.name.as_str());
                push_str(&mut out, " ");
                out
            },
        }
    }
}

/// How many completions the inline menu lists.
pub const MAX_VISIBLE_INLINE_COMPLETIONS: usize = 12;

/// Whether `text` contains `term`, ignoring ASCII case (an empty term
/// matches everything).
pub open spec fn contains_folded(text: Seq<char>, term: Seq<char>) -> bool {
    let t = ascii_lower_seq(term);
    t.len() == 0 || occurs_in(ascii_lower_seq(text), 0, text.len() as int, t)
}

fn contains_folded_exec(text: &str, lower_term: &Vec<char>) -> (r: bool)
    ensures
        r == (lower_term@.len() == 0 || occurs_in(
            ascii_lower_seq(text@),
            0,
            text@.len() as int,
            lower_term@,
        )),
{
    if lower_term.len() == 0 {
        return true;
    }
    let v = chars_of(text);
    let l = ascii_lowercase_range(&v, 0, v.len());
    assert(v@.subrange(0, v@.len() as int) =~= v@);
    match find_seq(&l, 0, l.len(), lower_term) {
        Some(p) => true,
        None => false,
    }
}

/// The positions of the files among the first `upto` whose path contains
/// `term` (ignoring ASCII case), at most `MAX_VISIBLE_INLINE_COMPLETIONS`.
pub open spec fn file_match_positions(paths: Seq<Seq<char>>, term: Seq<char>, upto: int) -> Seq<int>
    decreases upto,
{
    if upto <= 0 {
        seq![]
    } else {
        let prev = file_match_positions(paths, term, upto - 1);
        if prev.len() < MAX_VISIBLE_INLINE_COMPLETIONS && contains_folded(paths[upto - 1], term) {
            prev.push(upto - 1)
        } else {
            prev
        }
    }
}

pub open spec fn file_paths(files: Seq<FileCompletionItem>) -> Seq<Seq<char>> {
    files.map_values(|f: FileCompletionItem| f.path@)
}

/// The first `MAX_VISIBLE_INLINE_COMPLETIONS` files whose path contains the
/// term, as completion items.
pub fn matching_file_completions(files: &Vec<FileCompletionItem>, term: &str) -> (r: Vec<
    InlineCompletionItem,
>)
    ensures
        r@.len() == file_match_positions(file_paths(files@), term@, files@.len() as int).len(),
        forall|k: int|
            0 <= k < r@.len() ==> (#[trigger] r@[k] matches InlineCompletionItem::File(f) && f.path@
                == files@[file_match_positions(file_paths(files@), term@, files@.len() as int)[k]].path@),
{
    let tv = chars_of(term);
    let lower = ascii_lowercase_range(&tv, 0, tv.len());
    assert(tv@.subrange(0, tv@.len() as int) =~= tv@);
    let mut r: Vec<InlineCompletionItem> = Vec::new();
    let mut i: usize = 0;
    while i < files.len()
        invariant
            0 <= i <= files@.len(),
            lower@ == ascii_lower_seq(term@),
            r@.len() == file_match_positions(file_paths(files@), term@, i as int).len(),
            r@.len() <= MAX_VISIBLE_INLINE_COMPLETIONS,
            forall|k: int|
                0 <= k < r@.len() ==> (#[trigger] r@[k] matches InlineCompletionItem::File(f)
                    && f.path@ == files@[file_match_positions(file_paths(files@), term@, i as int)[k]].path@),
        decreases files@.len() - i,
    {
        let ghost prev = file_match_positions(file_paths(files@), term@, i as int);
        assert(file_paths(files@)[i as int] == files@[i as int].path@);
        if r.len() < MAX_VISIBLE_INLINE_COMPLETIONS && contains_folded_exec(
            files[i].path.as_str(),
            &lower,
        ) {
            let item = FileCompletionItem { path: string_from(files[i].path.as_str()) };
            r.push(InlineCompletionItem::File(item));
            proof {
                let now = file_match_positions(file_paths(files@), term@, i + 1);
                assert(now == prev.push(i as int));
                assert forall|k: int| 0 <= k < r@.len() implies (#[trigger] r@[k] matches InlineCompletionItem::File(f)
                    && f.path@ == files@[now[k]].path@) by {
                    if k < prev.len() {
                        assert(now[k] == prev[k]);
                    }
                }
            }
        }
        i += 1;
    }
    r
}

/// The positions of the enabled skills among the first `upto` whose name or
/// description contains `term` (ignoring ASCII case), at most
/// `MAX_VISIBLE_INLINE_COMPLETIONS`.
pub open spec fn skill_match_positions(skills: Seq<SkillCompletion>, term: Seq<char>, upto: int) -> Seq<
    int,
>
    decreases upto,
{
    if upto <= 0 {
        seq![]
    } else {
        let prev = skill_match_positions(skills, term, upto - 1);
        let s = skills[upto - 1];
        if prev.len() < MAX_VISIBLE_INLINE_COMPLETIONS && !s.disabled && (contains_folded(s.name@, term)
            || contains_folded(s.description@, term)) {
            prev.push(upto - 1)
        } else {
            prev
        }
    }
}

pub fn matching_skill_completions(skills: &Vec<SkillCompletion>, term: &str) -> (r: Vec<
    InlineCompletionItem,
>)
    ensures
        r@.len() == skill_match_positions(skills@, term@, skills@.len() as int).len(),
        forall|k: int|
            0 <= k < r@.len() ==> (#[trigger] r@[k] matches InlineCompletionItem::Skill(s) && s.name@
                == skills@[skill_match_positions(skills@, term@, skills@.len() as int)[k]].name@),
{
    let tv = chars_of(term);
    let lower = ascii_lowercase_range(&tv, 0, tv.len());
    assert(tv@.subrange(0, tv@.len() as int) =~= tv@);
    let mut r: Vec<InlineCompletionItem> = Vec::new();
    let mut i: usize = 0;
    while i < skills.len()
        invariant
            0 <= i <= skills@.len(),
            lower@ == ascii_lower_seq(term@),
            r@.len() == skill_match_positions(skills@, term@, i as int).len(),
            r@.len() <= MAX_VISIBLE_INLINE_COMPLETIONS,
            forall|k: int|
                0 <= k < r@.len() ==> (#[trigger] r@[k] matches InlineCompletionItem::Skill(s)
                    && s.name@ == skills@[skill_match_positions(skills@, term@, i as int)[k]].name@),
        decreases skills@.len() - i,
    {
        let ghost prev = skill_match_positions(skills@, term@, i as int);
        let s = &skills[i];
        if r.len() < MAX_VISIBLE_INLINE_COMPLETIONS && !s.disabled && (contains_folded_exec(
            s.name.as_str(),
            &lower,
        ) || contains_folded_exec(s.description.as_str(), &lower)) {
            let item = SkillCompletion {
                name: string_from(s.name.as_str()),
                description: string_from(s.description.as_str()),
                disabled: s.disabled,
            };
            r.push(InlineCompletionItem::Skill(item));
            proof {
                let now = skill_match_positions(skills@, term@, i + 1);
                assert(now == prev.push(i as int));
                assert forall|k: int| 0 <= k < r@.len() implies (#[trigger] r@[k] matches InlineCompletionItem::Skill(sk)
                    && sk.name@ == skills@[now[k]].name@) by {
                    if k < prev.len() {
                        assert(now[k] == prev[k]);
                    }
                }
            }
        }
        i += 1;
    }
    r
}

/// The completions offered for composer text that is a single `@file` or
/// `$skill` word: matching files, or matching enabled skills.
pub fn inline_completion_matches(
    input: &str,
    files: &Vec<FileCompletionItem>,
    skills: &Vec<SkillCompletion>,
) -> (r: Option<Vec<InlineCompletionItem>>)
    ensures
        match completion_query(input@) {
            None => r is None,
            Some((InlineCompletionKind::File, term)) => r matches Some(items) && items@.len()
                == file_match_positions(file_paths(files@), term, files@.len() as int).len() && forall|k: int|
                0 <= k < items@.len() ==> (#[trigger] items@[k] matches InlineCompletionItem::File(f)
                && f.path@ == files@[file_match_positions(file_paths(files@), term, files@.len() as int)[k]].path@),
            Some((InlineCompletionKind::Skill, term)) => r matches Some(items) && items@.len()
                == skill_match_positions(skills@, term, skills@.len() as int).len() && forall|k: int|
                0 <= k < items@.len() ==> (#[trigger] items@[k] matches InlineCompletionItem::Skill(s)
                && s.name@ == skills@[skill_match_positions(skills@, term, skills@.len() as int)[k]].name@),
        },
{
    let query = match inline_completion_query(input) {
        Some(q) => q,
        None => return None,
    };
    match query.kind {
        InlineCompletionKind::File => Some(matching_file_completions(files, query.term.as_str())),
        InlineCompletionKind::Skill => Some(matching_skill_completions(skills, query.term.as_str())),
    }
}

/// The skills offered for `$term` among the first `upto`: in their order,
/// each at most once, every one enabled with its name or its description
/// containing the term (ignoring ASCII case), at most
/// `MAX_VISIBLE_INLINE_COMPLETIONS` of them; and every such skill is
/// offered unless the list was already full before it.
pub proof fn law_skill_completions_offer_matching_skills(skills: Seq<SkillCompletion>, term: Seq<char>, upto: int)
    requires
        0 <= upto <= skills.len(),
    ensures
        ({
            let r = skill_match_positions(skills, term, upto);
            &&& r.len() <= MAX_VISIBLE_INLINE_COMPLETIONS
            &&& forall|k: int|
                0 <= k < r.len() ==> {
                    &&& 0 <= #[trigger] r[k] < upto
                    &&& !skills[r[k]].disabled
                    &&& (contains_folded(skills[r[k]].name@, term) || contains_folded(
                        skills[r[k]].description@,
                        term,
                    ))
                }
            &&& forall|k1: int, k2: int| 0 <= k1 < k2 < r.len() ==> r[k1] < r[k2]
            &&& forall|i: int|
                0 <= i < upto && !(#[trigger] skills[i]).disabled && (contains_folded(skills[i].name@, term)
                    || contains_folded(skills[i].description@, term)) ==> (r.contains(i) || (r.len()
                    == MAX_VISIBLE_INLINE_COMPLETIONS && r[r.len() - 1] < i))
        }),
    decreases upto,
{
    if upto > 0 {
        law_skill_completions_offer_matching_skills(skills, term, upto - 1);
        let prev = skill_match_positions(skills, term, upto - 1);
        let r = skill_match_positions(skills, term, upto);
        if r.len() > prev.len() {
            assert(r == prev.push(upto - 1));
            assert forall|i: int|
                0 <= i < upto && !(#[trigger] skills[i]).disabled && (contains_folded(skills[i].name@, term)
                    || contains_folded(skills[i].description@, term)) implies (r.contains(i) || (r.len()
                == MAX_VISIBLE_INLINE_COMPLETIONS && r[r.len() - 1] < i)) by {
                if i == upto - 1 {
                    assert(r[r.len() - 1] == i);
                } else if prev.contains(i) {
                    let k = choose|k: int| 0 <= k < prev.len() && prev[k] == i;
                    assert(r[k] == i);
                }
            }
        } else {
            assert(r == prev);
        }
    }
}

/// The files offered for `@term` among the first `upto`: in their order,
/// each at most once, every one with a path containing the term (ignoring
/// ASCII case), at most `MAX_VISIBLE_INLINE_COMPLETIONS` of them; and every
/// such file is offered unless the list was already full before it.
pub proof fn law_file_completions_offer_matching_files(paths: Seq<Seq<char>>, term: Seq<char>, upto: int)
    requires
        0 <= upto <= paths.len(),
    ensures
        ({
            let r = file_match_positions(paths, term, upto);
            &&& r.len() <= MAX_VISIBLE_INLINE_COMPLETIONS
            &&& forall|k: int| 0 <= k < r.len() ==> 0 <= #[trigger] r[k] < upto && contains_folded(paths[r[k]], term)
            &&& forall|k1: int, k2: int| 0 <= k1 < k2 < r.len() ==> r[k1] < r[k2]
            &&& forall|i: int|
                0 <= i < upto && contains_folded(#[trigger] paths[i], term) ==> (r.contains(i) || (r.len()
                    == MAX_VISIBLE_INLINE_COMPLETIONS && r[r.len() - 1] < i))
        }),
    decreases upto,
{
    if upto > 0 {
        law_file_completions_offer_matching_files(paths, term, upto - 1);
        let prev = file_match_positions(paths, term, upto - 1);
        let r = file_match_positions(paths, term, upto);
        if r.len() > prev.len() {
            assert(r == prev.push(upto - 1));
            assert forall|i: int|
                0 <= i < upto && contains_folded(#[trigger] paths[i], term) implies (r.contains(i) || (r.len()
                == MAX_VISIBLE_INLINE_COMPLETIONS && r[r.len() - 1] < i)) by {
                if i == upto - 1 {
                    assert(r[r.len() - 1] == i);
                } else if prev.contains(i) {
                    let k = choose|k: int| 0 <= k < prev.len() && prev[k] == i;
                    assert(r[k] == i);
                }
            }
        } else {
            assert(r == prev);
        }
    }
}

} // verus!
