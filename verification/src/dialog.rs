//! Modal dialogs: the yes/no confirmation dialog and the dialog that asks
//! the user to pick answers for the model's questions.
use vstd::prelude::*;
use crate::keys::{KeyCode, KeyEvent};
use crate::text::{is_blank, push_str, range_is_blank, chars_of, string_from};

verus! {

broadcast use vstd::string::group_string_axioms;

/// What a confirmation dialog asks about.
#[derive(Debug, Clone, PartialEq, Eq)]
pub enum ConfirmDialog {
    Interrupt,
    Exit,
    ToolApproval { approval_id: String, tool_name: String, reason: Option<String> },
}

#[derive(Debug, Clone, Copy, PartialEq, Eq, Structural)]
pub enum ConfirmChoice {
    Yes,
    No,
}

#[derive(Debug, Clone, PartialEq, Eq)]
pub struct ConfirmDialogState {
    pub dialog: ConfirmDialog,
    pub selected: ConfirmChoice,
}

impl ConfirmDialogState {
    /// A dialog opens with Yes selected, so that Enter confirms.
    pub fn new(dialog: ConfirmDialog) -> (r: Self)
        ensures
            r.dialog == dialog,
            r.selected == ConfirmChoice::Yes,
    {
        ConfirmDialogState { dialog, selected: ConfirmChoice::Yes }
    }
}

/// Only a tool approval lets the policy-mode shortcut through.
pub fn confirm_dialog_allows_policy_switch(state: &ConfirmDialogState) -> (r: bool)
    ensures
        r == (state.dialog is ToolApproval),
{
    match state.dialog {
        ConfirmDialog::ToolApproval { .. } => true,
        _ => false,
    }
}

/// Whether the dialog is the approval of `approval_id`.
pub fn tool_approval_dialog_matches(state: &ConfirmDialogState, approval_id: &str) -> (r: bool)
    ensures
        r == (match state.dialog {
            ConfirmDialog::ToolApproval { approval_id: current, .. } => current@ == approval_id@,
            _ => false,
        }),
{
    match &state.dialog {
        ConfirmDialog::ToolApproval { approval_id: current, .. } => crate::text::str_eq(
            current.as_str(),
            approval_id,
        ),
        _ => false,
    }
}

#[derive(Debug, Clone, Copy, PartialEq, Eq, Structural)]
pub enum ConfirmKeyAction {
    Confirm,
    Cancel,
    Select(ConfirmChoice),
    Ignore,
}

pub open spec fn confirm_action(key: KeyCode, selected: ConfirmChoice) -> ConfirmKeyAction {
    match key {
        KeyCode::Left => ConfirmKeyAction::Select(ConfirmChoice::Yes),
        KeyCode::Right => ConfirmKeyAction::Select(ConfirmChoice::No),
        KeyCode::Enter => if selected == ConfirmChoice::Yes {
            ConfirmKeyAction::Confirm
        } else {
            ConfirmKeyAction::Cancel
        },
        KeyCode::Char(c) => if c == 'y' || c == 'Y' {
            ConfirmKeyAction::Confirm
        } else if c == 'n' || c == 'N' {
            ConfirmKeyAction::Cancel
        } else {
            ConfirmKeyAction::Ignore
        },
        KeyCode::Esc => ConfirmKeyAction::Cancel,
        _ => ConfirmKeyAction::Ignore,
    }
}

/// Left/Right pick Yes/No, Enter takes the pick, Y and N answer at once,
/// Esc cancels.
pub fn confirm_action_for_key(key: KeyCode, selected: ConfirmChoice) -> (r: ConfirmKeyAction)
    ensures
        r == confirm_action(key, selected),
{
    match key {
        KeyCode::Left => ConfirmKeyAction::Select(ConfirmChoice::Yes),
        KeyCode::Right => ConfirmKeyAction::Select(ConfirmChoice::No),
        KeyCode::Enter => if selected == ConfirmChoice::Yes {
            ConfirmKeyAction::Confirm
        } else {
            ConfirmKeyAction::Cancel
        },
        KeyCode::Char('y') | KeyCode::Char('Y') => ConfirmKeyAction::Confirm,
        KeyCode::Esc | KeyCode::Char('n') | KeyCode::Char('N') => ConfirmKeyAction::Cancel,
        _ => ConfirmKeyAction::Ignore,
    }
}

/// What a key does to an open confirmation dialog.
#[derive(Debug, Clone, PartialEq, Eq)]
pub enum ConfirmOutcome {
    /// The dialog stays open with this choice highlighted.
    Select(ConfirmChoice),
    /// The key does nothing.
    Ignore,
    /// The dialog closes and the running turn is interrupted.
    Interrupt,
    /// The dialog closes and the app exits.
    Exit,
    /// The dialog closes and the tool request is approved or denied.
    ResolveApproval { approval_id: String, approved: bool },
    /// The dialog closes.
    Dismiss,
}

/// The outcome of `action` on a dialog asking `dialog`.
pub open spec fn confirm_outcome(dialog: ConfirmDialog, action: ConfirmKeyAction) -> ConfirmOutcome {
    match action {
        ConfirmKeyAction::Select(choice) => ConfirmOutcome::Select(choice),
        ConfirmKeyAction::Ignore => ConfirmOutcome::Ignore,
        ConfirmKeyAction::Confirm => match dialog {
            ConfirmDialog::Interrupt => ConfirmOutcome::Interrupt,
            ConfirmDialog::Exit => ConfirmOutcome::Exit,
            ConfirmDialog::ToolApproval { approval_id, .. } => ConfirmOutcome::ResolveApproval {
                approval_id,
                approved: true,
            },
        },
        ConfirmKeyAction::Cancel => match dialog {
            ConfirmDialog::ToolApproval { approval_id, .. } => ConfirmOutcome::ResolveApproval {
                approval_id,
                approved: false,
            },
            _ => ConfirmOutcome::Dismiss,
        },
    }
}

/// What `key` does to the dialog: confirming carries out what it asks
/// (interrupt, exit, approve the tool), cancelling closes it (denying a
/// tool request), and Left/Right move the highlight.
pub fn confirm_dialog_key(state: &ConfirmDialogState, key: KeyCode) -> (r: ConfirmOutcome)
    ensures
        r == confirm_outcome(state.dialog, confirm_action(key, state.selected)),
{
    match confirm_action_for_key(key, state.selected) {
        ConfirmKeyAction::Select(choice) => ConfirmOutcome::Select(choice),
        ConfirmKeyAction::Ignore => ConfirmOutcome::Ignore,
        ConfirmKeyAction::Confirm => match &state.dialog {
            ConfirmDialog::Interrupt => ConfirmOutcome::Interrupt,
            ConfirmDialog::Exit => ConfirmOutcome::Exit,
            ConfirmDialog::ToolApproval { approval_id, .. } => ConfirmOutcome::ResolveApproval {
                approval_id: approval_id.clone(),
                approved: true,
            },
        },
        ConfirmKeyAction::Cancel => match &state.dialog {
            ConfirmDialog::ToolApproval { approval_id, .. } => ConfirmOutcome::ResolveApproval {
                approval_id: approval_id.clone(),
                approved: false,
            },
            _ => ConfirmOutcome::Dismiss,
        },
    }
}

/// Esc always closes a confirmation dialog, whatever is highlighted, and
/// never interrupts, exits or approves: it dismisses the dialog, or denies
/// the tool request it asks about.
pub proof fn law_escape_closes_confirm_dialog(dialog: ConfirmDialog, selected: ConfirmChoice)
    ensures
        ({
            let out = confirm_outcome(dialog, confirm_action(KeyCode::Esc, selected));
            ||| out == ConfirmOutcome::Dismiss
            ||| out matches ConfirmOutcome::ResolveApproval { approved, .. } && !approved
        }),
{
}

/// The text of a confirmation dialog.
#[derive(Debug, Clone, PartialEq, Eq)]
pub struct DialogCopy {
    pub title: String,
    pub context: String,
    pub heading: String,
    pub detail: String,
    pub confirm_label: String,
}

pub open spec fn dialog_copy_spec(dialog: ConfirmDialog) -> (Seq<char>, Seq<char>, Seq<char>, Seq<
    char,
>, Seq<char>) {
    match dialog {
        ConfirmDialog::Interrupt => (
            "Interrupt turn"@,
            "running model"@,
            "Stop the current response?"@,
            "Roder will ask the provider to stop this turn. The thread stays open and any partial output remains visible."@,
            "Interrupt"@,
        ),
        ConfirmDialog::Exit => (
            "Exit Roder"@,
            "terminal session"@,
            "Close the TUI?"@,
            "Roder will leave the alternate screen and return you to the terminal."@,
            "Exit"@,
        ),
        ConfirmDialog::ToolApproval { tool_name, reason, .. } => (
            "Approve tool"@,
            "tool approval"@,
            "Run `"@ + tool_name@ + "`?"@,
            match reason {
                Some(r) => r@,
                None => "Roder wants to run a side-effecting tool."@,
            },
            "Approve"@,
        ),
    }
}

pub fn dialog_copy(dialog: &ConfirmDialog) -> (r: DialogCopy)
    ensures
        (r.title@, r.context@, r.heading@, r.detail@, r.confirm_label@) == dialog_copy_spec(*dialog),
{
    match dialog {
        ConfirmDialog::Interrupt => DialogCopy {
            title: string_from("Interrupt turn"),
            context: string_from("running model"),
            heading: string_from("Stop the current response?"),
            detail: string_from(
                "Roder will ask the provider to stop this turn. The thread stays open and any partial output remains visible.",
            ),
            confirm_label: string_from("Interrupt"),
        },
        ConfirmDialog::Exit => DialogCopy {
            title: string_from("Exit Roder"),
            context: string_from("terminal session"),
            heading: string_from("Close the TUI?"),
            detail: string_from(
                "Roder will leave the alternate screen and return you to the terminal.",
            ),
            confirm_label: string_from("Exit"),
        },
        ConfirmDialog::ToolApproval { tool_name, reason, .. } => {
            let mut heading = string_from("Run `");
            push_str(&mut heading, tool_name.as_str());
            push_str(&mut heading, "`?");
            let detail = match reason {
                Some(r) => string_from(r.as_str()),
                None => string_from("Roder wants to run a side-effecting tool."),
            };
            DialogCopy {
                title: string_from("Approve tool"),
                context: string_from("tool approval"),
                heading,
                detail,
                confirm_label: string_from("Approve"),
            }
        },
    }
}

// ---------------------------------------------------------------------------
// Questions for the user
// ---------------------------------------------------------------------------

/// One answer the user can pick.
#[derive(Debug, Clone, PartialEq, Eq)]
pub struct UserInputOption {
    pub label: String,
    pub description: String,
}

/// One question with its answers.
#[derive(Debug, Clone, PartialEq, Eq)]
pub struct UserInputQuestion {
    pub id: String,
    pub header: String,
    pub question: String,
    pub options: Vec<UserInputOption>,
}

/// An option as the request carries it: a field that is not a string is
/// `None`.
#[derive(Debug, Clone, PartialEq, Eq)]
pub struct RawOption {
    pub label: Option<String>,
    pub description: Option<String>,
}

/// A question as the request carries it: a field that is not a string is
/// `None`, and `options` is `None` when it is not an array.
#[derive(Debug, Clone, PartialEq, Eq)]
pub struct RawQuestion {
    pub id: Option<String>,
    pub header: Option<String>,
    pub question: Option<String>,
    pub options: Option<Vec<RawOption>>,
}

pub open spec fn opt_or(o: Option<String>, default: Seq<char>) -> Seq<char> {
    match o {
        Some(s) => s@,
        None => default,
    }
}

/// The options of a raw question that have a label, in order.
pub open spec fn labelled_options(raw: Seq<RawOption>) -> Seq<(Seq<char>, Seq<char>)>
    decreases raw.len(),
{
    if raw.len() == 0 {
        seq![]
    } else {
        let prev = labelled_options(raw.drop_last());
        match raw.last().label {
            Some(l) => prev.push((l@, opt_or(raw.last().description, seq![]))),
            None => prev,
        }
    }
}

pub open spec fn option_views(o: Seq<UserInputOption>) -> Seq<(Seq<char>, Seq<char>)> {
    o.map_values(|x: UserInputOption| (x.label@, x.description@))
}

/// A raw question is answerable when it has an option with a label; the id
/// defaults to `answer`, the header to nothing, the question to
/// `Select an option`.
pub open spec fn parsed_question(raw: RawQuestion) -> Option<(Seq<char>, Seq<char>, Seq<char>, Seq<(Seq<char>, Seq<char>)>)> {
    let options = match raw.options {
        Some(o) => labelled_options(o@),
        None => seq![],
    };
    if options.len() == 0 {
        None
    } else {
        Some(
            (
                opt_or(raw.id, "answer"@),
                opt_or(raw.header, seq![]),
                opt_or(raw.question, "Select an option"@),
                options,
            ),
        )
    }
}

pub open spec fn question_view(q: UserInputQuestion) -> (Seq<char>, Seq<char>, Seq<char>, Seq<(Seq<char>, Seq<char>)>) {
    (q.id@, q.header@, q.question@, option_views(q.options@))
}

fn string_or(o: &Option<String>, default: &str) -> (r: String)
    ensures
        r@ == opt_or(*o, default@),
{
    match o {
        Some(s) => string_from(s.as_str()),
        None => string_from(default),
    }
}

pub fn parse_user_input_question(raw: &RawQuestion) -> (r: Option<UserInputQuestion>)
    ensures
        match r {
            Some(q) => parsed_question(*raw) == Some(question_view(q)),
            None => parsed_question(*raw) is None,
        },
{
    let mut options: Vec<UserInputOption> = Vec::new();
    match &raw.options {
        Some(items) => {
            let mut i: usize = 0;
            assert(items@.take(0) =~= Seq::<RawOption>::empty());
            assert(option_views(options@) =~= Seq::<(Seq<char>, Seq<char>)>::empty());
            while i < items.len()
                invariant
                    0 <= i <= items@.len(),
                    option_views(options@) == labelled_options(items@.take(i as int)),
                decreases items@.len() - i,
            {
                assert(items@.take(i + 1).drop_last() =~= items@.take(i as int));
                assert(items@.take(i + 1).last() == items@[i as int]);
                match &items[i].label {
                    Some(label) => {
                        let ghost before = option_views(options@);
                        let description = string_or(&items[i].description, "");
                        proof {
                            reveal_strlit("");
                            assert(""@ =~= Seq::<char>::empty());
                        }
                        options.push(UserInputOption { label: string_from(label.as_str()), description });
                        assert(option_views(options@) =~= before.push(
                            (label@, opt_or(items@[i as int].description, seq![])),
                        ));
                    },
                    None => {},
                }
                i += 1;
            }
            assert(items@.take(items@.len() as int) =~= items@);
        },
        None => {
            assert(option_views(options@) =~= Seq::<(Seq<char>, Seq<char>)>::empty());
        },
    }
    if options.len() == 0 {
        return None;
    }
    let id = string_or(&raw.id, "answer");
    let header = string_or(&raw.header, "");
    proof {
        reveal_strlit("");
        assert(""@ =~= Seq::<char>::empty());
    }
    let question = string_or(&raw.question, "Select an option");
    Some(UserInputQuestion { id, header, question, options })
}


/// The raw questions that are answerable, parsed, in order.
pub open spec fn parsed_questions(raw: Seq<RawQuestion>) -> Seq<(Seq<char>, Seq<char>, Seq<char>, Seq<(Seq<char>, Seq<char>)>)>
    decreases raw.len(),
{
    if raw.len() == 0 {
        seq![]
    } else {
        let prev = parsed_questions(raw.drop_last());
        match parsed_question(raw.last()) {
            Some(q) => prev.push(q),
            None => prev,
        }
    }
}

pub open spec fn question_views(q: Seq<UserInputQuestion>) -> Seq<(Seq<char>, Seq<char>, Seq<char>, Seq<(Seq<char>, Seq<char>)>)> {
    q.map_values(|x: UserInputQuestion| question_view(x))
}

/// The answers so far: question id to chosen label, a later answer to the
/// same id replacing an earlier one.
pub open spec fn answer_map(e: Seq<(String, String)>) -> Map<Seq<char>, Seq<char>>
    decreases e.len(),
{
    if e.len() == 0 {
        Map::empty()
    } else {
        answer_map(e.drop_last()).insert(e.last().0@, e.last().1@)
    }
}

/// The dialog answering the questions of one request, one at a time.
#[derive(Debug, Clone, PartialEq, Eq)]
pub struct UserInputDialogState {
    pub request_id: String,
    pub turn_id: String,
    pub questions: Vec<UserInputQuestion>,
    /// The question being answered.
    pub current: usize,
    /// The highlighted option of that question.
    pub selected: usize,
    /// The answers given, in the order they were given.
    pub answers: Vec<(String, String)>,
}

impl UserInputDialogState {
    /// Every question has an option, and the current question and the
    /// highlighted option exist.
    pub open spec fn wf(&self) -> bool {
        &&& self.questions@.len() > 0
        &&& self.current < self.questions@.len()
        &&& forall|i: int| 0 <= i < self.questions@.len() ==> (#[trigger] self.questions@[i]).options@.len() > 0
        &&& self.selected < self.questions@[self.current as int].options@.len()
    }

    pub open spec fn answers_map(&self) -> Map<Seq<char>, Seq<char>> {
        answer_map(self.answers@)
    }

    /// The dialog for a request, from its `questions` payload (`None` when
    /// that is not a list); `None` when no question is answerable.
    pub fn from_event(request_id: String, turn_id: String, questions: &Option<Vec<RawQuestion>>) -> (r:
        Option<Self>)
        ensures
            match r {
                Some(s) => {
                    &&& s.wf()
                    &&& questions matches Some(q) && question_views(s.questions@) == parsed_questions(q@)
                    &&& s.request_id == request_id && s.turn_id == turn_id
                    &&& s.current == 0 && s.selected == 0
                    &&& s.answers@.len() == 0
                },
                None => match questions {
                    Some(q) => parsed_questions(q@).len() == 0,
                    None => true,
                },
            },
    {
        let items = match questions {
            Some(items) => items,
            None => return None,
        };
        let mut parsed: Vec<UserInputQuestion> = Vec::new();
        let mut i: usize = 0;
        assert(items@.take(0) =~= Seq::<RawQuestion>::empty());
        assert(question_views(parsed@) =~= parsed_questions(items@.take(0)));
        while i < items.len()
            invariant
                0 <= i <= items@.len(),
                question_views(parsed@) == parsed_questions(items@.take(i as int)),
                forall|k: int| 0 <= k < parsed@.len() ==> (#[trigger] parsed@[k]).options@.len() > 0,
            decreases items@.len() - i,
        {
            assert(items@.take(i + 1).drop_last() =~= items@.take(i as int));
            assert(items@.take(i + 1).last() == items@[i as int]);
            match parse_user_input_question(&items[i]) {
                Some(q) => {
                    let ghost before = question_views(parsed@);
                    proof {
                        assert(option_views(q.options@).len() > 0);
                    }
                    parsed.push(q);
                    assert(question_views(parsed@) =~= before.push(question_view(q)));
                },
                None => {},
            }
            i += 1;
        }
        assert(items@.take(items@.len() as int) =~= items@);
        if parsed.len() == 0 {
            return None;
        }
        Some(
            UserInputDialogState {
                request_id,
                turn_id,
                questions: parsed,
                current: 0,
                selected: 0,
                answers: Vec::new(),
            },
        )
    }

    pub fn current_question(&self) -> (r: &UserInputQuestion)
        requires
            self.current < self.questions@.len(),
        ensures
            *r == self.questions@[self.current as int],
    {
        &self.questions[self.current]
    }

    /// Moves the highlight up, from the first option to the last.
    pub fn select_previous(&mut self)
        requires
            old(self).current < old(self).questions@.len(),
        ensures
            ({
                let n = old(self).questions@[old(self).current as int].options@.len();
                &&& n == 0 ==> final(self).selected == old(self).selected
                &&& n > 0 ==> final(self).selected == (old(self).selected + n - 1) % (n as int)
            }),
            final(self).current == old(self).current,
            final(self).questions == old(self).questions,
            final(self).answers == old(self).answers,
            final(self).request_id == old(self).request_id,
            final(self).turn_id == old(self).turn_id,
    {
        let len = self.questions[self.current].options.len();
        if len == 0 {
            return;
        }
        self.selected = if self.selected == 0 {
            len - 1
        } else {
            (self.selected - 1) % len
        };
        proof {
            let s = old(self).selected as int;
            let n = len as int;
            if s == 0 {
                vstd::arithmetic::div_mod::lemma_small_mod((n - 1) as nat, n as nat);
            } else {
                assert(s + n - 1 == n + (s - 1));
                vstd::arithmetic::div_mod::lemma_mod_add_multiples_vanish(s - 1, n);
            }
        }
    }

    /// Moves the highlight down, from the last option to the first.
    pub fn select_next(&mut self)
        requires
            old(self).current < old(self).questions@.len(),
            old(self).selected < usize::MAX,
        ensures
            ({
                let n = old(self).questions@[old(self).current as int].options@.len();
                &&& n == 0 ==> final(self).selected == old(self).selected
                &&& n > 0 ==> final(self).selected == (old(self).selected + 1) % (n as int)
            }),
            final(self).current == old(self).current,
            final(self).questions == old(self).questions,
            final(self).answers == old(self).answers,
            final(self).request_id == old(self).request_id,
            final(self).turn_id == old(self).turn_id,
    {
        let len = self.questions[self.current].options.len();
        if len == 0 {
            return;
        }
        self.selected = (self.selected + 1) % len;
    }

    /// Records the highlighted option as the answer to the current question
    /// and moves to the next question; `true` once the last question is
    /// answered.
    pub fn commit_current(&mut self) -> (done: bool)
        requires
            old(self).current < old(self).questions@.len(),
        ensures
            ({
                let q = old(self).questions@[old(self).current as int];
                &&& old(self).selected < q.options@.len() ==> final(self).answers_map() == old(self).answers_map().insert(
                    q.id@,
                    q.options@[old(self).selected as int].label@,
                )
                &&& old(self).selected >= q.options@.len() ==> final(self).answers == old(self).answers
            }),
            done == (old(self).current + 1 >= old(self).questions@.len()),
            !done ==> final(self).current == old(self).current + 1 && final(self).selected == 0,
            done ==> final(self).current == old(self).current && final(self).selected == old(self).selected,
            final(self).questions == old(self).questions,
            final(self).request_id == old(self).request_id,
            final(self).turn_id == old(self).turn_id,
    {
        let current = self.current;
        let more = current < self.questions.len() - 1;
        if self.selected < self.questions[current].options.len() {
            let id = string_from(self.questions[current].id.as_str());
            let label = string_from(self.questions[current].options[self.selected].label.as_str());
            let ghost before = self.answers@;
            self.answers.push((id, label));
            assert(self.answers@.drop_last() =~= before);
        }
        if more {
            self.current = current + 1;
            self.selected = 0;
            false
        } else {
            true
        }
    }
}

/// Stepping the highlight down and then up (or up and then down) returns
/// it to where it was, in any dialog state.
pub proof fn law_select_next_then_previous(selected: int, n: int)
    requires
        0 <= selected < n,
    ensures
        ((selected + 1) % n + n - 1) % n == selected,
        ((selected + n - 1) % n + 1) % n == selected,
        0 <= (selected + 1) % n < n,
        0 <= (selected + n - 1) % n < n,
{
    assert(((selected + 1) % n + n - 1) % n == selected) by {
        if selected + 1 < n {
            vstd::arithmetic::div_mod::lemma_small_mod((selected + 1) as nat, n as nat);
            assert((selected + 1) % n + n - 1 == n + selected);
            vstd::arithmetic::div_mod::lemma_mod_add_multiples_vanish(selected, n);
            vstd::arithmetic::div_mod::lemma_small_mod(selected as nat, n as nat);
        } else {
            vstd::arithmetic::div_mod::lemma_mod_self_0(n);
            vstd::arithmetic::div_mod::lemma_small_mod((n - 1) as nat, n as nat);
        }
    }
    assert(((selected + n - 1) % n + 1) % n == selected) by {
        if selected > 0 {
            assert(selected + n - 1 == n + (selected - 1));
            vstd::arithmetic::div_mod::lemma_mod_add_multiples_vanish(selected - 1, n);
            vstd::arithmetic::div_mod::lemma_small_mod((selected - 1) as nat, n as nat);
            vstd::arithmetic::div_mod::lemma_small_mod(selected as nat, n as nat);
        } else {
            vstd::arithmetic::div_mod::lemma_small_mod((n - 1) as nat, n as nat);
            vstd::arithmetic::div_mod::lemma_mod_self_0(n);
        }
    }
    vstd::arithmetic::div_mod::lemma_mod_bound(selected + 1, n);
    vstd::arithmetic::div_mod::lemma_mod_bound(selected + n - 1, n);
}


#[derive(Debug, Clone, Copy, PartialEq, Eq, Structural)]
pub enum UserInputKeyAction {
    SelectPrevious,
    SelectNext,
    SelectIndex(usize),
    Confirm,
    Cancel,
    Ignore,
}

pub open spec fn user_input_action(key: KeyEvent) -> UserInputKeyAction {
    match key.code {
        KeyCode::Up => UserInputKeyAction::SelectPrevious,
        KeyCode::Down => UserInputKeyAction::SelectNext,
        KeyCode::Char(c) => if c == 'k' && key.modifiers.control {
            UserInputKeyAction::SelectPrevious
        } else if c == 'j' && key.modifiers.control {
            UserInputKeyAction::SelectNext
        } else if '1' <= c <= '9' {
            UserInputKeyAction::SelectIndex(((c as u32) - 49) as usize)
        } else {
            UserInputKeyAction::Ignore
        },
        KeyCode::Enter => UserInputKeyAction::Confirm,
        KeyCode::Esc => UserInputKeyAction::Cancel,
        _ => UserInputKeyAction::Ignore,
    }
}

/// Up/Down (or Ctrl+K/Ctrl+J) move, 1-9 jump to an option, Enter answers,
/// Esc skips.
pub fn user_input_action_for_key(key: KeyEvent) -> (r: UserInputKeyAction)
    ensures
        r == user_input_action(key),
{
    match key.code {
        KeyCode::Up => UserInputKeyAction::SelectPrevious,
        KeyCode::Down => UserInputKeyAction::SelectNext,
        KeyCode::Char(c) => if c == 'k' && key.modifiers.control {
            UserInputKeyAction::SelectPrevious
        } else if c == 'j' && key.modifiers.control {
            UserInputKeyAction::SelectNext
        } else if '1' <= c && c <= '9' {
            UserInputKeyAction::SelectIndex(((c as u32) - 49) as usize)
        } else {
            UserInputKeyAction::Ignore
        },
        KeyCode::Enter => UserInputKeyAction::Confirm,
        KeyCode::Esc => UserInputKeyAction::Cancel,
        _ => UserInputKeyAction::Ignore,
    }
}

/// Whether the dialog stays open, or closes and its answers are sent.
#[derive(Debug, Clone, Copy, PartialEq, Eq, Structural)]
pub enum UserInputOutcome {
    Stay,
    Resolve,
}

/// Applies a key action to the dialog. `Resolve` means the dialog closes
/// and its answers go back to the waiting tool call; a cancel resolves with
/// the answers given so far, so that the turn never hangs.
pub fn apply_user_input_action(state: &mut UserInputDialogState, action: UserInputKeyAction) -> (r:
    UserInputOutcome)
    requires
        old(state).wf(),
    ensures
        final(state).wf(),
        final(state).questions == old(state).questions,
        final(state).request_id == old(state).request_id,
        ({
            let n = old(state).questions@[old(state).current as int].options@.len();
            match action {
                UserInputKeyAction::SelectPrevious => r == UserInputOutcome::Stay && final(state).selected
                    == (old(state).selected + n - 1) % (n as int) && final(state).answers == old(state).answers,
                UserInputKeyAction::SelectNext => r == UserInputOutcome::Stay && final(state).selected
                    == (old(state).selected + 1) % (n as int) && final(state).answers == old(state).answers,
                UserInputKeyAction::SelectIndex(i) => r == UserInputOutcome::Stay && final(state).selected
                    == (if i < n {
                    i
                } else {
                    old(state).selected
                }) && final(state).answers == old(state).answers,
                UserInputKeyAction::Confirm => {
                    let q = old(state).questions@[old(state).current as int];
                    &&& final(state).answers_map() == old(state).answers_map().insert(
                        q.id@,
                        q.options@[old(state).selected as int].label@,
                    )
                    &&& (r == UserInputOutcome::Resolve) == (old(state).current + 1
                        >= old(state).questions@.len())
                    &&& r == UserInputOutcome::Stay ==> final(state).current == old(state).current + 1
                        && final(state).selected == 0
                },
                UserInputKeyAction::Cancel => r == UserInputOutcome::Resolve && final(state).answers
                    == old(state).answers,
                UserInputKeyAction::Ignore => r == UserInputOutcome::Stay && *final(state) == *old(state),
            }
        }),
{
    proof {
        law_select_next_then_previous(
            state.selected as int,
            state.questions@[state.current as int].options@.len() as int,
        );
    }
    let option_count = state.current_question().options.len();
    assert(state.selected < option_count);
    match action {
        UserInputKeyAction::SelectPrevious => {
            state.select_previous();
            UserInputOutcome::Stay
        },
        UserInputKeyAction::SelectNext => {
            state.select_next();
            UserInputOutcome::Stay
        },
        UserInputKeyAction::SelectIndex(index) => {
            if index < state.current_question().options.len() {
                state.selected = index;
            }
            UserInputOutcome::Stay
        },
        UserInputKeyAction::Confirm => {
            if state.commit_current() {
                UserInputOutcome::Resolve
            } else {
                UserInputOutcome::Stay
            }
        },
        UserInputKeyAction::Cancel => UserInputOutcome::Resolve,
        UserInputKeyAction::Ignore => UserInputOutcome::Stay,
    }
}

} // verus!
