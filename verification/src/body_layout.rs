//! The rows of the main screen, top to bottom: which panels are shown and
//! how tall each is. The terminal library then divides the screen by them.
use vstd::prelude::*;

verus! {

/// A panel of the main screen.
#[derive(Debug, Clone, Copy, PartialEq, Eq, Structural)]
pub enum Panel {
    Header,
    /// The transcript, or the roadmap document in roadmap mode.
    Transcript,
    EventLog,
    ImageAttachments,
    QueuedPrompts,
    WorkingLine,
    PlanPanel,
    WorkflowTrigger,
    InlineCompletion,
    SlashPreview,
    Composer,
    WorkflowProgress,
    SlashMenu,
    MentionMenu,
    Footer,
}

/// How tall a row is: exactly so many lines, or at least so many, taking
/// what is left.
#[derive(Debug, Clone, Copy, PartialEq, Eq, Structural)]
pub enum RowSize {
    Length(u16),
    Min(u16),
}

/// The heights that the panels below the transcript want; a panel that
/// wants no lines is not shown.
#[derive(Debug, Clone, Copy, PartialEq, Eq, Structural)]
pub struct LayoutHeights {
    pub event_log: u16,
    pub image_attachments: u16,
    pub queued_prompts: u16,
    pub plan_panel: u16,
    pub workflow_trigger: u16,
    pub inline_completion: u16,
    pub slash_preview: u16,
    pub composer: u16,
    pub workflow_progress: u16,
    pub slash_menu: u16,
    pub mention_menu: u16,
}

/// The first two rows: a one-line header over a transcript of at least
/// five lines.
pub fn top_layout_constraints() -> (r: [RowSize; 2])
    ensures
        r@ == seq![RowSize::Length(1), RowSize::Min(5)],
{
    let r = [RowSize::Length(1), RowSize::Min(5)];
    assert(r@ =~= seq![RowSize::Length(1), RowSize::Min(5)]);
    r
}

/// The row of `panel` when it wants `height` lines, none when it wants none.
pub open spec fn row_if(panel: Panel, height: u16) -> Seq<(Panel, RowSize)> {
    if height > 0 {
        seq![(panel, RowSize::Length(height))]
    } else {
        seq![]
    }
}

/// The rows of the main screen: a one-line header, the transcript taking
/// the rest (at least five lines), then the event log, image attachments,
/// queued prompts, the working line while a turn runs, the plan panel, the
/// workflow trigger, inline completions and the slash-command preview each
/// where shown, the composer, then the workflow progress, the slash-command
/// menu and the mention menu where shown, and a one-line footer.
pub open spec fn body_rows_spec(h: LayoutHeights, active_turn: bool) -> Seq<(Panel, RowSize)> {
    seq![(Panel::Header, RowSize::Length(1)), (Panel::Transcript, RowSize::Min(5))]
        + row_if(Panel::EventLog, h.event_log)
        + row_if(Panel::ImageAttachments, h.image_attachments)
        + row_if(Panel::QueuedPrompts, h.queued_prompts)
        + (if active_turn {
        seq![(Panel::WorkingLine, RowSize::Length(1))]
    } else {
        seq![]
    })
        + row_if(Panel::PlanPanel, h.plan_panel)
        + row_if(Panel::WorkflowTrigger, h.workflow_trigger)
        + row_if(Panel::InlineCompletion, h.inline_completion)
        + row_if(Panel::SlashPreview, h.slash_preview)
        + seq![(Panel::Composer, RowSize::Length(h.composer))]
        + row_if(Panel::WorkflowProgress, h.workflow_progress)
        + row_if(Panel::SlashMenu, h.slash_menu)
        + row_if(Panel::MentionMenu, h.mention_menu)
        + seq![(Panel::Footer, RowSize::Length(1))]
}

fn push_if(rows: &mut Vec<(Panel, RowSize)>, panel: Panel, height: u16)
    ensures
        final(rows)@ == old(rows)@ + row_if(panel, height),
{
    if height > 0 {
        rows.push((panel, RowSize::Length(height)));
    }
    assert(rows@ =~= old(rows)@ + row_if(panel, height));
}

/// The rows of the main screen for these panel heights.
pub fn body_rows(h: &LayoutHeights, active_turn: bool) -> (rows: Vec<(Panel, RowSize)>)
    ensures
        rows@ == body_rows_spec(*h, active_turn),
{
    let mut rows: Vec<(Panel, RowSize)> = Vec::new();
    rows.push((Panel::Header, RowSize::Length(1)));
    rows.push((Panel::Transcript, RowSize::Min(5)));
    push_if(&mut rows, Panel::EventLog, h.event_log);
    push_if(&mut rows, Panel::ImageAttachments, h.image_attachments);
    push_if(&mut rows, Panel::QueuedPrompts, h.queued_prompts);
    let ghost before_working = rows@;
    if active_turn {
        rows.push((Panel::WorkingLine, RowSize::Length(1)));
    }
    assert(rows@ =~= before_working + (if active_turn {
        seq![(Panel::WorkingLine, RowSize::Length(1))]
    } else {
        seq![]
    }));
    push_if(&mut rows, Panel::PlanPanel, h.plan_panel);
    push_if(&mut rows, Panel::WorkflowTrigger, h.workflow_trigger);
    push_if(&mut rows, Panel::InlineCompletion, h.inline_completion);
    push_if(&mut rows, Panel::SlashPreview, h.slash_preview);
    rows.push((Panel::Composer, RowSize::Length(h.composer)));
    push_if(&mut rows, Panel::WorkflowProgress, h.workflow_progress);
    push_if(&mut rows, Panel::SlashMenu, h.slash_menu);
    push_if(&mut rows, Panel::MentionMenu, h.mention_menu);
    rows.push((Panel::Footer, RowSize::Length(1)));
    assert(rows@ =~= body_rows_spec(*h, active_turn));
    rows
}

/// Where `panel` stands among `rows`, if it is there.
pub fn find_panel(rows: &Vec<(Panel, RowSize)>, panel: Panel) -> (r: Option<usize>)
    ensures
        match r {
            Some(i) => i < rows@.len() && rows@[i as int].0 == panel && forall|k: int|
                0 <= k < i ==> rows@[k].0 != panel,
            None => forall|k: int| 0 <= k < rows@.len() ==> rows@[k].0 != panel,
        },
{
    let mut i: usize = 0;
    while i < rows.len()
        invariant
            0 <= i <= rows@.len(),
            forall|k: int| 0 <= k < i ==> rows@[k].0 != panel,
        decreases rows@.len() - i,
    {
        if rows[i].0 == panel {
            return Some(i);
        }
        i += 1;
    }
    None
}

/// Every screen starts with the header over the transcript and ends with
/// the footer, and always shows the composer;
/// a panel below the transcript is shown exactly when it wants lines (the
/// working line exactly while a turn runs).
pub proof fn law_body_rows_frame(h: LayoutHeights, active_turn: bool)
    ensures
        body_rows_spec(h, active_turn)[0] == (Panel::Header, RowSize::Length(1)),
        body_rows_spec(h, active_turn)[1] == (Panel::Transcript, RowSize::Min(5)),
        body_rows_spec(h, active_turn).last() == (Panel::Footer, RowSize::Length(1)),
        body_rows_spec(h, active_turn).contains((Panel::Composer, RowSize::Length(h.composer))),
        body_rows_spec(h, active_turn).contains((Panel::WorkingLine, RowSize::Length(1))) == active_turn,
        body_rows_spec(h, active_turn).contains((Panel::EventLog, RowSize::Length(h.event_log))) == (
        h.event_log > 0),
        body_rows_spec(h, active_turn).contains((Panel::SlashMenu, RowSize::Length(h.slash_menu))) == (
        h.slash_menu > 0),
{
    let rows = body_rows_spec(h, active_turn);
    let pre = seq![(Panel::Header, RowSize::Length(1)), (Panel::Transcript, RowSize::Min(5))]
        + row_if(Panel::EventLog, h.event_log)
        + row_if(Panel::ImageAttachments, h.image_attachments)
        + row_if(Panel::QueuedPrompts, h.queued_prompts)
        + (if active_turn {
        seq![(Panel::WorkingLine, RowSize::Length(1))]
    } else {
        seq![]
    })
        + row_if(Panel::PlanPanel, h.plan_panel)
        + row_if(Panel::WorkflowTrigger, h.workflow_trigger)
        + row_if(Panel::InlineCompletion, h.inline_completion)
        + row_if(Panel::SlashPreview, h.slash_preview);
    let composer_at = pre.len() as int;
    assert(rows[composer_at] == (Panel::Composer, RowSize::Length(h.composer)));
    if active_turn {
        let k: int = (2 + row_if(Panel::EventLog, h.event_log).len() + row_if(
            Panel::ImageAttachments,
            h.image_attachments,
        ).len() + row_if(Panel::QueuedPrompts, h.queued_prompts).len()) as int;
        assert(rows[k] == (Panel::WorkingLine, RowSize::Length(1)));
    } else {
        assert forall|i: int| 0 <= i < rows.len() implies rows[i] != (Panel::WorkingLine, RowSize::Length(1)) by {
        }
    }
    if h.event_log > 0 {
        assert(rows[2] == (Panel::EventLog, RowSize::Length(h.event_log)));
    } else {
        assert forall|i: int| 0 <= i < rows.len() implies rows[i] != (Panel::EventLog, RowSize::Length(h.event_log)) by {
        }
    }
    if h.slash_menu > 0 {
        let k: int = composer_at + 1 + row_if(Panel::WorkflowProgress, h.workflow_progress).len() as int;
        assert(rows[k] == (Panel::SlashMenu, RowSize::Length(h.slash_menu)));
    } else {
        assert forall|i: int| 0 <= i < rows.len() implies rows[i] != (Panel::SlashMenu, RowSize::Length(h.slash_menu)) by {
        }
    }
}

} // verus!
