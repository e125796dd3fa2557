//! Timeline rows for a plan-review hunk and for a generated media file:
//! the lines they show, each piece tagged with the role that styles it.
use vstd::prelude::*;
use crate::text::{decimal, push_decimal, push_str, string_from};

verus! {

broadcast use vstd::string::group_string_axioms;

/// How a piece of a row is styled.
#[derive(Debug, Clone, Copy, PartialEq, Eq, Structural)]
pub enum TextRole {
    Text,
    TextBold,
    Strong,
    Accent,
    AccentBold,
    AccentSoft,
    Tool,
    Muted,
    Subtle,
    Error,
    ErrorBold,
    /// The plain text of a dialog's surface.
    DialogSurface,
}

/// A line of a row: its pieces in order, each with its role.
pub type StyledLine = Vec<(String, TextRole)>;

pub open spec fn line_view(l: Seq<(String, TextRole)>) -> Seq<(Seq<char>, TextRole)> {
    l.map_values(|p: (String, TextRole)| (p.0@, p.1))
}

pub open spec fn lines_view(ls: Seq<StyledLine>) -> Seq<Seq<(Seq<char>, TextRole)>> {
    ls.map_values(|l: StyledLine| line_view(l@))
}

fn piece(text: &str, role: TextRole) -> (r: (String, TextRole))
    ensures
        r.0@ == text@,
        r.1 == role,
{
    (string_from(text), role)
}

fn two_pieces(a: (String, TextRole), b: (String, TextRole)) -> (r: StyledLine)
    ensures
        line_view(r@) == seq![(a.0@, a.1), (b.0@, b.1)],
{
    let mut l: StyledLine = Vec::new();
    l.push(a);
    l.push(b);
    assert(line_view(l@) =~= seq![(a.0@, a.1), (b.0@, b.1)]);
    l
}

/// What kind of file a media artifact is.
#[derive(Debug, Clone, Copy, PartialEq, Eq, Structural)]
pub enum MediaKind {
    Image,
    Video,
    Audio,
    Other,
}

/// A media file that a tool generated.
#[derive(Debug, Clone, PartialEq, Eq)]
pub struct MediaArtifact {
    pub id: String,
    pub kind: MediaKind,
    pub mime_type: String,
    pub byte_size: u64,
    pub provider: String,
    pub store_path: String,
}

/// How a media file can be previewed in the terminal.
#[derive(Debug, Clone, Copy, PartialEq, Eq, Structural)]
pub enum MediaPreviewStrategy {
    InlineImage,
    Thumbnail,
    MetadataOnly,
}

#[derive(Debug, Clone, PartialEq, Eq)]
pub struct MediaPreview {
    pub artifact_id: String,
    pub strategy: MediaPreviewStrategy,
    pub fallback_label: String,
}

pub open spec fn kind_label(kind: MediaKind) -> Seq<char> {
    match kind {
        MediaKind::Image => "image"@,
        MediaKind::Video => "video"@,
        MediaKind::Audio => "audio"@,
        MediaKind::Other => "media"@,
    }
}

pub open spec fn strategy_label(strategy: MediaPreviewStrategy) -> Seq<char> {
    match strategy {
        MediaPreviewStrategy::InlineImage => "inline preview"@,
        MediaPreviewStrategy::Thumbnail => "thumbnail"@,
        MediaPreviewStrategy::MetadataOnly => "metadata"@,
    }
}

/// The lines of a media row: kind, type and size; provider and where the
/// file is stored; and, with a preview, how it is previewed.
pub open spec fn media_lines(a: MediaArtifact, preview: Option<MediaPreview>) -> Seq<Seq<(Seq<char>, TextRole)>> {
    let first = seq![
        ("  media "@, TextRole::Tool),
        (kind_label(a.kind) + " "@ + a.mime_type@ + " "@ + decimal(a.byte_size as nat) + " bytes"@, TextRole::Text),
    ];
    let second = seq![("    "@, TextRole::Subtle), (a.provider@ + " · "@ + a.store_path@, TextRole::Muted)];
    match preview {
        Some(p) => seq![
            first,
            second,
            seq![("    "@, TextRole::Subtle), (strategy_label(p.strategy) + ": "@ + p.fallback_label@, TextRole::Subtle)],
        ],
        None => seq![first, second],
    }
}

/// A timeline row for a generated media file.
#[derive(Debug, Clone, PartialEq, Eq)]
pub struct MediaTimelineRow {
    pub artifact: MediaArtifact,
    pub preview: Option<MediaPreview>,
}

impl MediaTimelineRow {
    pub fn new(artifact: MediaArtifact, preview: Option<MediaPreview>) -> (r: Self)
        ensures
            r.artifact == artifact,
            r.preview == preview,
    {
        MediaTimelineRow { artifact, preview }
    }

    /// Appends the row's lines to `lines`.
    pub fn render(&self, lines: &mut Vec<StyledLine>)
        ensures
            lines_view(final(lines)@) == lines_view(old(lines)@) + media_lines(self.artifact, self.preview),
    {
        let a = &self.artifact;
        let mut head = string_from(
            match a.kind {
                MediaKind::Image => "image",
                MediaKind::Video => "video",
                MediaKind::Audio => "audio",
                MediaKind::Other => "media",
            },
        );
        push_str(&mut head, " ");
        push_str(&mut head, a.mime_type.as_str());
        push_str(&mut head, " ");
        push_decimal(&mut head, a.byte_size);
        push_str(&mut head, " bytes");
        let ghost before = lines@;
        lines.push(two_pieces(piece("  media ", TextRole::Tool), (head, TextRole::Text)));
        let mut source = string_from(a.provider.as_str());
        push_str(&mut source, " · ");
        push_str(&mut source, a.store_path.as_str());
        lines.push(two_pieces(piece("    ", TextRole::Subtle), (source, TextRole::Muted)));
        match &self.preview {
            Some(p) => {
                let mut label = string_from(
                    match p.strategy {
                        MediaPreviewStrategy::InlineImage => "inline preview",
                        MediaPreviewStrategy::Thumbnail => "thumbnail",
                        MediaPreviewStrategy::MetadataOnly => "metadata",
                    },
                );
                push_str(&mut label, ": ");
                push_str(&mut label, p.fallback_label.as_str());
                lines.push(two_pieces(piece("    ", TextRole::Subtle), (label, TextRole::Subtle)));
            },
            None => {},
        }
        assert(lines_view(lines@) =~= lines_view(before) + media_lines(self.artifact, self.preview));
    }
}

/// How a line of a hunk's diff changed.
#[derive(Debug, Clone, Copy, PartialEq, Eq, Structural)]
pub enum HunkDiffLineKind {
    Context,
    Added,
    Removed,
}

#[derive(Debug, Clone, PartialEq, Eq)]
pub struct HunkDiffLine {
    pub kind: HunkDiffLineKind,
    pub text: String,
}

/// Whether a hunk can be rolled back.
#[derive(Debug, Clone, Copy, PartialEq, Eq, Structural)]
pub enum HunkRollbackState {
    Available,
    Applied,
    Conflict,
    Unavailable,
}

/// A hunk that a plan review tracks.
#[derive(Debug, Clone, PartialEq, Eq)]
pub struct HunkRecord {
    pub id: String,
    pub path: String,
    pub rollback: HunkRollbackState,
    pub diff: Vec<HunkDiffLine>,
}

pub open spec fn rollback_label(state: HunkRollbackState) -> Seq<char> {
    match state {
        HunkRollbackState::Available => "rollback available"@,
        HunkRollbackState::Applied => "rolled back"@,
        HunkRollbackState::Conflict => "rollback conflict"@,
        HunkRollbackState::Unavailable => "rollback unavailable"@,
    }
}

/// At most this many diff lines show under an expanded hunk.
pub const MAX_HUNK_DIFF_LINES: usize = 24;

pub open spec fn diff_line(d: HunkDiffLine) -> Seq<(Seq<char>, TextRole)> {
    let (prefix, role) = match d.kind {
        HunkDiffLineKind::Context => (" "@, TextRole::Muted),
        HunkDiffLineKind::Added => ("+"@, TextRole::Tool),
        HunkDiffLineKind::Removed => ("-"@, TextRole::Error),
    };
    seq![("    "@, TextRole::Subtle), (prefix, role), (d.text@, role)]
}

/// The lines of a hunk row: its title (bold when selected), the rollback
/// question while it is asked, and, when expanded, the first diff lines.
pub open spec fn hunk_lines(
    h: HunkRecord,
    confirming: bool,
    selected: bool,
    expanded: bool,
) -> Seq<Seq<(Seq<char>, TextRole)>> {
    let title = seq![
        ("  Δ "@, TextRole::Tool),
        (
            "hunk "@ + h.id@ + " "@ + rollback_label(h.rollback) + " in "@ + h.path@,
            if selected {
                TextRole::TextBold
            } else {
                TextRole::Text
            },
        ),
    ];
    let confirm = if confirming {
        seq![seq![("    confirm rollback? y / n"@, TextRole::ErrorBold)]]
    } else {
        seq![]
    };
    let shown = if h.diff@.len() > MAX_HUNK_DIFF_LINES {
        h.diff@.take(MAX_HUNK_DIFF_LINES as int)
    } else {
        h.diff@
    };
    let diff = if expanded {
        shown.map_values(|d: HunkDiffLine| diff_line(d))
    } else {
        seq![]
    };
    seq![title] + confirm + diff
}

/// A timeline row for a hunk under plan review.
#[derive(Debug, Clone, PartialEq, Eq)]
pub struct HunkTrackerRow {
    pub hunk: HunkRecord,
    pub rollback_confirming: bool,
}

impl HunkTrackerRow {
    pub fn new(hunk: HunkRecord) -> (r: Self)
        ensures
            r.hunk == hunk,
            !r.rollback_confirming,
    {
        HunkTrackerRow { hunk, rollback_confirming: false }
    }

    /// Asks whether to roll the hunk back.
    pub fn start_rollback_confirmation(&mut self)
        ensures
            final(self).hunk == old(self).hunk,
            final(self).rollback_confirming,
    {
        self.rollback_confirming = true;
    }

    pub fn hunk_id(&self) -> (r: &str)
        ensures
            r@ == self.hunk.id@,
    {
        self.hunk.id.as_str()
    }

    /// Whether the row has diff lines to expand.
    pub fn can_expand(&self) -> (r: bool)
        ensures
            r == (self.hunk.diff@.len() > 0),
    {
        self.hunk.diff.len() > 0
    }

    /// Appends the row's lines to `lines`.
    pub fn render(&self, selected: bool, expanded: bool, lines: &mut Vec<StyledLine>)
        ensures
            lines_view(final(lines)@) == lines_view(old(lines)@) + hunk_lines(
                self.hunk,
                self.rollback_confirming,
                selected,
                expanded,
            ),
    {
        let h = &self.hunk;
        let ghost before = lines@;
        let mut title = string_from("hunk ");
        push_str(&mut title, h.id.as_str());
        push_str(&mut title, " ");
        push_str(
            &mut title,
            match h.rollback {
                HunkRollbackState::Available => "rollback available",
                HunkRollbackState::Applied => "rolled back",
                HunkRollbackState::Conflict => "rollback conflict",
                HunkRollbackState::Unavailable => "rollback unavailable",
            },
        );
        push_str(&mut title, " in ");
        push_str(&mut title, h.path.as_str());
        lines.push(
            two_pieces(
                piece("  Δ ", TextRole::Tool),
                (title, if selected { TextRole::TextBold } else { TextRole::Text }),
            ),
        );
        if self.rollback_confirming {
            let mut l: StyledLine = Vec::new();
            l.push(piece("    confirm rollback? y / n", TextRole::ErrorBold));
            assert(line_view(l@) =~= seq![("    confirm rollback? y / n"@, TextRole::ErrorBold)]);
            lines.push(l);
        }
        let ghost head = lines@;
        if expanded {
            let count = if h.diff.len() > MAX_HUNK_DIFF_LINES {
                MAX_HUNK_DIFF_LINES
            } else {
                h.diff.len()
            };
            let mut i: usize = 0;
            while i < count
                invariant
                    count <= h.diff@.len(),
                    0 <= i <= count,
                    lines_view(lines@) == lines_view(head) + h.diff@.take(i as int).map_values(
                        |d: HunkDiffLine| diff_line(d),
                    ),
                decreases count - i,
            {
                let d = &h.diff[i];
                let (prefix, role) = match d.kind {
                    HunkDiffLineKind::Context => (" ", TextRole::Muted),
                    HunkDiffLineKind::Added => ("+", TextRole::Tool),
                    HunkDiffLineKind::Removed => ("-", TextRole::Error),
                };
                let mut l: StyledLine = Vec::new();
                l.push(piece("    ", TextRole::Subtle));
                l.push(piece(prefix, role));
                l.push((d.text.clone(), role));
                assert(line_view(l@) =~= diff_line(*d));
                let ghost prev = lines@;
                lines.push(l);
                assert(lines_view(lines@) =~= lines_view(prev).push(diff_line(*d)));
                assert(h.diff@.take(i + 1).map_values(|d: HunkDiffLine| diff_line(d)) =~= h.diff@.take(
                    i as int,
                ).map_values(|d: HunkDiffLine| diff_line(d)).push(diff_line(h.diff@[i as int])));
                i += 1;
            }
            proof {
                if h.diff@.len() <= MAX_HUNK_DIFF_LINES {
                    assert(h.diff@.take(count as int) =~= h.diff@);
                }
            }
        }
        assert(lines_view(lines@) =~= lines_view(before) + hunk_lines(
            self.hunk,
            self.rollback_confirming,
            selected,
            expanded,
        ));
    }
}

} // verus!
