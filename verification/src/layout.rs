//! Screen geometry: rectangles, the heights of the bars around the
//! composer, and where helpers, popups and buttons are placed.
use vstd::prelude::*;
use crate::text::push_str;

verus! {

broadcast use vstd::string::group_string_axioms;

/// A rectangle of terminal cells.
#[derive(Debug, Clone, Copy, PartialEq, Eq, Structural)]
pub struct Rect {
    pub x: u16,
    pub y: u16,
    pub width: u16,
    pub height: u16,
}

/// The rectangle `Rect::new` builds: the size is cut so that the right and
/// bottom edges stay within `u16`.
pub open spec fn rect(x: u16, y: u16, width: u16, height: u16) -> Rect {
    Rect {
        x,
        y,
        width: if width > u16::MAX - x {
            (u16::MAX - x) as u16
        } else {
            width
        },
        height: if height > u16::MAX - y {
            (u16::MAX - y) as u16
        } else {
            height
        },
    }
}

impl Rect {
    pub fn new(x: u16, y: u16, width: u16, height: u16) -> (r: Self)
        ensures
            r == rect(x, y, width, height),
    {
        let max_width = u16::MAX - x;
        let max_height = u16::MAX - y;
        Rect {
            x,
            y,
            width: if width > max_width {
                max_width
            } else {
                width
            },
            height: if height > max_height {
                max_height
            } else {
                height
            },
        }
    }

    pub fn right(self) -> (r: u16)
        ensures
            r == self.x.saturating_add(self.width),
    {
        self.x.saturating_add(self.width)
    }

    pub fn bottom(self) -> (r: u16)
        ensures
            r == self.y.saturating_add(self.height),
    {
        self.y.saturating_add(self.height)
    }

    pub fn is_empty(self) -> (r: bool)
        ensures
            r == (self.width == 0 || self.height == 0),
    {
        self.width == 0 || self.height == 0
    }
}

/// Whether the cell at `column`, `row` lies in `area` (right and bottom
/// edges excluded).
pub fn rect_contains(area: Rect, column: u16, row: u16) -> (r: bool)
    ensures
        r == (area.y <= row < area.y.saturating_add(area.height) && area.x <= column
            < area.x.saturating_add(area.width)),
{
    row >= area.y && row < area.y.saturating_add(area.height) && column >= area.x && column
        < area.x.saturating_add(area.width)
}

/// A `width` by `height` rectangle centered in `area` (cut to fit).
pub fn centered_rect(area: Rect, width: u16, height: u16) -> (r: Rect)
    requires
        area.x + area.width.saturating_sub(width) / 2 <= u16::MAX,
        area.y + area.height.saturating_sub(height) / 2 <= u16::MAX,
    ensures
        r == rect(
            (area.x + area.width.saturating_sub(width) / 2) as u16,
            (area.y + area.height.saturating_sub(height) / 2) as u16,
            if width < area.width {
                width
            } else {
                area.width
            },
            if height < area.height {
                height
            } else {
                area.height
            },
        ),
{
    let w = if width < area.width {
        width
    } else {
        area.width
    };
    let h = if height < area.height {
        height
    } else {
        area.height
    };
    Rect::new(
        area.x + area.width.saturating_sub(width) / 2,
        area.y + area.height.saturating_sub(height) / 2,
        w,
        h,
    )
}

/// The width of a confirmation dialog: up to 64 columns with a margin of
/// two on each side, but at least 44 columns (or the whole area when it is
/// narrower).
pub open spec fn dialog_width_spec(area_width: u16) -> u16 {
    let roomy = if area_width.saturating_sub(4) < 64 {
        area_width.saturating_sub(4)
    } else {
        64
    };
    let floor = if area_width < 44 {
        area_width
    } else {
        44
    };
    if roomy > floor {
        roomy
    } else {
        floor
    }
}

pub fn dialog_width(area: Rect) -> (r: u16)
    ensures
        r == dialog_width_spec(area.width),
{
    let s = area.width.saturating_sub(4);
    let roomy = if s < 64 {
        s
    } else {
        64
    };
    let floor = if area.width < 44 {
        area.width
    } else {
        44
    };
    if roomy > floor {
        roomy
    } else {
        floor
    }
}

pub open spec fn min16(a: u16, b: u16) -> u16 {
    if a < b {
        a
    } else {
        b
    }
}

/// The shadow of a dialog: two columns right and one row down, kept inside
/// `bounds`.
pub open spec fn shadow_rect_spec(dialog_area: Rect, bounds: Rect) -> Rect {
    let right = bounds.x.saturating_add(bounds.width);
    let bottom = bounds.y.saturating_add(bounds.height);
    let sx = dialog_area.x.saturating_add(2);
    let sy = dialog_area.y.saturating_add(1);
    Rect {
        x: min16(sx, right),
        y: min16(sy, bottom),
        width: min16(dialog_area.width, right.saturating_sub(sx)),
        height: min16(dialog_area.height, bottom.saturating_sub(sy)),
    }
}

pub fn shadow_rect(dialog_area: Rect, bounds: Rect) -> (r: Rect)
    ensures
        r == shadow_rect_spec(dialog_area, bounds),
{
    let right = bounds.right();
    let bottom = bounds.bottom();
    let sx = dialog_area.x.saturating_add(2);
    let sy = dialog_area.y.saturating_add(1);
    let rw = right.saturating_sub(sx);
    let bh = bottom.saturating_sub(sy);
    Rect {
        x: if sx < right {
            sx
        } else {
            right
        },
        y: if sy < bottom {
            sy
        } else {
            bottom
        },
        width: if dialog_area.width < rw {
            dialog_area.width
        } else {
            rw
        },
        height: if dialog_area.height < bh {
            dialog_area.height
        } else {
            bh
        },
    }
}

/// The shadow never reaches past the right or bottom edge of its bounds.
pub proof fn law_shadow_stays_inside_bounds(dialog_area: Rect, bounds: Rect)
    ensures
        ({
            let s = shadow_rect_spec(dialog_area, bounds);
            &&& s.x + s.width <= bounds.x.saturating_add(bounds.width)
            &&& s.y + s.height <= bounds.y.saturating_add(bounds.height)
        }),
{
}

/// The chrome panel: 80% of the area (at least 40 by 12), centered, cut to
/// the area.
pub open spec fn chrome_dialog_rect_spec(area: Rect) -> Rect {
    let w = (area.width as int * 80) / 100;
    let h = (area.height as int * 80) / 100;
    let width = (if w > 40 {
        w
    } else {
        40
    }) as u16;
    let height = (if h > 12 {
        h
    } else {
        12
    }) as u16;
    Rect {
        x: (area.x + area.width.saturating_sub(min16(width, area.width)) / 2) as u16,
        y: (area.y + area.height.saturating_sub(min16(height, area.height)) / 2) as u16,
        width: min16(width, area.width),
        height: min16(height, area.height),
    }
}

pub fn chrome_dialog_rect(area: Rect) -> (r: Rect)
    requires
        area.x + area.width / 2 <= u16::MAX,
        area.y + area.height / 2 <= u16::MAX,
    ensures
        r == chrome_dialog_rect_spec(area),
{
    let w = (area.width as u32 * 80) / 100;
    let h = (area.height as u32 * 80) / 100;
    let width: u16 = if w > 40 {
        w as u16
    } else {
        40
    };
    let height: u16 = if h > 12 {
        h as u16
    } else {
        12
    };
    let cw = if width < area.width {
        width
    } else {
        area.width
    };
    let ch = if height < area.height {
        height
    } else {
        area.height
    };
    Rect {
        x: area.x + area.width.saturating_sub(cw) / 2,
        y: area.y + area.height.saturating_sub(ch) / 2,
        width: cw,
        height: ch,
    }
}

/// The context-window popup: top right of the area, 24 to 54 columns wide
/// and 6 to 14 rows high; none in an area smaller than that.
pub open spec fn context_popup_area(area: Rect) -> Option<Rect> {
    if area.width < 24 || area.height < 6 {
        None
    } else {
        let width = if area.width > 54 {
            54
        } else {
            area.width
        };
        let height = if area.height > 14 {
            14
        } else {
            area.height
        };
        Some(rect((area.x + (area.width - width)) as u16, area.y, width, height))
    }
}

pub fn context_window_popup_area(area: Rect) -> (r: Option<Rect>)
    requires
        area.x + area.width <= u16::MAX,
    ensures
        r == context_popup_area(area),
{
    if area.width < 24 || area.height < 6 {
        return None;
    }
    let width: u16 = if area.width > 54 {
        54
    } else {
        area.width
    };
    let height: u16 = if area.height > 14 {
        14
    } else {
        area.height
    };
    Some(Rect::new(area.x + area.width.saturating_sub(width), area.y, width, height))
}

/// The width of the `✓ Copied to clipboard` helper.
pub fn copied_helper_width() -> (r: u16)
    ensures
        r == 21,
{
    21
}

/// The `Copied to clipboard` helper sits on the row above the composer, two
/// columns in from its right edge; there is none on the top row or for an
/// empty composer.
pub open spec fn copied_area(composer: Rect) -> Option<Rect> {
    if composer.y == 0 || composer.width == 0 {
        None
    } else {
        let width = min16(21, composer.width);
        Some(
            rect(
                (composer.x + composer.width.saturating_sub((width + 2) as u16)) as u16,
                (composer.y - 1) as u16,
                width,
                1,
            ),
        )
    }
}

pub fn copied_helper_area(composer_area: Rect) -> (r: Option<Rect>)
    requires
        composer_area.x + composer_area.width <= u16::MAX,
    ensures
        r == copied_area(composer_area),
{
    if composer_area.y == 0 || composer_area.width == 0 {
        return None;
    }
    let cw = copied_helper_width();
    let width = if cw < composer_area.width {
        cw
    } else {
        composer_area.width
    };
    Some(
        Rect::new(
            composer_area.x + composer_area.width.saturating_sub(width + 2),
            composer_area.y - 1,
            width,
            1,
        ),
    )
}

pub fn voice_helper_width() -> (r: u16)
    ensures
        r == 20,
{
    20
}

/// The voice helper sits inside the composer's top row, two columns in from
/// its right edge.
pub open spec fn voice_area(composer: Rect) -> Option<Rect> {
    if composer.width == 0 {
        None
    } else {
        let width = min16(20, composer.width);
        Some(
            rect(
                (composer.x + composer.width.saturating_sub((width + 2) as u16)) as u16,
                composer.y,
                width,
                1,
            ),
        )
    }
}

pub fn voice_helper_area(composer_area: Rect) -> (r: Option<Rect>)
    requires
        composer_area.x + composer_area.width <= u16::MAX,
    ensures
        r == voice_area(composer_area),
{
    if composer_area.width == 0 {
        return None;
    }
    let vw = voice_helper_width();
    let width = if vw < composer_area.width {
        vw
    } else {
        composer_area.width
    };
    Some(
        Rect::new(
            composer_area.x + composer_area.width.saturating_sub(width + 2),
            composer_area.y,
            width,
            1,
        ),
    )
}

pub open spec fn clamp_int(v: int, lo: int, hi: int) -> int {
    if v < lo {
        lo
    } else if v > hi {
        hi
    } else {
        v
    }
}

/// The event log takes its entries plus two rows, 3 to 8 rows, when shown.
pub fn event_log_height(show_event_log: bool, event_count: usize) -> (r: u16)
    requires
        (event_count as u16) < u16::MAX - 1,
    ensures
        r == (if show_event_log {
            clamp_int((event_count as u16) + 2, 3, 8)
        } else {
            0
        }),
{
    if show_event_log {
        let c = (event_count as u16) + 2;
        if c < 3 {
            3
        } else if c > 8 {
            8
        } else {
            c
        }
    } else {
        0
    }
}

/// The scroll offset that shows the last `height` lines.
pub fn transcript_scroll_offset(line_count: usize, height: u16) -> (r: u16)
    ensures
        r == (line_count.saturating_sub(height as usize)) as u16,
{
    line_count.saturating_sub(height as usize) as u16
}

/// The image bar takes a row per image plus one, 2 to 4 rows, when images
/// are attached.
pub fn image_attachment_height(count: usize) -> (r: u16)
    requires
        (count as u16) < u16::MAX,
    ensures
        r == (if count == 0 {
            0
        } else {
            clamp_int((count as u16) + 1, 2, 4)
        }),
{
    if count == 0 {
        0
    } else {
        let c = (count as u16) + 1;
        if c < 2 {
            2
        } else if c > 4 {
            4
        } else {
            c
        }
    }
}

/// The `[x]` button that detaches one attached image.
#[derive(Debug, Clone, Copy, PartialEq, Eq, Structural)]
pub struct ImageAttachmentRemoveButton {
    pub index: usize,
    pub area: Rect,
}

/// How many remove buttons the image bar shows: one per visible image (the
/// last three), as the area's rows allow.
pub open spec fn remove_button_count(area: Rect, count: usize) -> int {
    if count == 0 || area.width < 3 || area.height < 2 {
        0
    } else {
        let c = if count < 3 {
            count as int
        } else {
            3
        };
        if c < area.height - 1 {
            c
        } else {
            area.height - 1
        }
    }
}

/// The `row`-th remove button: image `count - 3 + row` (from the first
/// when fewer), three columns at the right edge, on the row below the title.
pub open spec fn remove_button(area: Rect, count: usize, row: int) -> ImageAttachmentRemoveButton {
    ImageAttachmentRemoveButton {
        index: (count.saturating_sub(3) + row) as usize,
        area: rect(
            (area.x + area.width.saturating_sub(3)) as u16,
            (area.y + 1 + row) as u16,
            3,
            1,
        ),
    }
}

pub fn image_attachment_remove_buttons(area: Rect, count: usize) -> (r: Vec<
    ImageAttachmentRemoveButton,
>)
    requires
        area.x + area.width <= u16::MAX,
        area.y + area.height <= u16::MAX,
    ensures
        r@.len() == remove_button_count(area, count),
        forall|i: int| 0 <= i < r@.len() ==> #[trigger] r@[i] == remove_button(area, count, i),
{
    if count == 0 || area.width < 3 || area.height < 2 {
        return Vec::new();
    }
    let first_visible_index = count.saturating_sub(3);
    let c = if count < 3 {
        count
    } else {
        3
    };
    let rows = (area.height - 1) as usize;
    let visible_count = if c < rows {
        c
    } else {
        rows
    };
    let x = area.x + area.width.saturating_sub(3);
    let mut r: Vec<ImageAttachmentRemoveButton> = Vec::new();
    let mut row: usize = 0;
    while row < visible_count
        invariant
            0 <= row <= visible_count,
            visible_count == remove_button_count(area, count),
            visible_count <= 3,
            visible_count <= area.height - 1,
            first_visible_index == count.saturating_sub(3),
            x == area.x + area.width.saturating_sub(3),
            area.y + area.height <= u16::MAX,
            r@.len() == row,
            forall|i: int| 0 <= i < r@.len() ==> #[trigger] r@[i] == remove_button(area, count, i),
        decreases visible_count - row,
    {
        r.push(
            ImageAttachmentRemoveButton {
                index: first_visible_index + row,
                area: Rect::new(x, area.y + 1 + row as u16, 3, 1),
            },
        );
        row += 1;
    }
    r
}

/// The queued-prompt bar shows at most three prompts, a title row, and a
/// row noting more when there are more than three.
pub fn queued_prompt_height(count: usize) -> (r: u16)
    ensures
        r == (if count == 0 {
            0
        } else if count <= 3 {
            count + 1
        } else {
            5
        }),
{
    if count == 0 {
        0
    } else if count <= 3 {
        (count + 1) as u16
    } else {
        5
    }
}

/// A button beside a queued prompt.
#[derive(Debug, Clone, Copy, PartialEq, Eq, Structural)]
pub enum QueuedPromptAction {
    Edit,
    Steer,
    Delete,
}

pub fn queued_prompt_action_label(action: QueuedPromptAction) -> (r: &'static str)
    ensures
        r@ == (match action {
            QueuedPromptAction::Edit => "edit"@,
            QueuedPromptAction::Steer => "steer"@,
            QueuedPromptAction::Delete => "del"@,
        }),
{
    match action {
        QueuedPromptAction::Edit => "edit",
        QueuedPromptAction::Steer => "steer",
        QueuedPromptAction::Delete => "del",
    }
}

#[derive(Debug, Clone, Copy, PartialEq, Eq, Structural)]
pub struct QueuedPromptButton {
    pub index: usize,
    pub action: QueuedPromptAction,
    pub area: Rect,
}

/// The row of the `index`-th queued prompt.
pub open spec fn prompt_row(area: Rect, index: int) -> u16 {
    area.y.saturating_add((1 + index) as u16)
}

/// How many queued prompts get buttons: the visible ones (at most three)
/// whose row lies inside the area.
pub open spec fn prompt_button_rows(area: Rect, count: usize, upto: int) -> int
    decreases upto,
{
    if upto <= 0 {
        0
    } else {
        let k = prompt_button_rows(area, count, upto - 1);
        if k == upto - 1 && prompt_row(area, upto - 1) < area.y.saturating_add(area.height) {
            upto
        } else {
            k
        }
    }
}

/// The buttons of one queued prompt: `edit`, `steer` and `del`, right
/// aligned with a column between them.
pub open spec fn prompt_button(area: Rect, index: int, k: int) -> QueuedPromptButton {
    let row = prompt_row(area, index);
    let delete_x = area.x.saturating_add(area.width.saturating_sub(4));
    let steer_x = delete_x.saturating_sub(7);
    let edit_x = steer_x.saturating_sub(6);
    if k == 0 {
        QueuedPromptButton { index: index as usize, action: QueuedPromptAction::Edit, area: rect(edit_x, row, 5, 1) }
    } else if k == 1 {
        QueuedPromptButton { index: index as usize, action: QueuedPromptAction::Steer, area: rect(steer_x, row, 6, 1) }
    } else {
        QueuedPromptButton { index: index as usize, action: QueuedPromptAction::Delete, area: rect(delete_x, row, 4, 1) }
    }
}

pub open spec fn visible_prompts(count: usize) -> int {
    if count < 3 {
        count as int
    } else {
        3
    }
}

pub fn queued_prompt_buttons(area: Rect, count: usize) -> (r: Vec<QueuedPromptButton>)
    ensures
        r@.len() == 3 * prompt_button_rows(area, count, visible_prompts(count)),
        forall|i: int| 0 <= i < r@.len() ==> #[trigger] r@[i] == prompt_button(area, i / 3, i % 3),
{
    let mut buttons: Vec<QueuedPromptButton> = Vec::new();
    let visible: usize = if count < 3 {
        count
    } else {
        3
    };
    let mut index: usize = 0;
    while index < visible
        invariant
            0 <= index <= visible <= 3,
            visible == visible_prompts(count),
            prompt_button_rows(area, count, index as int) == index,
            buttons@.len() == 3 * index,
            forall|i: int|
                0 <= i < buttons@.len() ==> #[trigger] buttons@[i] == prompt_button(area, i / 3, i % 3),
        decreases visible - index,
    {
        let row = area.y.saturating_add(1 + index as u16);
        if row >= area.y.saturating_add(area.height) {
            proof {
                lemma_prompt_rows_stop(area, count, index as int, visible as int);
            }
            return buttons;
        }
        let delete_width: u16 = 4;
        let steer_width: u16 = 6;
        let edit_width: u16 = 5;
        let delete_x = area.x.saturating_add(area.width.saturating_sub(delete_width));
        let steer_x = delete_x.saturating_sub(steer_width + 1);
        let edit_x = steer_x.saturating_sub(edit_width + 1);
        buttons.push(
            QueuedPromptButton {
                index,
                action: QueuedPromptAction::Edit,
                area: Rect::new(edit_x, row, edit_width, 1),
            },
        );
        buttons.push(
            QueuedPromptButton {
                index,
                action: QueuedPromptAction::Steer,
                area: Rect::new(steer_x, row, steer_width, 1),
            },
        );
        buttons.push(
            QueuedPromptButton {
                index,
                action: QueuedPromptAction::Delete,
                area: Rect::new(delete_x, row, delete_width, 1),
            },
        );
        proof {
            let n = 3 * index as int;
            assert(n / 3 == index && n % 3 == 0);
            assert((n + 1) / 3 == index && (n + 1) % 3 == 1);
            assert((n + 2) / 3 == index && (n + 2) % 3 == 2);
        }
        index += 1;
    }
    buttons
}

proof fn lemma_prompt_rows_stop(area: Rect, count: usize, index: int, upto: int)
    requires
        0 <= index < upto,
        prompt_button_rows(area, count, index) == index,
        prompt_row(area, index) >= area.y.saturating_add(area.height),
    ensures
        prompt_button_rows(area, count, upto) == index,
    decreases upto - index,
{
    if upto > index + 1 {
        lemma_prompt_rows_stop(area, count, index, upto - 1);
    }
}

/// The height of a menu listing `len` matches, at most `max` of them, plus
/// a title row; nothing for no matches.
pub open spec fn menu_height(matches: Option<nat>, max: nat) -> u16 {
    match matches {
        None => 0,
        Some(n) => if n == 0 {
            0
        } else if n < max {
            (1 + n) as u16
        } else {
            (1 + max) as u16
        },
    }
}

pub open spec fn match_count<T>(matches: Option<&[T]>) -> Option<nat> {
    match matches {
        Some(m) => Some(m@.len()),
        None => None,
    }
}

/// How many commands the slash-command menu lists.
pub const MAX_VISIBLE_SLASH_COMMANDS: usize = 18;

/// The height of the slash-command menu for `matches` commands: nothing
/// without a match, a header and its row for a single match, and the full
/// menu, a header and `MAX_VISIBLE_SLASH_COMMANDS` rows, once several
/// commands match, so the menu keeps its size while the filter narrows.
pub open spec fn slash_menu_height(matches: Option<nat>) -> u16 {
    match matches {
        None => 0,
        Some(n) => if n == 0 {
            0
        } else if n == 1 {
            2
        } else {
            (1 + MAX_VISIBLE_SLASH_COMMANDS) as u16
        },
    }
}

/// The rows that the slash-command menu takes for its matches.
pub fn slash_command_menu_height<T>(matches: Option<&[T]>) -> (r: u16)
    ensures
        r == slash_menu_height(match_count(matches)),
{
    match matches {
        None => 0,
        Some(m) => if m.len() == 0 {
            0
        } else if m.len() == 1 {
            2
        } else {
            (1 + MAX_VISIBLE_SLASH_COMMANDS) as u16
        },
    }
}

/// The inline completion menu lists up to 12 items.
pub fn inline_completion_menu_height<T>(matches: Option<&[T]>) -> (r: u16)
    ensures
        r == menu_height(match_count(matches), 12),
{
    match matches {
        None => 0,
        Some(m) => if m.len() == 0 {
            0
        } else if m.len() < 12 {
            (1 + m.len()) as u16
        } else {
            13
        },
    }
}

/// The inline menu gives way to an open mention popup.
pub fn inline_completion_height_when_mentions_hidden<T>(matches: Option<&[T]>, mention_open: bool) -> (r:
    u16)
    ensures
        r == (if mention_open {
            0
        } else {
            menu_height(match_count(matches), 12)
        }),
{
    if mention_open {
        0
    } else {
        inline_completion_menu_height(matches)
    }
}

/// One row previews the slash command when there are matches.
pub fn slash_command_preview_height<T>(matches: Option<&[T]>) -> (r: u16)
    ensures
        r == (match matches {
            Some(m) => if m@.len() > 0 {
                1u16
            } else {
                0u16
            },
            None => 0u16,
        }),
{
    match matches {
        Some(m) => if m.len() > 0 {
            1
        } else {
            0
        },
        None => 0,
    }
}

/// The spaces between a left and a right label in a popup row of `width`
/// columns: what is left over, and at least one.
pub open spec fn popup_pad(left: Seq<char>, right: Seq<char>, width: u16) -> nat {
    let rest = width - (left.len() + right.len());
    if rest > 1 {
        rest as nat
    } else {
        1
    }
}

pub fn right_pad_for_popup(left: &str, right: &str, width: u16) -> (r: String)
    requires
        left@.len() + right@.len() <= usize::MAX,
    ensures
        r@ == Seq::new(popup_pad(left@, right@, width), |i: int| ' '),
{
    let lw = crate::text::chars_of(left).len();
    let rw = crate::text::chars_of(right).len();
    let w = width as usize;
    let rest = w.saturating_sub(lw + rw);
    let n = if rest > 1 {
        rest
    } else {
        1
    };
    let mut out = String::new();
    let mut i: usize = 0;
    while i < n
        invariant
            0 <= i <= n,
            out@ == Seq::new(i as nat, |k: int| ' '),
        decreases n - i,
    {
        out.push(' ');
        assert(out@ =~= Seq::new((i + 1) as nat, |k: int| ' '));
        i += 1;
    }
    out
}

} // verus!
