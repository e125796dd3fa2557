//! The working indicator of the top status bar: spinner styles and their
//! frames, the animation clock, the elapsed-time text, the sheen that sweeps
//! over the status word, and the short-lived "copied" helper.
//!
//! Points in time are nanoseconds on the monotonic clock that the caller
//! reads; spans of time are nanoseconds too.
use vstd::prelude::*;
use crate::text::{chars_of, decimal, push_decimal, push_str, str_eq};

verus! {

broadcast use vstd::string::group_string_axioms;

/// Frames per second of the top status animation.
pub const TOP_STATUS_ANIMATION_FPS: u64 = 6;

/// Length of one sheen sweep, in animation frames.
pub const WORKING_SHEEN_LOOP_FRAMES: u64 = TOP_STATUS_ANIMATION_FPS;

/// Frames of each sweep during which the sheen is drawn.
pub const WORKING_SHEEN_ACTIVE_FRAMES: u64 = (TOP_STATUS_ANIMATION_FPS * 2 + 2) / 3;

/// How long the "copied" helper stays up, in nanoseconds.
pub const COPIED_HELPER_DURATION: u64 = 2_000_000_000;

/// The style of the spinner next to the working status.
#[derive(Debug, Clone, Copy, PartialEq, Eq, Structural)]
pub enum WorkingSpinner {
    Dots,
    Line,
    Arc,
    Pulse,
}

pub open spec fn spinner_id(s: WorkingSpinner) -> Seq<char> {
    match s {
        WorkingSpinner::Dots => "dots"@,
        WorkingSpinner::Line => "line"@,
        WorkingSpinner::Arc => "arc"@,
        WorkingSpinner::Pulse => "pulse"@,
    }
}

pub open spec fn spinner_label(s: WorkingSpinner) -> Seq<char> {
    match s {
        WorkingSpinner::Dots => "Dots"@,
        WorkingSpinner::Line => "Line"@,
        WorkingSpinner::Arc => "Arc"@,
        WorkingSpinner::Pulse => "Pulse"@,
    }
}

/// The frames that a spinner cycles through, in order.
pub open spec fn spinner_frames(s: WorkingSpinner) -> Seq<Seq<char>> {
    match s {
        WorkingSpinner::Dots => seq![
            seq!['.'],
            seq!['.', '.'],
            seq!['.', '.', '.'],
            seq![' ', '.', '.'],
            seq![' ', ' ', '.'],
            seq![' ', ' ', ' '],
        ],
        WorkingSpinner::Line => seq![seq!['-'], seq!['\\'], seq!['|'], seq!['/']],
        WorkingSpinner::Arc => seq![
            seq!['('],
            seq!['(', '.'],
            seq!['(', '.', ')'],
            seq!['.', ')'],
            seq![')'],
            seq![' '],
        ],
        WorkingSpinner::Pulse => seq![seq!['.'], seq!['o'], seq!['O'], seq!['o']],
    }
}

/// The spinner that a configured id names, if any.
pub open spec fn spinner_from_id(id: Seq<char>) -> Option<WorkingSpinner> {
    if id == "dots"@ {
        Some(WorkingSpinner::Dots)
    } else if id == "line"@ {
        Some(WorkingSpinner::Line)
    } else if id == "arc"@ {
        Some(WorkingSpinner::Arc)
    } else if id == "pulse"@ {
        Some(WorkingSpinner::Pulse)
    } else {
        None
    }
}

/// The widest of `frames`, in characters.
pub open spec fn max_frame_len(frames: Seq<Seq<char>>) -> nat
    decreases frames.len(),
{
    if frames.len() == 0 {
        0
    } else {
        let rest = max_frame_len(frames.drop_last());
        if frames.last().len() > rest {
            frames.last().len()
        } else {
            rest
        }
    }
}

proof fn lemma_max_frame_len(frames: Seq<Seq<char>>, i: int)
    requires
        0 <= i < frames.len(),
    ensures
        frames[i].len() <= max_frame_len(frames),
    decreases frames.len(),
{
    if i < frames.len() - 1 {
        lemma_max_frame_len(frames.drop_last(), i);
    }
}

/// The width that every frame of `s` is padded to.
pub open spec fn spinner_width(s: WorkingSpinner) -> nat {
    max_frame_len(spinner_frames(s))
}

/// The frame shown at animation frame `frame`.
pub open spec fn spinner_frame_spec(s: WorkingSpinner, frame: u64) -> Seq<char> {
    spinner_frames(s)[(frame as usize) as int % spinner_frames(s).len() as int]
}

/// `s` followed by spaces up to `width` characters (`{:<width$}`).
pub open spec fn pad_right(s: Seq<char>, width: nat) -> Seq<char> {
    if s.len() < width {
        s + Seq::new((width - s.len()) as nat, |i: int| ' ')
    } else {
        s
    }
}

proof fn lemma_frame_literals()
    ensures
        "."@ == seq!['.'],
        ".."@ == seq!['.', '.'],
        "..."@ == seq!['.', '.', '.'],
        " .."@ == seq![' ', '.', '.'],
        "  ."@ == seq![' ', ' ', '.'],
        "   "@ == seq![' ', ' ', ' '],
        "-"@ == seq!['-'],
        "\\"@ == seq!['\\'],
        "|"@ == seq!['|'],
        "/"@ == seq!['/'],
        "("@ == seq!['('],
        "(."@ == seq!['(', '.'],
        "(.)"@ == seq!['(', '.', ')'],
        ".)"@ == seq!['.', ')'],
        ")"@ == seq![')'],
        " "@ == seq![' '],
        "o"@ == seq!['o'],
        "O"@ == seq!['O'],
{
    reveal_strlit(".");
    reveal_strlit("..");
    reveal_strlit("...");
    reveal_strlit(" ..");
    reveal_strlit("  .");
    reveal_strlit("   ");
    reveal_strlit("-");
    reveal_strlit("\\");
    reveal_strlit("|");
    reveal_strlit("/");
    reveal_strlit("(");
    reveal_strlit("(.");
    reveal_strlit("(.)");
    reveal_strlit(".)");
    reveal_strlit(")");
    reveal_strlit(" ");
    reveal_strlit("o");
    reveal_strlit("O");
}

impl WorkingSpinner {
    /// Every spinner style, in menu order.
    pub fn all() -> (r: &'static [WorkingSpinner])
        ensures
            r@ == seq![
                WorkingSpinner::Dots,
                WorkingSpinner::Line,
                WorkingSpinner::Arc,
                WorkingSpinner::Pulse,
            ],
    {
        let r: &'static [WorkingSpinner] = &[
            WorkingSpinner::Dots,
            WorkingSpinner::Line,
            WorkingSpinner::Arc,
            WorkingSpinner::Pulse,
        ];
        assert(r@ =~= seq![
            WorkingSpinner::Dots,
            WorkingSpinner::Line,
            WorkingSpinner::Arc,
            WorkingSpinner::Pulse,
        ]);
        r
    }

    /// The id under which the style is configured.
    pub fn id(self) -> (r: &'static str)
        ensures
            r@ == spinner_id(self),
    {
        match self {
            WorkingSpinner::Dots => "dots",
            WorkingSpinner::Line => "line",
            WorkingSpinner::Arc => "arc",
            WorkingSpinner::Pulse => "pulse",
        }
    }

    /// The name shown in the spinner menu.
    pub fn label(self) -> (r: &'static str)
        ensures
            r@ == spinner_label(self),
    {
        match self {
            WorkingSpinner::Dots => "Dots",
            WorkingSpinner::Line => "Line",
            WorkingSpinner::Arc => "Arc",
            WorkingSpinner::Pulse => "Pulse",
        }
    }

    /// The frames of the style, in order.
    pub fn frames(self) -> (r: &'static [&'static str])
        ensures
            r@.len() == spinner_frames(self).len(),
            forall|i: int| 0 <= i < r@.len() ==> (#[trigger] r@[i])@ == spinner_frames(self)[i],
    {
        proof {
            lemma_frame_literals();
        }
        match self {
            WorkingSpinner::Dots => {
                let r: &'static [&'static str] = &[".", "..", "...", " ..", "  .", "   "];
                r
            },
            WorkingSpinner::Line => {
                let r: &'static [&'static str] = &["-", "\\", "|", "/"];
                r
            },
            WorkingSpinner::Arc => {
                let r: &'static [&'static str] = &["(", "(.", "(.)", ".)", ")", " "];
                r
            },
            WorkingSpinner::Pulse => {
                let r: &'static [&'static str] = &[".", "o", "O", "o"];
                r
            },
        }
    }

    /// The style that the configuration names; dots when it names none.
    pub fn from_config(config: Option<&str>) -> (r: Self)
        ensures
            r == match config {
                Some(value) => match spinner_from_id(value@) {
                    Some(s) => s,
                    None => WorkingSpinner::Dots,
                },
                None => WorkingSpinner::Dots,
            },
    {
        match config {
            Some(value) => {
                if str_eq(value, "dots") {
                    WorkingSpinner::Dots
                } else if str_eq(value, "line") {
                    WorkingSpinner::Line
                } else if str_eq(value, "arc") {
                    WorkingSpinner::Arc
                } else if str_eq(value, "pulse") {
                    WorkingSpinner::Pulse
                } else {
                    WorkingSpinner::Dots
                }
            },
            None => WorkingSpinner::Dots,
        }
    }
}

/// The frame of `spinner` shown at animation frame `frame`; the frames
/// repeat.
pub fn spinner_frame(spinner: WorkingSpinner, frame: u64) -> (r: &'static str)
    ensures
        r@ == spinner_frame_spec(spinner, frame),
{
    let frames = spinner.frames();
    let i = (frame as usize) % frames.len();
    frames[i]
}

/// The widest frame of `spinner`, in characters.
pub fn spinner_frame_width(spinner: WorkingSpinner) -> (w: usize)
    ensures
        w == spinner_width(spinner),
{
    let frames = spinner.frames();
    let ghost fs = spinner_frames(spinner);
    let mut w: usize = 0;
    let mut i: usize = 0;
    while i < frames.len()
        invariant
            0 <= i <= frames@.len(),
            frames@.len() == fs.len(),
            forall|k: int| 0 <= k < frames@.len() ==> (#[trigger] frames@[k])@ == fs[k],
            w == max_frame_len(fs.take(i as int)),
        decreases frames@.len() - i,
    {
        let n = chars_of(frames[i]).len();
        assert(fs.take(i + 1).drop_last() =~= fs.take(i as int));
        if n > w {
            w = n;
        }
        i += 1;
    }
    assert(fs.take(i as int) =~= fs);
    w
}

/// The frame of `spinner` at `frame`, padded with spaces to the width of its
/// widest frame so that the status text after it does not move.
pub fn padded_spinner_frame(spinner: WorkingSpinner, frame: u64) -> (r: String)
    ensures
        r@ == pad_right(spinner_frame_spec(spinner, frame), spinner_width(spinner)),
        r@.len() == spinner_width(spinner),
{
    let f = spinner_frame(spinner, frame);
    let width = spinner_frame_width(spinner);
    proof {
        let fs = spinner_frames(spinner);
        lemma_max_frame_len(fs, (frame as usize) as int % fs.len() as int);
    }
    let n = chars_of(f).len();
    let mut r = String::new();
    push_str(&mut r, f);
    let mut k = n;
    while k < width
        invariant
            n <= k <= width,
            n == f@.len(),
            r@ == f@ + Seq::new((k - n) as nat, |i: int| ' '),
        decreases width - k,
    {
        r.push(' ');
        assert(f@ + Seq::new((k + 1 - n) as nat, |i: int| ' ') =~= (f@ + Seq::new(
            (k - n) as nat,
            |i: int| ' ',
        )).push(' '));
        k += 1;
    }
    proof {
        if n >= width {
            assert(r@ =~= f@);
        }
    }
    r
}

/// Padding every frame to the spinner's width keeps the status text in
/// place: every padded frame of a spinner has the same length.
pub proof fn law_padded_frames_share_width(spinner: WorkingSpinner, a: u64, b: u64)
    ensures
        pad_right(spinner_frame_spec(spinner, a), spinner_width(spinner)).len() == pad_right(
            spinner_frame_spec(spinner, b),
            spinner_width(spinner),
        ).len(),
        pad_right(spinner_frame_spec(spinner, a), spinner_width(spinner)).len() == spinner_width(
            spinner,
        ),
{
    let fs = spinner_frames(spinner);
    lemma_max_frame_len(fs, (a as usize) as int % fs.len() as int);
    lemma_max_frame_len(fs, (b as usize) as int % fs.len() as int);
}

/// The time between two animation frames, in nanoseconds.
pub open spec fn animation_interval() -> u64 {
    (1_000_000_000u64 / TOP_STATUS_ANIMATION_FPS) as u64
}

/// The time between two frames of the top status animation, in nanoseconds.
pub fn top_status_animation_interval() -> (r: u64)
    ensures
        r == animation_interval(),
{
    1_000_000_000 / TOP_STATUS_ANIMATION_FPS
}

/// How long to wait for input before the next animation frame is due: the
/// time left until `next_tick`, or nothing once it has passed.
pub fn top_status_animation_poll_timeout(next_tick: u64, now: u64) -> (r: u64)
    ensures
        r == (if next_tick > now {
            next_tick - now
        } else {
            0
        }),
{
    next_tick.saturating_sub(now)
}

/// The animation frame and next tick after a check at `now`.
pub open spec fn advance_spec(frame: u64, next_tick: u64, now: u64) -> (u64, u64) {
    if now < next_tick {
        (frame, next_tick)
    } else {
        (frame.wrapping_add(1), (now + animation_interval()) as u64)
    }
}

/// Moves the animation on by one frame once `next_tick` has come, and sets
/// the next tick one interval after `now`, however late the check came.
pub fn advance_top_status_animation(frame: &mut u64, next_tick: &mut u64, now: u64)
    requires
        now + animation_interval() <= u64::MAX,
    ensures
        (*final(frame), *final(next_tick)) == advance_spec(*old(frame), *old(next_tick), now),
{
    if now < *next_tick {
        return ;
    }
    *frame = frame.wrapping_add(1);
    *next_tick = now + top_status_animation_interval();
}

/// At most one frame per tick: a second check at the same instant leaves the
/// animation where the first one put it.
pub proof fn law_at_most_one_frame_per_tick(frame: u64, next_tick: u64, now: u64)
    requires
        now + animation_interval() <= u64::MAX,
    ensures
        ({
            let (f1, t1) = advance_spec(frame, next_tick, now);
            advance_spec(f1, t1, now) == (f1, t1)
        }),
        advance_spec(frame, next_tick, now).0 == frame || advance_spec(frame, next_tick, now).0
            == frame.wrapping_add(1),
{
}

/// `format!("{hours}h {minutes}m {seconds}s")` and its shorter forms, as
/// the working status shows elapsed time.
pub open spec fn elapsed_text(total_seconds: nat) -> Seq<char> {
    let hours = total_seconds / 3600;
    let minutes = (total_seconds % 3600) / 60;
    let seconds = total_seconds % 60;
    if hours > 0 {
        decimal(hours) + "h "@ + decimal(minutes) + "m "@ + decimal(seconds) + "s"@
    } else if minutes > 0 {
        decimal(minutes) + "m "@ + decimal(seconds) + "s"@
    } else {
        decimal(seconds) + "s"@
    }
}

/// The elapsed time of a turn, given in whole seconds, as the status bar
/// writes it: `9s`, `2m 55s`, `1h 2m 5s`.
pub fn format_working_elapsed(total_seconds: u64) -> (r: String)
    ensures
        r@ == elapsed_text(total_seconds as nat),
{
    let hours = total_seconds / 3_600;
    let minutes = (total_seconds % 3_600) / 60;
    let seconds = total_seconds % 60;
    let mut r = String::new();
    if hours > 0 {
        push_decimal(&mut r, hours);
        push_str(&mut r, "h ");
        push_decimal(&mut r, minutes);
        push_str(&mut r, "m ");
    } else if minutes > 0 {
        push_decimal(&mut r, minutes);
        push_str(&mut r, "m ");
    }
    push_decimal(&mut r, seconds);
    push_str(&mut r, "s");
    proof {
        let h = (total_seconds as nat) / 3600;
        let m = ((total_seconds as nat) % 3600) / 60;
        let sec = (total_seconds as nat) % 60;
        if hours > 0 {
            assert(r@ =~= decimal(h) + "h "@ + decimal(m) + "m "@ + decimal(sec) + "s"@);
        } else if minutes > 0 {
            assert(r@ =~= decimal(m) + "m "@ + decimal(sec) + "s"@);
        } else {
            assert(r@ =~= decimal(sec) + "s"@);
        }
    }
    r
}

pub open spec fn status_label(compaction_active: bool) -> Seq<char> {
    if compaction_active {
        "Compacting context"@
    } else {
        "Working"@
    }
}

/// The word in the working status: the server may be compacting the
/// context instead of working on the turn.
pub fn working_status_label(compaction_active: bool) -> (r: &'static str)
    ensures
        r@ == status_label(compaction_active),
{
    if compaction_active {
        "Compacting context"
    } else {
        "Working"
    }
}

/// Where the sheen sits in a status of `len` characters at animation frame
/// `frame`: it sweeps from the first character towards the last during the
/// active part of each loop and is hidden for the rest.
pub open spec fn sheen_index(len: nat, frame: u64) -> Option<nat> {
    let loop_frame = frame % WORKING_SHEEN_LOOP_FRAMES;
    if len == 0 || loop_frame >= WORKING_SHEEN_ACTIVE_FRAMES {
        None
    } else {
        let at = ((loop_frame * len) as nat) / (WORKING_SHEEN_ACTIVE_FRAMES as nat);
        Some(
            if at > len - 1 {
                (len - 1) as nat
            } else {
                at as nat
            },
        )
    }
}

/// The character of `status` that the sheen lights at `frame`, if any.
pub fn working_sheen_index(status: &str, frame: u64) -> (r: Option<usize>)
    ensures
        r == (match sheen_index(status@.len(), frame) {
            Some(i) => Some(i as usize),
            None => None::<usize>,
        }),
        r matches Some(i) ==> i < status@.len(),
{
    let len = chars_of(status).len();
    if len == 0 {
        return None;
    }
    let loop_frame = frame % WORKING_SHEEN_LOOP_FRAMES;
    if loop_frame >= WORKING_SHEEN_ACTIVE_FRAMES {
        return None;
    }
    assert(loop_frame as u128 * len as u128 <= 6 * 0xffff_ffff_ffff_ffffu128) by (nonlinear_arith)
        requires
            loop_frame < 6,
            len <= 0xffff_ffff_ffff_ffffu64,
    ;
    let at = (loop_frame as u128 * len as u128) / (WORKING_SHEEN_ACTIVE_FRAMES as u128);
    let last = (len - 1) as u128;
    if at > last {
        Some(len - 1)
    } else {
        Some(at as usize)
    }
}

/// The "copied to clipboard" helper, shown from `shown_at` on.
#[derive(Debug, Clone, Copy, PartialEq, Eq, Structural)]
pub struct CopiedHelper {
    pub shown_at: u64,
}

impl CopiedHelper {
    /// Whether the helper is still up at `now`: less than its duration has
    /// passed since it was shown (no time has passed if `now` is earlier).
    pub fn visible(self, now: u64) -> (r: bool)
        ensures
            r == ((if now > self.shown_at {
                now - self.shown_at
            } else {
                0
            }) < COPIED_HELPER_DURATION),
    {
        now.saturating_sub(self.shown_at) < COPIED_HELPER_DURATION
    }
}

} // verus!
