//! The colour theme: the palette for dark and light terminals, with a
//! true-colour upgrade for the user's message background, and the colour
//! of each policy mode.
use vstd::prelude::*;
use crate::policy::PolicyMode;

verus! {

/// A terminal colour: the terminal's own default, a named colour, an entry
/// of the 256-colour palette, or a 24-bit colour.
#[derive(Debug, Clone, Copy, PartialEq, Eq, Structural)]
pub enum ThemeColor {
    Reset,
    Black,
    White,
    Indexed(u8),
    Rgb(u8, u8, u8),
}

/// How many colours the terminal shows.
#[derive(Debug, Clone, Copy, PartialEq, Eq, Structural)]
pub enum TerminalColorDepth {
    Ansi256,
    TrueColor,
}

/// The line style of framed widgets.
#[derive(Debug, Clone, Copy, PartialEq, Eq, Structural)]
pub enum BorderShape {
    Plain,
    Rounded,
    Double,
    Thick,
}

/// The colours of each role in the interface, and how frames are drawn.
#[derive(Debug, Clone, Copy, PartialEq, Eq, Structural)]
pub struct Theme {
    pub text: ThemeColor,
    pub text_strong: ThemeColor,
    pub commentary: ThemeColor,
    pub muted: ThemeColor,
    pub subtle: ThemeColor,
    pub accent: ThemeColor,
    pub accent_soft: ThemeColor,
    pub tool: ThemeColor,
    pub tool_running: ThemeColor,
    pub working: ThemeColor,
    pub working_sheen: ThemeColor,
    pub diff_added: ThemeColor,
    pub diff_added_bg: ThemeColor,
    pub diff_removed: ThemeColor,
    pub diff_removed_bg: ThemeColor,
    pub diff_line_number: ThemeColor,
    pub shell: ThemeColor,
    pub error: ThemeColor,
    pub border: ThemeColor,
    pub mode_default: ThemeColor,
    pub mode_accept_all: ThemeColor,
    pub mode_plan: ThemeColor,
    pub mode_bypass: ThemeColor,
    pub dialog: ThemeColor,
    pub dialog_bg: ThemeColor,
    pub dialog_shadow: ThemeColor,
    pub dialog_key_bg: ThemeColor,
    pub selection_fg: ThemeColor,
    pub selection_bg: ThemeColor,
    pub thinking: ThemeColor,
    pub user_message_bg: ThemeColor,
    /// Whether reasoning is hidden.
    pub hide_thinking: bool,
    /// The fill of the whole frame; `None` lets the terminal's background
    /// show through.
    pub body_background: Option<ThemeColor>,
    pub border_type: BorderShape,
    pub borders_visible: bool,
}

/// The background of the user's messages: a grey a step away from the
/// terminal's background, exact on a true-colour terminal.
pub open spec fn user_message_bg(dark: bool, color_depth: TerminalColorDepth) -> ThemeColor {
    match (dark, color_depth) {
        (true, TerminalColorDepth::TrueColor) => ThemeColor::Rgb(0x2c, 0x2c, 0x2c),
        (true, TerminalColorDepth::Ansi256) => ThemeColor::Indexed(236),
        (false, TerminalColorDepth::TrueColor) => ThemeColor::Rgb(0xef, 0xef, 0xef),
        (false, TerminalColorDepth::Ansi256) => ThemeColor::Indexed(254),
    }
}

pub fn user_message_bg_for(dark: bool, color_depth: TerminalColorDepth) -> (r: ThemeColor)
    ensures
        r == user_message_bg(dark, color_depth),
{
    match (dark, color_depth) {
        (true, TerminalColorDepth::TrueColor) => ThemeColor::Rgb(0x2c, 0x2c, 0x2c),
        (true, TerminalColorDepth::Ansi256) => ThemeColor::Indexed(236),
        (false, TerminalColorDepth::TrueColor) => ThemeColor::Rgb(0xef, 0xef, 0xef),
        (false, TerminalColorDepth::Ansi256) => ThemeColor::Indexed(254),
    }
}

/// The palette for a dark or light terminal background.
pub open spec fn palette(dark: bool, color_depth: TerminalColorDepth) -> Theme {
    if dark {
        Theme {
            text: ThemeColor::Reset,
            text_strong: ThemeColor::Reset,
            commentary: ThemeColor::Indexed(15),
            muted: ThemeColor::Indexed(244),
            subtle: ThemeColor::Indexed(245),
            accent: ThemeColor::Indexed(212),
            accent_soft: ThemeColor::Indexed(183),
            tool: ThemeColor::Indexed(244),
            tool_running: ThemeColor::Indexed(244),
            working: ThemeColor::Indexed(15),
            working_sheen: ThemeColor::Indexed(183),
            diff_added: ThemeColor::Indexed(114),
            diff_added_bg: ThemeColor::Indexed(22),
            diff_removed: ThemeColor::Indexed(210),
            diff_removed_bg: ThemeColor::Indexed(52),
            diff_line_number: ThemeColor::Indexed(246),
            shell: ThemeColor::Indexed(220),
            error: ThemeColor::Indexed(196),
            border: ThemeColor::Indexed(244),
            mode_default: ThemeColor::Indexed(244),
            mode_accept_all: ThemeColor::Indexed(40),
            mode_plan: ThemeColor::Indexed(75),
            mode_bypass: ThemeColor::Indexed(196),
            dialog: ThemeColor::Indexed(62),
            dialog_bg: ThemeColor::Reset,
            dialog_shadow: ThemeColor::Reset,
            dialog_key_bg: ThemeColor::Indexed(238),
            selection_fg: ThemeColor::Reset,
            selection_bg: ThemeColor::Indexed(212),
            thinking: ThemeColor::Indexed(220),
            user_message_bg: user_message_bg(dark, color_depth),
            hide_thinking: false,
            body_background: None,
            border_type: BorderShape::Rounded,
            borders_visible: true,
        }
    } else {
        Theme {
            text: ThemeColor::Reset,
            text_strong: ThemeColor::Reset,
            commentary: ThemeColor::Indexed(16),
            muted: ThemeColor::Indexed(240),
            subtle: ThemeColor::Indexed(240),
            accent: ThemeColor::Indexed(198),
            accent_soft: ThemeColor::Indexed(96),
            tool: ThemeColor::Indexed(240),
            tool_running: ThemeColor::Indexed(240),
            working: ThemeColor::Indexed(16),
            working_sheen: ThemeColor::Indexed(96),
            diff_added: ThemeColor::Indexed(28),
            diff_added_bg: ThemeColor::Indexed(194),
            diff_removed: ThemeColor::Indexed(160),
            diff_removed_bg: ThemeColor::Indexed(224),
            diff_line_number: ThemeColor::Indexed(244),
            shell: ThemeColor::Indexed(160),
            error: ThemeColor::Indexed(160),
            border: ThemeColor::Indexed(240),
            mode_default: ThemeColor::Indexed(240),
            mode_accept_all: ThemeColor::Indexed(28),
            mode_plan: ThemeColor::Indexed(25),
            mode_bypass: ThemeColor::Indexed(160),
            dialog: ThemeColor::Indexed(62),
            dialog_bg: ThemeColor::Reset,
            dialog_shadow: ThemeColor::Reset,
            dialog_key_bg: ThemeColor::Indexed(252),
            selection_fg: ThemeColor::Reset,
            selection_bg: ThemeColor::Indexed(198),
            thinking: ThemeColor::Indexed(130),
            user_message_bg: user_message_bg(dark, color_depth),
            hide_thinking: false,
            body_background: None,
            border_type: BorderShape::Rounded,
            borders_visible: true,
        }
    }
}

/// The colour of a policy mode in the footer.
pub open spec fn mode_color(t: Theme, mode: PolicyMode) -> ThemeColor {
    match mode {
        PolicyMode::Default => t.mode_default,
        PolicyMode::AcceptAll => t.mode_accept_all,
        PolicyMode::Plan => t.mode_plan,
        PolicyMode::Bypass => t.mode_bypass,
    }
}

impl Theme {
    pub fn for_dark_background_with_color_depth(dark: bool, color_depth: TerminalColorDepth) -> (r: Self)
        ensures
            r == palette(dark, color_depth),
    {
        if dark {
            return Theme {
                text: ThemeColor::Reset,
                text_strong: ThemeColor::Reset,
                commentary: ThemeColor::Indexed(15),
                muted: ThemeColor::Indexed(244),
                subtle: ThemeColor::Indexed(245),
                accent: ThemeColor::Indexed(212),
                accent_soft: ThemeColor::Indexed(183),
                tool: ThemeColor::Indexed(244),
                tool_running: ThemeColor::Indexed(244),
                working: ThemeColor::Indexed(15),
                working_sheen: ThemeColor::Indexed(183),
                diff_added: ThemeColor::Indexed(114),
                diff_added_bg: ThemeColor::Indexed(22),
                diff_removed: ThemeColor::Indexed(210),
                diff_removed_bg: ThemeColor::Indexed(52),
                diff_line_number: ThemeColor::Indexed(246),
                shell: ThemeColor::Indexed(220),
                error: ThemeColor::Indexed(196),
                border: ThemeColor::Indexed(244),
                mode_default: ThemeColor::Indexed(244),
                mode_accept_all: ThemeColor::Indexed(40),
                mode_plan: ThemeColor::Indexed(75),
                mode_bypass: ThemeColor::Indexed(196),
                dialog: ThemeColor::Indexed(62),
                dialog_bg: ThemeColor::Reset,
                dialog_shadow: ThemeColor::Reset,
                dialog_key_bg: ThemeColor::Indexed(238),
                selection_fg: ThemeColor::Reset,
                selection_bg: ThemeColor::Indexed(212),
                thinking: ThemeColor::Indexed(220),
                user_message_bg: user_message_bg_for(dark, color_depth),
                hide_thinking: false,
                body_background: None,
                border_type: BorderShape::Rounded,
                borders_visible: true,
            };
        }
        Theme {
            text: ThemeColor::Reset,
            text_strong: ThemeColor::Reset,
            commentary: ThemeColor::Indexed(16),
            muted: ThemeColor::Indexed(240),
            subtle: ThemeColor::Indexed(240),
            accent: ThemeColor::Indexed(198),
            accent_soft: ThemeColor::Indexed(96),
            tool: ThemeColor::Indexed(240),
            tool_running: ThemeColor::Indexed(240),
            working: ThemeColor::Indexed(16),
            working_sheen: ThemeColor::Indexed(96),
            diff_added: ThemeColor::Indexed(28),
            diff_added_bg: ThemeColor::Indexed(194),
            diff_removed: ThemeColor::Indexed(160),
            diff_removed_bg: ThemeColor::Indexed(224),
            diff_line_number: ThemeColor::Indexed(244),
            shell: ThemeColor::Indexed(160),
            error: ThemeColor::Indexed(160),
            border: ThemeColor::Indexed(240),
            mode_default: ThemeColor::Indexed(240),
            mode_accept_all: ThemeColor::Indexed(28),
            mode_plan: ThemeColor::Indexed(25),
            mode_bypass: ThemeColor::Indexed(160),
            dialog: ThemeColor::Indexed(62),
            dialog_bg: ThemeColor::Reset,
            dialog_shadow: ThemeColor::Reset,
            dialog_key_bg: ThemeColor::Indexed(252),
            selection_fg: ThemeColor::Reset,
            selection_bg: ThemeColor::Indexed(198),
            thinking: ThemeColor::Indexed(130),
            user_message_bg: user_message_bg_for(dark, color_depth),
            hide_thinking: false,
            body_background: None,
            border_type: BorderShape::Rounded,
            borders_visible: true,
        }
    }

    /// The palette for a terminal's background and colour depth.
    pub fn for_terminal_capabilities(dark: bool, color_depth: TerminalColorDepth) -> (r: Self)
        ensures
            r == palette(dark, color_depth),
    {
        Theme::for_dark_background_with_color_depth(dark, color_depth)
    }

    /// The palette for a 256-colour terminal.
    pub fn for_dark_background(dark: bool) -> (r: Self)
        ensures
            r == palette(dark, TerminalColorDepth::Ansi256),
    {
        Theme::for_dark_background_with_color_depth(dark, TerminalColorDepth::Ansi256)
    }

    /// The colour that marks a policy mode.
    pub fn policy_mode_color(self, mode: PolicyMode) -> (r: ThemeColor)
        ensures
            r == mode_color(self, mode),
    {
        match mode {
            PolicyMode::Default => self.mode_default,
            PolicyMode::AcceptAll => self.mode_accept_all,
            PolicyMode::Plan => self.mode_plan,
            PolicyMode::Bypass => self.mode_bypass,
        }
    }
}

/// The colours of the semantic roles (everything but reasoning and the
/// user's message background).
pub open spec fn semantic_roles(t: Theme) -> Seq<ThemeColor> {
    seq![
        t.text,
        t.text_strong,
        t.commentary,
        t.muted,
        t.subtle,
        t.accent,
        t.accent_soft,
        t.tool,
        t.tool_running,
        t.working,
        t.working_sheen,
        t.diff_added,
        t.diff_added_bg,
        t.diff_removed,
        t.diff_removed_bg,
        t.diff_line_number,
        t.shell,
        t.error,
        t.border,
        t.mode_default,
        t.mode_accept_all,
        t.mode_plan,
        t.mode_bypass,
        t.dialog,
        t.dialog_bg,
        t.dialog_shadow,
        t.dialog_key_bg,
        t.selection_fg,
        t.selection_bg,
    ]
}

/// The palettes never use the named black or white, which terminal themes
/// remap unpredictably; primary text and dialog surfaces use the
/// terminal's own colours.
pub proof fn law_palette_uses_terminal_defaults(dark: bool, color_depth: TerminalColorDepth)
    ensures
        !semantic_roles(palette(dark, color_depth)).contains(ThemeColor::Black),
        !semantic_roles(palette(dark, color_depth)).contains(ThemeColor::White),
        palette(dark, color_depth).text == ThemeColor::Reset,
        palette(dark, color_depth).text_strong == ThemeColor::Reset,
        palette(dark, color_depth).dialog_bg == ThemeColor::Reset,
        palette(dark, color_depth).dialog_shadow == ThemeColor::Reset,
        palette(dark, color_depth).body_background is None,
{
    let roles = semantic_roles(palette(dark, color_depth));
    assert forall|i: int| 0 <= i < roles.len() implies roles[i] != ThemeColor::Black && roles[i] != ThemeColor::White by {
    }
}

/// Each policy mode has a colour of its own.
pub proof fn law_policy_mode_colors_distinct(dark: bool, color_depth: TerminalColorDepth, a: PolicyMode, b: PolicyMode)
    requires
        a != b,
    ensures
        mode_color(palette(dark, color_depth), a) != mode_color(palette(dark, color_depth), b),
{
}

/// The frame style a CSS theme asks for: no frames at all, or a line style.
#[derive(Debug, Clone, Copy, PartialEq, Eq, Structural)]
pub enum BorderOverride {
    Hidden,
    Plain,
    Rounded,
    Double,
    Thick,
}

/// What a parsed CSS theme sets: the colour of each variable it declares,
/// whether it hides the reasoning rows, the body background and the frame
/// style. A variable it does not declare is `None`.
#[derive(Debug, Clone, Copy, PartialEq, Eq, Structural)]
pub struct ThemeOverrides {
    /// `--text`
    pub text: Option<ThemeColor>,
    /// `--commentary`
    pub commentary: Option<ThemeColor>,
    /// `--thinking`
    pub thinking: Option<ThemeColor>,
    /// `--muted`
    pub muted: Option<ThemeColor>,
    /// `--subtle`
    pub subtle: Option<ThemeColor>,
    /// `--accent`
    pub accent: Option<ThemeColor>,
    /// `--accent-soft`
    pub accent_soft: Option<ThemeColor>,
    /// `--tool`
    pub tool: Option<ThemeColor>,
    /// `--working`
    pub working: Option<ThemeColor>,
    /// `--working-sheen`
    pub working_sheen: Option<ThemeColor>,
    /// `--diff-added`
    pub diff_added: Option<ThemeColor>,
    /// `--diff-added-bg`
    pub diff_added_bg: Option<ThemeColor>,
    /// `--diff-removed`
    pub diff_removed: Option<ThemeColor>,
    /// `--diff-removed-bg`
    pub diff_removed_bg: Option<ThemeColor>,
    /// `--shell`
    pub shell: Option<ThemeColor>,
    /// `--error`
    pub error: Option<ThemeColor>,
    /// `--border`
    pub border: Option<ThemeColor>,
    /// `--mode-plan`
    pub mode_plan: Option<ThemeColor>,
    /// `--mode-default`
    pub mode_default: Option<ThemeColor>,
    /// `--mode-accept-all`
    pub mode_accept_all: Option<ThemeColor>,
    /// `--mode-bypass`
    pub mode_bypass: Option<ThemeColor>,
    /// `--selection-bg`
    pub selection_bg: Option<ThemeColor>,
    /// `--selection-fg`
    pub selection_fg: Option<ThemeColor>,
    /// `--user-message-bg`
    pub user_message_bg: Option<ThemeColor>,
    /// `--dialog`
    pub dialog: Option<ThemeColor>,
    /// `--dialog-key-bg`
    pub dialog_key_bg: Option<ThemeColor>,
    /// Whether `.timeline-thinking` is hidden (`display: none`).
    pub hides_thinking: bool,
    pub background: Option<ThemeColor>,
    pub border_shape: Option<BorderOverride>,
}

pub open spec fn or_keep(o: Option<ThemeColor>, base: ThemeColor) -> ThemeColor {
    match o {
        Some(c) => c,
        None => base,
    }
}

fn keep_or(o: Option<ThemeColor>, base: ThemeColor) -> (r: ThemeColor)
    ensures
        r == or_keep(o, base),
{
    match o {
        Some(c) => c,
        None => base,
    }
}

/// `t` with the overrides laid over it: each declared variable replaces the
/// colours it names (`--text` both text colours, `--tool` both tool
/// colours), the rest stay; hidden reasoning hides thinking; a declared
/// background replaces the body's; the popup interior and its shadow then
/// take the body's colour, or the terminal's own where the body has none;
/// and a frame style shows frames of that line style, or hides them.
pub open spec fn overridden(t: Theme, o: ThemeOverrides) -> Theme {
    let body = match o.background {
        Some(c) => Some(c),
        None => t.body_background,
    };
    let surface = match body {
        Some(c) => c,
        None => ThemeColor::Reset,
    };
    Theme {
        text: or_keep(o.text, t.text),
        text_strong: or_keep(o.text, t.text_strong),
        commentary: or_keep(o.commentary, t.commentary),
        thinking: or_keep(o.thinking, t.thinking),
        muted: or_keep(o.muted, t.muted),
        subtle: or_keep(o.subtle, t.subtle),
        accent: or_keep(o.accent, t.accent),
        accent_soft: or_keep(o.accent_soft, t.accent_soft),
        tool: or_keep(o.tool, t.tool),
        tool_running: or_keep(o.tool, t.tool_running),
        working: or_keep(o.working, t.working),
        working_sheen: or_keep(o.working_sheen, t.working_sheen),
        diff_added: or_keep(o.diff_added, t.diff_added),
        diff_added_bg: or_keep(o.diff_added_bg, t.diff_added_bg),
        diff_removed: or_keep(o.diff_removed, t.diff_removed),
        diff_removed_bg: or_keep(o.diff_removed_bg, t.diff_removed_bg),
        shell: or_keep(o.shell, t.shell),
        error: or_keep(o.error, t.error),
        border: or_keep(o.border, t.border),
        mode_plan: or_keep(o.mode_plan, t.mode_plan),
        mode_default: or_keep(o.mode_default, t.mode_default),
        mode_accept_all: or_keep(o.mode_accept_all, t.mode_accept_all),
        mode_bypass: or_keep(o.mode_bypass, t.mode_bypass),
        selection_bg: or_keep(o.selection_bg, t.selection_bg),
        selection_fg: or_keep(o.selection_fg, t.selection_fg),
        user_message_bg: or_keep(o.user_message_bg, t.user_message_bg),
        dialog: or_keep(o.dialog, t.dialog),
        dialog_key_bg: or_keep(o.dialog_key_bg, t.dialog_key_bg),
        hide_thinking: t.hide_thinking || o.hides_thinking,
        body_background: body,
        dialog_bg: surface,
        dialog_shadow: surface,
        border_type: match o.border_shape {
            Some(BorderOverride::Plain) => BorderShape::Plain,
            Some(BorderOverride::Rounded) => BorderShape::Rounded,
            Some(BorderOverride::Double) => BorderShape::Double,
            Some(BorderOverride::Thick) => BorderShape::Thick,
            _ => t.border_type,
        },
        borders_visible: match o.border_shape {
            Some(BorderOverride::Hidden) => false,
            Some(_) => true,
            None => t.borders_visible,
        },
        ..t
    }
}

/// The colours the command palette draws with.
#[derive(Debug, Clone, Copy, PartialEq, Eq, Structural)]
pub struct PaletteTheme {
    pub text: ThemeColor,
    pub muted: ThemeColor,
    pub accent: ThemeColor,
    pub border: ThemeColor,
    pub selection_fg: ThemeColor,
    pub selection_bg: ThemeColor,
    pub surface_bg: ThemeColor,
}

impl Theme {
    /// The theme with a parsed CSS theme laid over it.
    pub fn apply_overrides(self, o: &ThemeOverrides) -> (r: Self)
        ensures
            r == overridden(self, *o),
    {
        let mut t = self;
        t.apply_colors(o);
        if o.hides_thinking {
            t.hide_thinking = true;
        }
        if o.background.is_some() {
            t.body_background = o.background;
        }
        let surface = match t.body_background {
            Some(c) => c,
            None => ThemeColor::Reset,
        };
        t.dialog_bg = surface;
        t.dialog_shadow = surface;
        match o.border_shape {
            Some(BorderOverride::Hidden) => {
                t.borders_visible = false;
            },
            Some(BorderOverride::Plain) => {
                t.borders_visible = true;
                t.border_type = BorderShape::Plain;
            },
            Some(BorderOverride::Rounded) => {
                t.borders_visible = true;
                t.border_type = BorderShape::Rounded;
            },
            Some(BorderOverride::Double) => {
                t.borders_visible = true;
                t.border_type = BorderShape::Double;
            },
            Some(BorderOverride::Thick) => {
                t.borders_visible = true;
                t.border_type = BorderShape::Thick;
            },
            None => {},
        }
        t
    }

    fn apply_colors(&mut self, o: &ThemeOverrides)
        ensures
            *final(self) == (Theme {
                text: or_keep(o.text, old(self).text),
                text_strong: or_keep(o.text, old(self).text_strong),
                commentary: or_keep(o.commentary, old(self).commentary),
                thinking: or_keep(o.thinking, old(self).thinking),
                muted: or_keep(o.muted, old(self).muted),
                subtle: or_keep(o.subtle, old(self).subtle),
                accent: or_keep(o.accent, old(self).accent),
                accent_soft: or_keep(o.accent_soft, old(self).accent_soft),
                tool: or_keep(o.tool, old(self).tool),
                tool_running: or_keep(o.tool, old(self).tool_running),
                working: or_keep(o.working, old(self).working),
                working_sheen: or_keep(o.working_sheen, old(self).working_sheen),
                diff_added: or_keep(o.diff_added, old(self).diff_added),
                diff_added_bg: or_keep(o.diff_added_bg, old(self).diff_added_bg),
                diff_removed: or_keep(o.diff_removed, old(self).diff_removed),
                diff_removed_bg: or_keep(o.diff_removed_bg, old(self).diff_removed_bg),
                shell: or_keep(o.shell, old(self).shell),
                error: or_keep(o.error, old(self).error),
                border: or_keep(o.border, old(self).border),
                mode_plan: or_keep(o.mode_plan, old(self).mode_plan),
                mode_default: or_keep(o.mode_default, old(self).mode_default),
                mode_accept_all: or_keep(o.mode_accept_all, old(self).mode_accept_all),
                mode_bypass: or_keep(o.mode_bypass, old(self).mode_bypass),
                selection_bg: or_keep(o.selection_bg, old(self).selection_bg),
                selection_fg: or_keep(o.selection_fg, old(self).selection_fg),
                user_message_bg: or_keep(o.user_message_bg, old(self).user_message_bg),
                dialog: or_keep(o.dialog, old(self).dialog),
                dialog_key_bg: or_keep(o.dialog_key_bg, old(self).dialog_key_bg),
                ..*old(self)
            }),
    {
        self.text = keep_or(o.text, self.text);
        self.text_strong = keep_or(o.text, self.text_strong);
        self.commentary = keep_or(o.commentary, self.commentary);
        self.thinking = keep_or(o.thinking, self.thinking);
        self.muted = keep_or(o.muted, self.muted);
        self.subtle = keep_or(o.subtle, self.subtle);
        self.accent = keep_or(o.accent, self.accent);
        self.accent_soft = keep_or(o.accent_soft, self.accent_soft);
        self.tool = keep_or(o.tool, self.tool);
        self.tool_running = keep_or(o.tool, self.tool_running);
        self.working = keep_or(o.working, self.working);
        self.working_sheen = keep_or(o.working_sheen, self.working_sheen);
        self.diff_added = keep_or(o.diff_added, self.diff_added);
        self.diff_added_bg = keep_or(o.diff_added_bg, self.diff_added_bg);
        self.diff_removed = keep_or(o.diff_removed, self.diff_removed);
        self.diff_removed_bg = keep_or(o.diff_removed_bg, self.diff_removed_bg);
        self.shell = keep_or(o.shell, self.shell);
        self.error = keep_or(o.error, self.error);
        self.border = keep_or(o.border, self.border);
        self.mode_plan = keep_or(o.mode_plan, self.mode_plan);
        self.mode_default = keep_or(o.mode_default, self.mode_default);
        self.mode_accept_all = keep_or(o.mode_accept_all, self.mode_accept_all);
        self.mode_bypass = keep_or(o.mode_bypass, self.mode_bypass);
        self.selection_bg = keep_or(o.selection_bg, self.selection_bg);
        self.selection_fg = keep_or(o.selection_fg, self.selection_fg);
        self.user_message_bg = keep_or(o.user_message_bg, self.user_message_bg);
        self.dialog = keep_or(o.dialog, self.dialog);
        self.dialog_key_bg = keep_or(o.dialog_key_bg, self.dialog_key_bg);
    }

    /// The same theme with `o` laid over it.
    pub fn with_overrides(self, o: &ThemeOverrides) -> (r: Self)
        ensures
            r == overridden(self, *o),
    {
        self.apply_overrides(o)
    }

    /// The command palette's colours: the dialog colour frames it and the
    /// body's background, or the terminal's own, fills it.
    pub fn palette(self) -> (r: PaletteTheme)
        ensures
            r == (PaletteTheme {
                text: self.text,
                muted: self.muted,
                accent: self.accent,
                border: self.dialog,
                selection_fg: self.selection_fg,
                selection_bg: self.selection_bg,
                surface_bg: match self.body_background {
                    Some(c) => c,
                    None => ThemeColor::Reset,
                },
            }),
    {
        PaletteTheme {
            text: self.text,
            muted: self.muted,
            accent: self.accent,
            border: self.dialog,
            selection_fg: self.selection_fg,
            selection_bg: self.selection_bg,
            surface_bg: match self.body_background {
                Some(c) => c,
                None => ThemeColor::Reset,
            },
        }
    }
}

/// Whatever a theme sets, the popup interior and its shadow match the body,
/// the terminal's own background where the body has none.
pub proof fn law_popup_surface_follows_body(t: Theme, o: ThemeOverrides)
    ensures
        overridden(t, o).dialog_bg == overridden(t, o).dialog_shadow,
        overridden(t, o).body_background is Some ==> overridden(t, o).dialog_bg
            == overridden(t, o).body_background->Some_0,
        overridden(t, o).body_background is None ==> overridden(t, o).dialog_bg == ThemeColor::Reset,
{
}

/// A theme that declares nothing changes nothing but the popup surface,
/// which follows the body.
pub proof fn law_empty_overrides_keep_the_theme(t: Theme, o: ThemeOverrides)
    requires
        o == (ThemeOverrides {
            text: None,
            commentary: None,
            thinking: None,
            muted: None,
            subtle: None,
            accent: None,
            accent_soft: None,
            tool: None,
            working: None,
            working_sheen: None,
            diff_added: None,
            diff_added_bg: None,
            diff_removed: None,
            diff_removed_bg: None,
            shell: None,
            error: None,
            border: None,
            mode_plan: None,
            mode_default: None,
            mode_accept_all: None,
            mode_bypass: None,
            selection_bg: None,
            selection_fg: None,
            user_message_bg: None,
            dialog: None,
            dialog_key_bg: None,
            hides_thinking: false,
            background: None,
            border_shape: None,
        }),
    ensures
        overridden(t, o) == (Theme {
            dialog_bg: match t.body_background {
                Some(c) => c,
                None => ThemeColor::Reset,
            },
            dialog_shadow: match t.body_background {
                Some(c) => c,
                None => ThemeColor::Reset,
            },
            ..t
        }),
{
}

/// Laying the same theme over twice is laying it over once.
pub proof fn law_overrides_idempotent(t: Theme, o: ThemeOverrides)
    ensures
        overridden(overridden(t, o), o) == overridden(t, o),
{
}

} // verus!
