//! The lines of the browser bridge panel: the connection, the open tabs,
//! pairing, and the last error.
use vstd::prelude::*;
use crate::chrome::{chrome_mode_name, chrome_tab_label, tab_label, ChromeStatus};
use crate::paste::join;
use crate::policy::views;
use crate::text::{decimal, push_decimal, push_str, string_from};
use crate::timeline_rows::{line_view, lines_view, StyledLine, TextRole};

verus! {

broadcast use vstd::string::group_string_axioms;

/// The tabs the browser reported: how many, and their titles.
#[derive(Debug, Clone, PartialEq, Eq)]
pub struct ChromeTabsView {
    pub count: usize,
    pub titles: Vec<String>,
}

/// What the panel shows.
#[derive(Debug, Clone, PartialEq, Eq)]
pub struct ChromePanelState {
    pub status: Option<ChromeStatus>,
    pub tabs: Option<ChromeTabsView>,
    pub last_error: Option<String>,
    pub selected: usize,
}

pub type Lines = Seq<Seq<(Seq<char>, TextRole)>>;

/// A `key: value` line.
pub open spec fn kv(key: Seq<char>, value: Seq<char>) -> Seq<(Seq<char>, TextRole)> {
    seq![(key + ": "@, TextRole::AccentSoft), (value, TextRole::Text)]
}

pub open spec fn yes_no(b: bool) -> Seq<char> {
    if b {
        "yes"@
    } else {
        "no"@
    }
}

/// The connection's lines: whether connected, the clients, the remote
/// address and the browser where known, whether enabled, the mode, the
/// capabilities (`none` without any) and the active tab (`none` without
/// one); or that the status is unavailable.
pub open spec fn connection_lines(status: Option<ChromeStatus>) -> Lines {
    match status {
        Some(s) => seq![kv("Connected"@, yes_no(s.connected)), kv("Clients"@, decimal(s.client_count as nat))]
            + match s.remote_addr {
            Some(a) => seq![kv("Remote addr"@, a@)],
            None => seq![],
        } + match s.browser {
            Some(b) => seq![kv("Browser"@, b.name@ + " ("@ + b.kind@ + ")"@)],
            None => seq![],
        } + seq![
            kv("Enabled"@, yes_no(s.enabled)),
            kv("Mode"@, chrome_mode_name(s.mode)),
            kv(
                "Capabilities"@,
                if s.capabilities@.len() == 0 {
                    "none"@
                } else {
                    join(views(s.capabilities@), ", "@)
                },
            ),
            kv(
                "Active tab"@,
                match s.active_tab {
                    Some(t) => tab_label(t),
                    None => "none"@,
                },
            ),
        ],
        None => seq![seq![("Status unavailable."@, TextRole::Muted)]],
    }
}

/// The tabs' lines, after a blank line: `Tabs (n)` and a bulleted title
/// per tab, or `(no tabs)`; nothing before the tabs were listed.
pub open spec fn tabs_lines(tabs: Option<ChromeTabsView>) -> Lines {
    match tabs {
        Some(t) => seq![seq![], seq![("Tabs ("@ + decimal(t.count as nat) + ")"@, TextRole::Accent)]] + if t.titles@.len()
            == 0 {
            seq![seq![("(no tabs)"@, TextRole::Muted)]]
        } else {
            t.titles@.map_values(|title: String| seq![("• "@, TextRole::Subtle), (title@, TextRole::Text)])
        },
        None => seq![],
    }
}

/// The pairing lines, after a blank line: the one-click pair URL where
/// there is one, then the remote panel's own lines.
pub open spec fn pairing_lines(pair_url: Option<String>, remote_lines: Seq<String>) -> Lines {
    seq![seq![], seq![("Pairing"@, TextRole::Accent)]] + url_lines(pair_url) + remote_lines.map_values(|l: String| seq![(l@, TextRole::Text)])
}

pub open spec fn url_lines(pair_url: Option<String>) -> Lines {
    match pair_url {
        Some(u) => seq![seq![("1-click pair URL (press o): "@, TextRole::AccentSoft), (u@, TextRole::Text)]],
        None => seq![],
    }
}

/// The whole panel.
pub open spec fn chrome_panel_spec(state: ChromePanelState, pair_url: Option<String>, remote_lines: Seq<String>) -> Lines {
    seq![seq![("Connection"@, TextRole::Accent)]] + connection_lines(state.status) + tabs_lines(state.tabs)
        + pairing_lines(pair_url, remote_lines) + match state.last_error {
        Some(e) => seq![seq![], seq![(e@, TextRole::Error)]],
        None => seq![],
    }
}

fn kv_line(key: &str, value: String) -> (r: StyledLine)
    ensures
        line_view(r@) == kv(key@, value@),
{
    let mut k = string_from(key);
    push_str(&mut k, ": ");
    let mut l: StyledLine = Vec::new();
    l.push((k, TextRole::AccentSoft));
    l.push((value, TextRole::Text));
    assert(line_view(l@) =~= kv(key@, value@));
    l
}

fn single(text: String, role: TextRole) -> (r: StyledLine)
    ensures
        line_view(r@) == seq![(text@, role)],
{
    let mut l: StyledLine = Vec::new();
    l.push((text, role));
    assert(line_view(l@) =~= seq![(text@, role)]);
    l
}

fn blank_line() -> (r: StyledLine)
    ensures
        line_view(r@) == Seq::<(Seq<char>, TextRole)>::empty(),
{
    let l: StyledLine = Vec::new();
    assert(line_view(l@) =~= Seq::<(Seq<char>, TextRole)>::empty());
    l
}

fn push_line(lines: &mut Vec<StyledLine>, l: StyledLine)
    ensures
        lines_view(final(lines)@) == lines_view(old(lines)@).push(line_view(l@)),
{
    lines.push(l);
    assert(lines_view(lines@) =~= lines_view(old(lines)@).push(line_view(l@)));
}

/// `items` joined with `sep`.
pub fn join_strings(items: &Vec<String>, sep: &str) -> (r: String)
    ensures
        r@ == join(views(items@), sep@),
{
    let mut out = String::new();
    let mut i: usize = 0;
    assert(views(items@).take(0) =~= Seq::<Seq<char>>::empty());
    while i < items.len()
        invariant
            0 <= i <= items@.len(),
            out@ == join(views(items@).take(i as int), sep@),
        decreases items@.len() - i,
    {
        if i > 0 {
            push_str(&mut out, sep);
        }
        push_str(&mut out, items[i].as_str());
        proof {
            let all = views(items@);
            assert(all.take(i + 1).drop_last() =~= all.take(i as int));
            assert(all.take(i + 1).last() == items@[i as int]@);
            if i == 0 {
                assert(join(all.take(1), sep@) == all.take(1)[0]);
                assert(join(all.take(0), sep@) =~= Seq::<char>::empty());
            }
            assert(out@ =~= join(all.take(i + 1), sep@));
        }
        i += 1;
    }
    assert(views(items@).take(i as int) =~= views(items@));
    out
}

fn yes_no_str(b: bool) -> (r: String)
    ensures
        r@ == yes_no(b),
{
    string_from(if b { "yes" } else { "no" })
}

fn push_connection(lines: &mut Vec<StyledLine>, status: &Option<ChromeStatus>)
    ensures
        lines_view(final(lines)@) == lines_view(old(lines)@) + connection_lines(*status),
{
    let ghost start = lines_view(lines@);
    match status {
        Some(s) => {
            push_line(lines, kv_line("Connected", yes_no_str(s.connected)));
            let mut clients = String::new();
            push_decimal(&mut clients, s.client_count as u64);
            push_line(lines, kv_line("Clients", clients));
            match &s.remote_addr {
                Some(addr) => push_line(lines, kv_line("Remote addr", addr.clone())),
                None => {},
            }
            match &s.browser {
                Some(br) => {
                    let mut v = string_from(br.name.as_str());
                    push_str(&mut v, " (");
                    push_str(&mut v, br.kind.as_str());
                    push_str(&mut v, ")");
                    push_line(lines, kv_line("Browser", v));
                },
                None => {},
            }
            push_line(lines, kv_line("Enabled", yes_no_str(s.enabled)));
            push_line(lines, kv_line("Mode", string_from(s.mode.as_str())));
            let caps = if s.capabilities.len() == 0 {
                string_from("none")
            } else {
                join_strings(&s.capabilities, ", ")
            };
            push_line(lines, kv_line("Capabilities", caps));
            let tab = match &s.active_tab {
                Some(t) => chrome_tab_label(t),
                None => string_from("none"),
            };
            push_line(lines, kv_line("Active tab", tab));
            assert(lines_view(lines@) =~= start + connection_lines(*status));
        },
        None => {
            push_line(lines, single(string_from("Status unavailable."), TextRole::Muted));
            assert(lines_view(lines@) =~= start + connection_lines(*status));
        },
    }
}

fn push_tabs(lines: &mut Vec<StyledLine>, tabs: &Option<ChromeTabsView>)
    ensures
        lines_view(final(lines)@) == lines_view(old(lines)@) + tabs_lines(*tabs),
{
    let ghost start = lines_view(lines@);
    match tabs {
        Some(t) => {
            push_line(lines, blank_line());
            let mut head = string_from("Tabs (");
            push_decimal(&mut head, t.count as u64);
            push_str(&mut head, ")");
            push_line(lines, single(head, TextRole::Accent));
            let ghost mid = lines_view(lines@);
            if t.titles.len() == 0 {
                push_line(lines, single(string_from("(no tabs)"), TextRole::Muted));
            } else {
                let ghost want = t.titles@.map_values(
                    |title: String| seq![("• "@, TextRole::Subtle), (title@, TextRole::Text)],
                );
                let mut i: usize = 0;
                while i < t.titles.len()
                    invariant
                        0 <= i <= t.titles@.len(),
                        want == t.titles@.map_values(
                            |title: String| seq![("• "@, TextRole::Subtle), (title@, TextRole::Text)],
                        ),
                        lines_view(lines@) == mid + want.take(i as int),
                    decreases t.titles@.len() - i,
                {
                    let mut l: StyledLine = Vec::new();
                    l.push((string_from("• "), TextRole::Subtle));
                    l.push((t.titles[i].clone(), TextRole::Text));
                    assert(line_view(l@) =~= want[i as int]);
                    push_line(lines, l);
                    assert(want.take(i + 1) =~= want.take(i as int).push(want[i as int]));
                    i += 1;
                }
                assert(want.take(i as int) =~= want);
            }
            assert(lines_view(lines@) =~= start + tabs_lines(*tabs));
        },
        None => {
            assert(lines_view(lines@) =~= start + tabs_lines(*tabs));
        },
    }
}

fn push_pairing(lines: &mut Vec<StyledLine>, pair_url: &Option<String>, remote_lines: &Vec<String>)
    ensures
        lines_view(final(lines)@) == lines_view(old(lines)@) + pairing_lines(*pair_url, remote_lines@),
{
    let ghost start = lines_view(lines@);
    push_line(lines, blank_line());
    push_line(lines, single(string_from("Pairing"), TextRole::Accent));
    let ghost head = lines_view(lines@);
    match pair_url {
        Some(u) => {
            let mut l: StyledLine = Vec::new();
            l.push((string_from("1-click pair URL (press o): "), TextRole::AccentSoft));
            l.push((u.clone(), TextRole::Text));
            assert(line_view(l@) =~= seq![("1-click pair URL (press o): "@, TextRole::AccentSoft), (u@, TextRole::Text)]);
            push_line(lines, l);
        },
        None => {},
    }
    let ghost url_part: Lines = url_lines(*pair_url);
    assert(lines_view(lines@) =~= head + url_part);
    let ghost before_remote = lines_view(lines@);
    let ghost rl = remote_lines@.map_values(|l: String| seq![(l@, TextRole::Text)]);
    let mut j: usize = 0;
    while j < remote_lines.len()
        invariant
            0 <= j <= remote_lines@.len(),
            rl == remote_lines@.map_values(|l: String| seq![(l@, TextRole::Text)]),
            lines_view(lines@) == before_remote + rl.take(j as int),
        decreases remote_lines@.len() - j,
    {
        push_line(lines, single(remote_lines[j].clone(), TextRole::Text));
        assert(rl.take(j + 1) =~= rl.take(j as int).push(rl[j as int]));
        j += 1;
    }
    assert(rl.take(j as int) =~= rl);
    assert(head =~= start + seq![seq![], seq![("Pairing"@, TextRole::Accent)]]);
    assert(lines_view(lines@) =~= start + pairing_lines(*pair_url, remote_lines@));
}

/// The lines of the browser bridge panel.
pub fn chrome_panel_lines(state: &ChromePanelState, pair_url: &Option<String>, remote_lines: &Vec<String>) -> (r: Vec<StyledLine>)
    ensures
        lines_view(r@) == chrome_panel_spec(*state, *pair_url, remote_lines@),
{
    let mut lines: Vec<StyledLine> = Vec::new();
    push_line(&mut lines, single(string_from("Connection"), TextRole::Accent));
    push_connection(&mut lines, &state.status);
    push_tabs(&mut lines, &state.tabs);
    push_pairing(&mut lines, pair_url, remote_lines);
    let ghost before_error = lines_view(lines@);
    match &state.last_error {
        Some(e) => {
            push_line(&mut lines, blank_line());
            push_line(&mut lines, single(e.clone(), TextRole::Error));
        },
        None => {},
    }
    assert(lines_view(lines@) =~= chrome_panel_spec(*state, *pair_url, remote_lines@));
    lines
}

} // verus!
