//! The browser bridge panel: how far the browser extension may act, and
//! the text that describes a tab and the bridge's status.
use vstd::prelude::*;
use crate::paste::join;
use crate::policy::views;
use crate::text::{is_blank, push_decimal, push_str, decimal, string_from, truncate, truncated};

verus! {

broadcast use vstd::string::group_string_axioms;

/// How far the browser extension may act on its own.
#[derive(Debug, Clone, Copy, PartialEq, Eq, Structural)]
pub enum ChromePermissionMode {
    Observe,
    Assist,
    Control,
}

pub open spec fn chrome_mode_name(mode: ChromePermissionMode) -> Seq<char> {
    match mode {
        ChromePermissionMode::Observe => "observe"@,
        ChromePermissionMode::Assist => "assist"@,
        ChromePermissionMode::Control => "control"@,
    }
}

impl ChromePermissionMode {
    /// The name under which the mode is exchanged with the server.
    pub fn as_str(self) -> (r: &'static str)
        ensures
            r@ == chrome_mode_name(self),
    {
        match self {
            ChromePermissionMode::Observe => "observe",
            ChromePermissionMode::Assist => "assist",
            ChromePermissionMode::Control => "control",
        }
    }
}

pub open spec fn next_chrome(mode: ChromePermissionMode) -> ChromePermissionMode {
    match mode {
        ChromePermissionMode::Observe => ChromePermissionMode::Assist,
        ChromePermissionMode::Assist => ChromePermissionMode::Control,
        ChromePermissionMode::Control => ChromePermissionMode::Observe,
    }
}

/// The mode that the panel's mode key switches to.
pub fn next_chrome_mode(mode: ChromePermissionMode) -> (r: ChromePermissionMode)
    ensures
        r == next_chrome(mode),
{
    match mode {
        ChromePermissionMode::Observe => ChromePermissionMode::Assist,
        ChromePermissionMode::Assist => ChromePermissionMode::Control,
        ChromePermissionMode::Control => ChromePermissionMode::Observe,
    }
}

/// The mode key visits every mode and comes back after three presses.
pub proof fn law_chrome_modes_cycle(mode: ChromePermissionMode)
    ensures
        next_chrome(next_chrome(next_chrome(mode))) == mode,
        next_chrome(mode) != mode,
        next_chrome(next_chrome(mode)) != mode,
{
}

/// A browser tab.
#[derive(Debug, Clone, PartialEq, Eq)]
pub struct ChromeTab {
    pub id: u64,
    pub window_id: Option<u64>,
    pub title: Option<String>,
    pub url: Option<String>,
    pub fav_icon_url: Option<String>,
    pub active: bool,
}

/// `title — url` (the title, or `(untitled)` when it is blank), cut to 90
/// characters.
pub open spec fn tab_label(tab: ChromeTab) -> Seq<char> {
    let title = match tab.title {
        Some(t) => if is_blank(t@) {
            "(untitled)"@
        } else {
            t@
        },
        None => "(untitled)"@,
    };
    let url = match tab.url {
        Some(u) => u@,
        None => seq![],
    };
    truncated(
        if url.len() == 0 {
            title
        } else {
            title + " — "@ + url
        },
        90,
        "..."@,
    )
}

pub fn chrome_tab_label(tab: &ChromeTab) -> (r: String)
    ensures
        r@ == tab_label(*tab),
{
    let mut label = match &tab.title {
        Some(t) => {
            let v = crate::text::chars_of(t.as_str());
            assert(v@.subrange(0, v@.len() as int) =~= v@);
            if crate::text::range_is_blank(&v, 0, v.len()) {
                string_from("(untitled)")
            } else {
                string_from(t.as_str())
            }
        },
        None => string_from("(untitled)"),
    };
    match &tab.url {
        Some(u) => {
            if !u.as_str().is_empty() {
                push_str(&mut label, " — ");
                push_str(&mut label, u.as_str());
            }
        },
        None => {},
    }
    truncate(label.as_str(), 90)
}

/// The browser on the other end of the bridge.
#[derive(Debug, Clone, PartialEq, Eq)]
pub struct ChromeBrowser {
    pub name: String,
    pub kind: String,
}

/// The bridge as the server reports it.
#[derive(Debug, Clone, PartialEq, Eq)]
pub struct ChromeStatus {
    pub connected: bool,
    pub client_count: usize,
    pub enabled: bool,
    pub capabilities: Vec<String>,
    pub mode: ChromePermissionMode,
    pub remote_addr: Option<String>,
    pub active_tab: Option<ChromeTab>,
    pub last_error: Option<String>,
    pub browser: Option<ChromeBrowser>,
}

impl Default for ChromeStatus {
    fn default() -> (r: Self)
        ensures
            !r.connected && r.client_count == 0 && !r.enabled && r.capabilities@.len() == 0 && r.mode
                == ChromePermissionMode::Observe && r.remote_addr is None && r.active_tab is None
                && r.last_error is None && r.browser is None,
    {
        ChromeStatus {
            connected: false,
            client_count: 0,
            enabled: false,
            capabilities: Vec::new(),
            mode: ChromePermissionMode::Observe,
            remote_addr: None,
            active_tab: None,
            last_error: None,
            browser: None,
        }
    }
}

pub open spec fn opt_line(prefix: Seq<char>, value: Option<String>) -> Seq<char> {
    match value {
        Some(v) => "\n"@ + prefix + v@,
        None => seq![],
    }
}

/// The lines of the status: connection; clients, whether enabled and the
/// mode; then the remote address, capabilities, active tab and last error
/// when there are any.
pub open spec fn status_summary(s: ChromeStatus) -> Seq<char> {
    "Chrome: "@ + (if s.connected {
        "connected"@
    } else {
        "not connected"@
    }) + "\nClients: "@ + decimal(s.client_count as nat) + "  ·  enabled: "@ + (if s.enabled {
        "yes"@
    } else {
        "no"@
    }) + "  ·  mode: "@ + chrome_mode_name(s.mode) + opt_line("Remote: "@, s.remote_addr) + (if s.capabilities@.len()
        > 0 {
        "\nCapabilities: "@ + join(views(s.capabilities@), ", "@)
    } else {
        seq![]
    }) + match s.active_tab {
        Some(t) => "\nActive tab: "@ + tab_label(t),
        None => seq![],
    } + opt_line("Last error: "@, s.last_error)
}

fn push_opt_line(out: &mut String, prefix: &str, value: &Option<String>)
    ensures
        final(out)@ == old(out)@ + opt_line(prefix@, *value),
{
    match value {
        Some(v) => {
            push_str(out, "\n");
            push_str(out, prefix);
            push_str(out, v.as_str());
            assert(final(out)@ =~= old(out)@ + opt_line(prefix@, *value));
        },
        None => {
            assert(old(out)@ + opt_line(prefix@, *value) =~= old(out)@);
        },
    }
}

pub fn chrome_status_summary(status: &ChromeStatus) -> (r: String)
    ensures
        r@ == status_summary(*status),
{
    let mut out = string_from("Chrome: ");
    push_str(&mut out, if status.connected { "connected" } else { "not connected" });
    push_str(&mut out, "\nClients: ");
    push_decimal(&mut out, status.client_count as u64);
    push_str(&mut out, "  ·  enabled: ");
    push_str(&mut out, if status.enabled { "yes" } else { "no" });
    push_str(&mut out, "  ·  mode: ");
    push_str(&mut out, status.mode.as_str());
    let ghost head = out@;
    push_opt_line(&mut out, "Remote: ", &status.remote_addr);
    let ghost with_remote = out@;
    if status.capabilities.len() > 0 {
        push_str(&mut out, "\nCapabilities: ");
        let ghost start = out@;
        let caps = &status.capabilities;
        let mut i: usize = 0;
        assert(views(caps@).take(0) =~= Seq::<Seq<char>>::empty());
        assert(start + join(views(caps@).take(0), ", "@) =~= start);
        while i < caps.len()
            invariant
                0 <= i <= caps@.len(),
                out@ == start + join(views(caps@).take(i as int), ", "@),
            decreases caps@.len() - i,
        {
            let ghost before = out@;
            if i > 0 {
                push_str(&mut out, ", ");
            }
            push_str(&mut out, caps[i].as_str());
            proof {
                let all = views(caps@);
                assert(all.take(i + 1).drop_last() =~= all.take(i as int));
                assert(all.take(i + 1).last() == caps@[i as int]@);
                if i == 0 {
                    assert(join(all.take(1), ", "@) == all.take(1)[0]);
                }
                assert(out@ =~= start + join(all.take(i + 1), ", "@));
            }
            i += 1;
        }
        assert(views(caps@).take(caps@.len() as int) =~= views(caps@));
    } else {
        assert(with_remote + Seq::<char>::empty() =~= with_remote);
    }
    let ghost with_caps = out@;
    match &status.active_tab {
        Some(tab) => {
            push_str(&mut out, "\nActive tab: ");
            let label = chrome_tab_label(tab);
            push_str(&mut out, label.as_str());
        },
        None => {},
    }
    push_opt_line(&mut out, "Last error: ", &status.last_error);
    proof {
        assert(out@ =~= status_summary(*status));
    }
    out
}

} // verus!
