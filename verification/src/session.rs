//! What a session starts from: the thread, model, provider, title and
//! message count chosen for a new, resumed or team thread, and the server
//! settings with their defaults where the server gave none.
use vstd::prelude::*;
use vstd::string::StringSliceAdditionalSpecFns;
use crate::menu_item::short_id_view;
use crate::policy::{HostedWebSearchMode, WebSearchProviderStatus};
use crate::text::{chars_of, is_blank, push_str, range_is_blank, short_id, string_from};

verus! {

broadcast use {vstd::string::group_string_axioms, vstd::utf8::encode_utf8_decode_utf8};

/// What a session is built from.
#[derive(Debug, Clone, PartialEq, Eq)]
pub struct ThreadParts {
    pub thread_id: String,
    pub provider: String,
    pub thread_model: String,
    /// The model asked for on the command line; empty when none was.
    pub requested_model: String,
    pub reasoning: String,
    pub thread_title: Option<String>,
    pub thread_message_count: usize,
}

/// The kinds of item in a thread's turns that the start-up counts.
#[derive(Debug, Clone, Copy, PartialEq, Eq, Structural)]
pub enum ThreadItemKind {
    UserMessage,
    AgentMessage,
    Other,
}

fn blank(s: &str) -> (r: bool)
    ensures
        r == is_blank(s@),
{
    let v = chars_of(s);
    assert(v@.subrange(0, v@.len() as int) =~= v@);
    range_is_blank(&v, 0, v.len())
}

/// The model a session runs: the one asked for, else the thread's.
pub open spec fn selected_model_spec(thread_model: Seq<char>, requested_model: Seq<char>) -> Seq<char> {
    if requested_model.len() == 0 {
        thread_model
    } else {
        requested_model
    }
}

pub fn selected_model(parts: &ThreadParts) -> (r: String)
    ensures
        r@ == selected_model_spec(parts.thread_model@, parts.requested_model@),
{
    if parts.requested_model.as_str().is_empty() {
        parts.thread_model.clone()
    } else {
        parts.requested_model.clone()
    }
}

pub open spec fn is_message(k: ThreadItemKind) -> bool {
    k == ThreadItemKind::UserMessage || k == ThreadItemKind::AgentMessage
}

/// How many user and agent messages `items` hold.
pub open spec fn messages_in(items: Seq<ThreadItemKind>) -> nat
    decreases items.len(),
{
    if items.len() == 0 {
        0
    } else {
        messages_in(items.drop_last()) + if is_message(items.last()) {
            1nat
        } else {
            0nat
        }
    }
}

/// How many user and agent messages the turns hold, all together.
pub open spec fn message_count_spec(turns: Seq<Vec<ThreadItemKind>>) -> nat
    decreases turns.len(),
{
    if turns.len() == 0 {
        0
    } else {
        message_count_spec(turns.drop_last()) + messages_in(turns.last()@)
    }
}

proof fn lemma_messages_in_bound(items: Seq<ThreadItemKind>)
    ensures
        messages_in(items) <= items.len(),
    decreases items.len(),
{
    if items.len() > 0 {
        lemma_messages_in_bound(items.drop_last());
    }
}

/// The number of user and agent messages in a thread's turns, none where
/// the thread came without its turns (the count saturates at `usize::MAX`).
pub fn thread_message_count(turns: Option<&Vec<Vec<ThreadItemKind>>>) -> (r: usize)
    ensures
        r == match turns {
            Some(t) => if message_count_spec(t@) > usize::MAX {
                usize::MAX as int
            } else {
                message_count_spec(t@) as int
            },
            None => 0,
        },
{
    match turns {
        None => 0,
        Some(turns) => {
            let mut count: usize = 0;
            let mut saturated = false;
            let mut i: usize = 0;
            while i < turns.len()
                invariant
                    0 <= i <= turns@.len(),
                    saturated ==> count == usize::MAX && message_count_spec(turns@.take(i as int)) >= usize::MAX,
                    !saturated ==> count == message_count_spec(turns@.take(i as int)),
                decreases turns@.len() - i,
            {
                let items = &turns[i];
                let ghost before = message_count_spec(turns@.take(i as int));
                let mut j: usize = 0;
                let ghost base = count;
                while j < items.len()
                    invariant
                        0 <= j <= items@.len(),
                        saturated ==> count == usize::MAX && before + messages_in(items@.take(j as int)) >= usize::MAX,
                        !saturated ==> count == before + messages_in(items@.take(j as int)),
                        before == message_count_spec(turns@.take(i as int)),
                    decreases items@.len() - j,
                {
                    assert(items@.take(j + 1).drop_last() =~= items@.take(j as int));
                    if items[j] == ThreadItemKind::UserMessage || items[j] == ThreadItemKind::AgentMessage {
                        if count == usize::MAX {
                            saturated = true;
                        } else {
                            count = count + 1;
                        }
                    }
                    j += 1;
                }
                assert(items@.take(j as int) =~= items@);
                assert(turns@.take(i + 1).drop_last() =~= turns@.take(i as int));
                assert(turns@.take(i + 1).last() == turns@[i as int]);
                i += 1;
            }
            assert(turns@.take(i as int) =~= turns@);
            count
        },
    }
}

/// A team member's thread runs the member's model, else the thread's, if
/// either is not blank, else the default model.
pub open spec fn member_model_spec(member_model: Option<Seq<char>>, thread_model: Option<Seq<char>>, default_model: Seq<char>) -> Seq<char> {
    match member_model {
        Some(m) if !is_blank(m) => m,
        _ => match thread_model {
            Some(t) if !is_blank(t) => t,
            _ => default_model,
        },
    }
}

pub open spec fn opt_str_view(o: Option<&str>) -> Option<Seq<char>> {
    match o {
        Some(s) => Some(s@),
        None => None,
    }
}

/// The parts of a session on a team member's thread: the member's or the
/// thread's model and provider, titled with the member's name and the
/// team's short id, at medium reasoning.
pub open spec fn member_parts_of(
    member_thread_id: Seq<char>,
    member_name: Seq<char>,
    team_id: Seq<char>,
    member_model: Option<Seq<char>>,
    member_provider: Option<Seq<char>>,
    thread_model: Option<Seq<char>>,
    thread_provider: Option<Seq<char>>,
    default_model: Seq<char>,
    message_count: usize,
    p: ThreadParts,
) -> bool {
    &&& p.thread_id@ == member_thread_id
    &&& p.provider@ == match member_provider {
        Some(v) => v,
        None => match thread_provider {
            Some(v) => v,
            None => ""@,
        },
    }
    &&& p.thread_model@ == member_model_spec(member_model, thread_model, default_model)
    &&& p.requested_model@ == ""@
    &&& p.reasoning@ == "medium"@
    &&& p.thread_title matches Some(t) && t@ == member_name + " ("@ + short_id_view(team_id) + ")"@
    &&& p.thread_message_count == message_count
}

pub fn team_member_parts(
    member_thread_id: &str,
    member_name: &str,
    team_id: &str,
    member_model: Option<&str>,
    member_provider: Option<&str>,
    thread_model: Option<&str>,
    thread_provider: Option<&str>,
    default_model: &str,
    message_count: usize,
) -> (p: ThreadParts)
    ensures
        member_parts_of(
            member_thread_id@,
            member_name@,
            team_id@,
            opt_str_view(member_model),
            opt_str_view(member_provider),
            opt_str_view(thread_model),
            opt_str_view(thread_provider),
            default_model@,
            message_count,
            p,
        ),
{
    let model = match member_model {
        Some(m) if !blank(m) => string_from(m),
        _ => match thread_model {
            Some(t) if !blank(t) => string_from(t),
            _ => string_from(default_model),
        },
    };
    let provider = match member_provider {
        Some(v) => string_from(v),
        None => match thread_provider {
            Some(v) => string_from(v),
            None => String::new(),
        },
    };
    let id = short_id(team_id);
    proof {
        assert(id.spec_bytes() == vstd::utf8::encode_utf8(id@));
        assert(vstd::utf8::decode_utf8(vstd::utf8::encode_utf8(id@)) == id@);
        assert(id@ == short_id_view(team_id@));
    }
    let mut title = string_from(member_name);
    push_str(&mut title, " (");
    push_str(&mut title, id);
    push_str(&mut title, ")");
    proof {
        reveal_strlit("");
    }
    let p = ThreadParts {
        thread_id: string_from(member_thread_id),
        provider,
        thread_model: model,
        requested_model: String::new(),
        reasoning: string_from("medium"),
        thread_title: Some(title),
        thread_message_count: message_count,
    };
    assert(p.requested_model@ == ""@);
    assert(p.reasoning@ == "medium"@);
    assert(p.thread_model@ == member_model_spec(
        opt_str_view(member_model),
        opt_str_view(thread_model),
        default_model@,
    ));
    assert(p.provider@ == match opt_str_view(member_provider) {
        Some(v) => v,
        None => match opt_str_view(thread_provider) {
            Some(v) => v,
            None => ""@,
        },
    });
    p
}

/// A resumed thread's title: its name where not blank, else its preview
/// where not blank, else none.
pub open spec fn resumed_title_spec(name: Option<Seq<char>>, preview: Seq<char>) -> Option<Seq<char>> {
    match name {
        Some(n) if !is_blank(n) => Some(n),
        _ => if !is_blank(preview) {
            Some(preview)
        } else {
            None
        },
    }
}

/// The parts of a session on a resumed thread: the thread's provider, its
/// model unless blank (then the default one), its title, at medium
/// reasoning.
pub open spec fn resumed_parts_of(
    thread_id: Seq<char>,
    provider: Seq<char>,
    thread_model: Seq<char>,
    name: Option<Seq<char>>,
    preview: Seq<char>,
    default_model: Seq<char>,
    message_count: usize,
    p: ThreadParts,
) -> bool {
    &&& p.thread_id@ == thread_id
    &&& p.provider@ == provider
    &&& p.thread_model@ == (if is_blank(thread_model) {
        default_model
    } else {
        thread_model
    })
    &&& p.requested_model@ == ""@
    &&& p.reasoning@ == "medium"@
    &&& match p.thread_title {
        Some(t) => resumed_title_spec(name, preview) == Some(t@),
        None => resumed_title_spec(name, preview) is None,
    }
    &&& p.thread_message_count == message_count
}

pub fn resumed_thread_parts(
    thread_id: &str,
    provider: &str,
    thread_model: &str,
    name: Option<&str>,
    preview: &str,
    default_model: &str,
    message_count: usize,
) -> (p: ThreadParts)
    ensures
        resumed_parts_of(
            thread_id@,
            provider@,
            thread_model@,
            opt_str_view(name),
            preview@,
            default_model@,
            message_count,
            p,
        ),
{
    let model = if blank(thread_model) {
        string_from(default_model)
    } else {
        string_from(thread_model)
    };
    let named = match name {
        Some(n) => !blank(n),
        None => false,
    };
    let title = if named {
        match name {
            Some(n) => Some(string_from(n)),
            None => None,
        }
    } else if !blank(preview) {
        Some(string_from(preview))
    } else {
        None
    };
    proof {
        reveal_strlit("");
    }
    let p = ThreadParts {
        thread_id: string_from(thread_id),
        provider: string_from(provider),
        thread_model: model,
        requested_model: String::new(),
        reasoning: string_from("medium"),
        thread_title: title,
        thread_message_count: message_count,
    };
    assert(p.thread_id@ == thread_id@);
    assert(p.requested_model@ == ""@);
    assert(p.reasoning@ == "medium"@);
    assert(p.thread_model@ == (if is_blank(thread_model@) { default_model@ } else { thread_model@ }));
    assert(match p.thread_title {
        Some(t) => resumed_title_spec(opt_str_view(name), preview@) == Some(t@),
        None => resumed_title_spec(opt_str_view(name), preview@) is None,
    });
    p
}

/// The model a new thread is started with: the one asked for, unless blank.
pub fn thread_start_model(model: &str) -> (r: Option<String>)
    ensures
        match r {
            Some(m) => !is_blank(model@) && m@ == model@,
            None => is_blank(model@),
        },
{
    if blank(model) {
        None
    } else {
        Some(string_from(model))
    }
}

/// The parts of a session on a newly started thread: the model the thread
/// reports, else the one the server chose, else the one asked for; the
/// server's provider and reasoning; no title and no messages yet.
pub open spec fn started_parts_of(
    thread_id: Seq<char>,
    provider: Seq<char>,
    thread_model: Seq<char>,
    started_model: Seq<char>,
    requested_model: Seq<char>,
    reasoning: Seq<char>,
    p: ThreadParts,
) -> bool {
    &&& p.thread_id@ == thread_id
    &&& p.provider@ == provider
    &&& p.thread_model@ == (if !is_blank(thread_model) {
        thread_model
    } else if !is_blank(started_model) {
        started_model
    } else {
        requested_model
    })
    &&& p.requested_model@ == requested_model
    &&& p.reasoning@ == reasoning
    &&& p.thread_title is None
    &&& p.thread_message_count == 0
}

pub fn started_thread_parts(
    thread_id: &str,
    provider: &str,
    thread_model: &str,
    started_model: &str,
    requested_model: &str,
    reasoning: &str,
) -> (p: ThreadParts)
    ensures
        started_parts_of(thread_id@, provider@, thread_model@, started_model@, requested_model@, reasoning@, p),
{
    let model = if !blank(thread_model) {
        string_from(thread_model)
    } else if !blank(started_model) {
        string_from(started_model)
    } else {
        string_from(requested_model)
    };
    ThreadParts {
        thread_id: string_from(thread_id),
        provider: string_from(provider),
        thread_model: model,
        requested_model: string_from(requested_model),
        reasoning: string_from(reasoning),
        thread_title: None,
        thread_message_count: 0,
    }
}

/// The server's settings as a session reads them.
#[derive(Debug, Clone, PartialEq, Eq)]
pub struct SettingsReply {
    pub web_search_mode: HostedWebSearchMode,
    pub web_search_external_provider: Option<String>,
    pub web_search_providers: Vec<WebSearchProviderStatus>,
    pub search_index_enabled: bool,
    pub shell: String,
    pub shell_options: Vec<String>,
    pub file_backed_dynamic_context: bool,
}

/// The settings a session starts with: the server's where it answered;
/// where it did not, cached hosted web search, no external provider, the
/// search index and file-backed context on, and the default shell.
pub fn session_settings(reply: Option<SettingsReply>, default_shell: String, default_shell_options: Vec<String>) -> (s: SettingsReply)
    ensures
        match reply {
            Some(r) => s == r,
            None => {
                &&& s.web_search_mode == HostedWebSearchMode::Cached
                &&& s.web_search_external_provider is None
                &&& s.web_search_providers@.len() == 0
                &&& s.search_index_enabled
                &&& s.shell == default_shell
                &&& s.shell_options == default_shell_options
                &&& s.file_backed_dynamic_context
            },
        },
{
    match reply {
        Some(r) => r,
        None => SettingsReply {
            web_search_mode: HostedWebSearchMode::Cached,
            web_search_external_provider: None,
            web_search_providers: Vec::new(),
            search_index_enabled: true,
            shell: default_shell,
            shell_options: default_shell_options,
            file_backed_dynamic_context: true,
        },
    }
}

} // verus!
