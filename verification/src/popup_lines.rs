//! The lines of the provider popup around its list: the search line, the
//! API key prompt's input line, and the instructions for pasting a key.
use vstd::prelude::*;
use crate::menu::ProviderChoice;
use crate::providers::{api_key_url, provider_api_key_url};
use crate::text::{push_str, string_from, trim, trimmed};
use crate::timeline_rows::{line_view, lines_view, StyledLine, TextRole};

verus! {

broadcast use vstd::string::group_string_axioms;

fn piece(text: &str, role: TextRole) -> (r: (String, TextRole))
    ensures
        r.0@ == text@,
        r.1 == role,
{
    (string_from(text), role)
}

/// The search line: the trimmed search text, or a placeholder while there
/// is none.
pub open spec fn search_line(query: Seq<char>) -> Seq<(Seq<char>, TextRole)> {
    let q = trim(query);
    seq![
        (" / "@, TextRole::Accent),
        if q.len() == 0 {
            ("type to filter"@, TextRole::Muted)
        } else {
            (q, TextRole::Text)
        },
        ("  "@, TextRole::Muted),
    ]
}

pub fn provider_search_line(query: &str) -> (r: StyledLine)
    ensures
        line_view(r@) == search_line(query@),
{
    let q = trimmed(query);
    let mut l: StyledLine = Vec::new();
    l.push(piece(" / ", TextRole::Accent));
    if q.as_str().is_empty() {
        l.push(piece("type to filter", TextRole::Muted));
    } else {
        l.push((q, TextRole::Text));
    }
    l.push(piece("  ", TextRole::Muted));
    assert(line_view(l@) =~= search_line(query@));
    l
}

/// The API key prompt's input line: the key itself never shows, only
/// whether one was pasted.
pub open spec fn api_key_input_line(query: Seq<char>) -> Seq<(Seq<char>, TextRole)> {
    seq![
        (" key "@, TextRole::Accent),
        if trim(query).len() == 0 {
            ("paste API key"@, TextRole::Muted)
        } else {
            ("[api key hidden]"@, TextRole::Text)
        },
        ("  enter save"@, TextRole::Muted),
    ]
}

pub fn provider_api_key_input_line(query: &str) -> (r: StyledLine)
    ensures
        line_view(r@) == api_key_input_line(query@),
{
    let q = trimmed(query);
    let mut l: StyledLine = Vec::new();
    l.push(piece(" key ", TextRole::Accent));
    if q.as_str().is_empty() {
        l.push(piece("paste API key", TextRole::Muted));
    } else {
        l.push(piece("[api key hidden]", TextRole::Text));
    }
    l.push(piece("  enter save", TextRole::Muted));
    assert(line_view(l@) =~= api_key_input_line(query@));
    l
}

/// The instructions of the API key prompt: the page to open, what to do
/// there, the keys, and whether a key was pasted yet.
pub open spec fn api_key_items(provider: Option<ProviderChoice>, query: Seq<char>) -> Seq<Seq<(Seq<char>, TextRole)>> {
    let name = match provider {
        Some(p) => p.name@,
        None => "provider"@,
    };
    let url = match provider {
        Some(p) => api_key_url(p.provider_id@),
        None => "https://opencode.ai/auth"@,
    };
    seq![
        seq![("Open "@, TextRole::Text), (url, TextRole::Accent)],
        seq![("Create or copy a "@ + name + " API key, then paste it here."@, TextRole::Text)],
        seq![
            ("Ctrl+O"@, TextRole::Accent),
            (" open page  "@, TextRole::Muted),
            ("Enter"@, TextRole::Accent),
            (" save  "@, TextRole::Muted),
            ("Esc"@, TextRole::Accent),
            (" back"@, TextRole::Muted),
        ],
        seq![
            (if trim(query).len() == 0 {
                "waiting for key"@
            } else {
                "key pasted"@
            }, TextRole::Muted),
        ],
    ]
}

pub fn provider_api_key_items(provider: Option<&ProviderChoice>, query: &str) -> (r: Vec<StyledLine>)
    ensures
        lines_view(r@) == api_key_items(
            match provider {
                Some(p) => Some(*p),
                None => None,
            },
            query@,
        ),
{
    let mut open: StyledLine = Vec::new();
    open.push(piece("Open ", TextRole::Text));
    open.push(
        piece(
            match provider {
                Some(p) => provider_api_key_url(p.provider_id.as_str()),
                None => "https://opencode.ai/auth",
            },
            TextRole::Accent,
        ),
    );
    let mut message = string_from("Create or copy a ");
    match provider {
        Some(p) => push_str(&mut message, p.name.as_str()),
        None => push_str(&mut message, "provider"),
    }
    push_str(&mut message, " API key, then paste it here.");
    let mut create: StyledLine = Vec::new();
    create.push((message, TextRole::Text));
    let mut keys: StyledLine = Vec::new();
    keys.push(piece("Ctrl+O", TextRole::Accent));
    keys.push(piece(" open page  ", TextRole::Muted));
    keys.push(piece("Enter", TextRole::Accent));
    keys.push(piece(" save  ", TextRole::Muted));
    keys.push(piece("Esc", TextRole::Accent));
    keys.push(piece(" back", TextRole::Muted));
    let q = trimmed(query);
    let mut status: StyledLine = Vec::new();
    status.push(
        piece(
            if q.as_str().is_empty() {
                "waiting for key"
            } else {
                "key pasted"
            },
            TextRole::Muted,
        ),
    );
    let ghost want = api_key_items(
        match provider {
            Some(p) => Some(*p),
            None => None,
        },
        query@,
    );
    assert(line_view(open@) =~= want[0]);
    assert(line_view(create@) =~= want[1]);
    assert(line_view(keys@) =~= want[2]);
    assert(line_view(status@) =~= want[3]);
    let mut r: Vec<StyledLine> = Vec::new();
    r.push(open);
    r.push(create);
    r.push(keys);
    r.push(status);
    assert(lines_view(r@) =~= api_key_items(
        match provider {
            Some(p) => Some(*p),
            None => None,
        },
        query@,
    ));
    r
}

} // verus!
