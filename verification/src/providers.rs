//! Providers and models in the provider menu: how a provider/model pair is
//! labelled, where a provider's API key is made, which providers log in
//! through the server, and how menu entries are ranked against the search
//! text.
use vstd::prelude::*;
use vstd::string::StringSliceAdditionalSpecFns;
use vstd::utf8::encode_utf8;
use crate::commands::{find_ws, first_ws, lemma_first_ws_bounds};
use crate::paste::views;
use crate::text::{
    ascii_lower,
    chars_of,
    find_char,
    first_index_of,
    is_whitespace,
    is_ws,
    lemma_first_index_bounds,
    push_str,
    str_eq,
    string_from,
    string_of,
    trim,
    trim_range,
};

verus! {

broadcast use vstd::string::group_string_axioms;

/// A provider id with `.` and `_` read as `-` and ASCII letters lower-cased.
pub open spec fn fold_id(s: Seq<char>) -> Seq<char> {
    s.map_values(
        |c: char|
            if c == '.' || c == '_' {
                '-'
            } else {
                ascii_lower(c)
            },
    )
}

/// The label of a provider/model pair: the model id alone when its first
/// `/`-separated segment already names the provider (modulo the spelling
/// that `fold_id` forgets), else `provider/model`.
pub open spec fn model_label(provider_id: Seq<char>, model_name: Seq<char>) -> Seq<char> {
    let i = first_index_of(model_name, '/');
    if 0 < i < model_name.len() && fold_id(model_name.subrange(0, i)) == fold_id(provider_id) {
        model_name
    } else {
        provider_id + "/"@ + model_name
    }
}

fn fold_char(c: char) -> (r: char)
    ensures
        r == (if c == '.' || c == '_' {
            '-'
        } else {
            ascii_lower(c)
        }),
{
    if c == '.' || c == '_' {
        '-'
    } else {
        crate::text::to_ascii_lower(c)
    }
}

/// Whether `a[a0..a1]` and `b` are the same once folded.
fn folded_eq(a: &Vec<char>, a0: usize, a1: usize, b: &Vec<char>) -> (r: bool)
    requires
        a0 <= a1 <= a@.len(),
    ensures
        r == (fold_id(a@.subrange(a0 as int, a1 as int)) == fold_id(b@)),
{
    let ghost fa = fold_id(a@.subrange(a0 as int, a1 as int));
    let ghost fb = fold_id(b@);
    if a1 - a0 != b.len() {
        assert(fa.len() != fb.len());
        return false;
    }
    let mut i: usize = 0;
    while i < b.len()
        invariant
            a0 <= a1 <= a@.len(),
            a1 - a0 == b@.len(),
            0 <= i <= b@.len(),
            fa == fold_id(a@.subrange(a0 as int, a1 as int)),
            fb == fold_id(b@),
            forall|k: int| 0 <= k < i ==> fa[k] == fb[k],
        decreases b@.len() - i,
    {
        if fold_char(a[a0 + i]) != fold_char(b[i]) {
            assert(fa[i as int] != fb[i as int]);
            return false;
        }
        i += 1;
    }
    assert(fa =~= fb);
    true
}

/// The label of a provider/model pair in the menus: `roder.cloud/free` for
/// provider `roder-cloud` and that model, `openrouter/x-ai/grok` otherwise.
pub fn provider_model_label(provider_id: &str, model_name: &str) -> (r: String)
    ensures
        r@ == model_label(provider_id@, model_name@),
{
    let m = chars_of(model_name);
    let p = chars_of(provider_id);
    proof {
        lemma_first_index_bounds(m@, '/');
    }
    let i = match find_char(&m, 0, m.len(), '/') {
        Some(i) => i,
        None => m.len(),
    };
    proof {
        let fi = first_index_of(m@, '/');
        if i < fi {
            assert(m@[i as int] == '/');
        } else if fi < i {
            assert(m@[fi] != '/');
        }
    }
    if 0 < i && i < m.len() && folded_eq(&m, 0, i, &p) {
        string_from(model_name)
    } else {
        let mut r = string_from(provider_id);
        push_str(&mut r, "/");
        push_str(&mut r, model_name);
        r
    }
}

pub open spec fn api_key_url(provider_id: Seq<char>) -> Seq<char> {
    if provider_id == "cursor"@ {
        "https://cursor.com/dashboard/integrations"@
    } else if provider_id == "poolside"@ {
        "https://platform.poolside.ai/api-keys"@
    } else {
        "https://opencode.ai/auth"@
    }
}

/// The page where an API key for the provider is created.
pub fn provider_api_key_url(provider_id: &str) -> (r: &'static str)
    ensures
        r@ == api_key_url(provider_id@),
{
    if str_eq(provider_id, "cursor") {
        "https://cursor.com/dashboard/integrations"
    } else if str_eq(provider_id, "poolside") {
        "https://platform.poolside.ai/api-keys"
    } else {
        "https://opencode.ai/auth"
    }
}

/// A provider that logs in through the server's auth methods.
#[derive(Debug, Clone, Copy, PartialEq, Eq)]
pub struct ProviderAuthFlow {
    pub provider_id: &'static str,
    pub display_name: &'static str,
    pub login_method: &'static str,
    pub logout_method: &'static str,
}

/// The name shown for each provider that logs in through the server.
pub open spec fn auth_display_name(provider_id: Seq<char>) -> Option<Seq<char>> {
    if provider_id == "codex"@ {
        Some("Codex"@)
    } else if provider_id == "supergrok"@ {
        Some("SuperGrok"@)
    } else if provider_id == "kimi-code"@ {
        Some("Kimi Code"@)
    } else {
        None
    }
}

impl ProviderAuthFlow {
    pub open spec fn flow_of(self, provider_id: Seq<char>, display_name: Seq<char>) -> bool {
        &&& self.provider_id@ == provider_id
        &&& self.display_name@ == display_name
        &&& self.login_method@ == "auth/"@ + provider_id + "/login"@
        &&& self.logout_method@ == "auth/"@ + provider_id + "/logout"@
    }

    /// The login flow of a provider: `auth/<id>/login` and
    /// `auth/<id>/logout` for the providers that have one.
    pub fn for_provider(provider_id: &str) -> (r: Option<Self>)
        ensures
            r is Some <==> auth_display_name(provider_id@) is Some,
            r matches Some(f) ==> f.flow_of(provider_id@, auth_display_name(provider_id@)->0),
    {
        proof {
            reveal_strlit("codex");
            reveal_strlit("supergrok");
            reveal_strlit("kimi-code");
            reveal_strlit("auth/");
            reveal_strlit("/login");
            reveal_strlit("/logout");
            reveal_strlit("auth/codex/login");
            reveal_strlit("auth/codex/logout");
            reveal_strlit("auth/supergrok/login");
            reveal_strlit("auth/supergrok/logout");
            reveal_strlit("auth/kimi-code/login");
            reveal_strlit("auth/kimi-code/logout");
        }
        if str_eq(provider_id, "codex") {
            let f = ProviderAuthFlow {
                provider_id: "codex",
                display_name: "Codex",
                login_method: "auth/codex/login",
                logout_method: "auth/codex/logout",
            };
            assert(f.login_method@ =~= "auth/"@ + provider_id@ + "/login"@);
            assert(f.logout_method@ =~= "auth/"@ + provider_id@ + "/logout"@);
            Some(f)
        } else if str_eq(provider_id, "supergrok") {
            let f = ProviderAuthFlow {
                provider_id: "supergrok",
                display_name: "SuperGrok",
                login_method: "auth/supergrok/login",
                logout_method: "auth/supergrok/logout",
            };
            assert(f.login_method@ =~= "auth/"@ + provider_id@ + "/login"@);
            assert(f.logout_method@ =~= "auth/"@ + provider_id@ + "/logout"@);
            Some(f)
        } else if str_eq(provider_id, "kimi-code") {
            let f = ProviderAuthFlow {
                provider_id: "kimi-code",
                display_name: "Kimi Code",
                login_method: "auth/kimi-code/login",
                logout_method: "auth/kimi-code/logout",
            };
            assert(f.login_method@ =~= "auth/"@ + provider_id@ + "/login"@);
            assert(f.logout_method@ =~= "auth/"@ + provider_id@ + "/logout"@);
            Some(f)
        } else {
            None
        }
    }
}

/// What `str::to_lowercase` returns for a string of these characters (full
/// Unicode lower-casing).
pub uninterp spec fn lowercase_of(s: Seq<char>) -> Seq<char>;

/// `str::to_lowercase`.
#[verifier::external_body]
fn to_lowercase(s: &str) -> (r: String)
    ensures
        r@ == lowercase_of(s@),
{
    s.to_lowercase()
}

/// The search text of the provider menu: trimmed and lower-cased.
pub fn normalize_provider_search_text(text: &str) -> (r: String)
    ensures
        r@ == lowercase_of(trim(text@)),
{
    let v = chars_of(text);
    let (a, b) = trim_range(&v, 0, v.len());
    assert(v@.subrange(0, v@.len() as int) =~= v@);
    let trimmed = string_of(&v, a, b);
    to_lowercase(trimmed.as_str())
}

/// The whitespace-separated words of `s` from position `i` on.
pub open spec fn words_from(s: Seq<char>, i: int) -> Seq<Seq<char>>
    decreases s.len() - i,
{
    if i < 0 || i >= s.len() {
        seq![]
    } else if is_ws(s[i]) {
        words_from(s, i + 1)
    } else {
        let rest = s.subrange(i, s.len() as int);
        proof {
            assert(rest[0] == s[i]);
            lemma_first_ws_bounds(rest);
        }
        let e = i + first_ws(rest);
        seq![s.subrange(i, e)] + words_from(s, e)
    }
}

/// The words of `s` as `str::split_whitespace` yields them.
pub open spec fn words(s: Seq<char>) -> Seq<Seq<char>> {
    words_from(s, 0)
}

/// The words of `v`, each as a string.
pub(crate) fn split_words(v: &Vec<char>) -> (r: Vec<String>)
    ensures
        views(r@) == words(v@),
{
    let n = v.len();
    let mut r: Vec<String> = Vec::new();
    let mut i: usize = 0;
    assert(views(r@) =~= Seq::<Seq<char>>::empty());
    assert(words(v@) =~= views(r@) + words_from(v@, 0));
    while i < n
        invariant
            n == v@.len(),
            0 <= i <= n,
            words(v@) == views(r@) + words_from(v@, i as int),
        decreases n - i,
    {
        if is_whitespace(v[i]) {
            i += 1;
        } else {
            let e = find_ws(v, i, n);
            let ghost rest = v@.subrange(i as int, n as int);
            proof {
                assert(rest[0] == v@[i as int]);
                lemma_first_ws_bounds(rest);
            }
            let w = string_of(v, i, e);
            let ghost before = r@;
            r.push(w);
            proof {
                assert(views(r@) =~= views(before).push(v@.subrange(i as int, e as int)));
                assert(words_from(v@, i as int) == seq![v@.subrange(i as int, e as int)]
                    + words_from(v@, e as int));
                assert(views(before) + words_from(v@, i as int) =~= views(r@) + words_from(
                    v@,
                    e as int,
                ));
            }
            i = e;
        }
    }
    assert(words_from(v@, n as int) =~= Seq::<Seq<char>>::empty());
    assert(views(r@) + Seq::<Seq<char>>::empty() =~= views(r@));
    r
}

/// The first position `p >= from` at which `w` occurs in `h`.
pub open spec fn find_from(h: Seq<u8>, w: Seq<u8>, p: int) -> Option<int>
    decreases h.len() + 1 - p,
{
    if p < 0 || p + w.len() > h.len() {
        None
    } else if h.subrange(p, p + w.len()) == w {
        Some(p)
    } else {
        find_from(h, w, p + 1)
    }
}

proof fn lemma_find_from_bounds(h: Seq<u8>, w: Seq<u8>, p: int)
    ensures
        find_from(h, w, p) matches Some(q) ==> p <= q && q + w.len() <= h.len(),
    decreases h.len() + 1 - p,
{
    if p >= 0 && p + w.len() <= h.len() && h.subrange(p, p + w.len()) != w {
        lemma_find_from_bounds(h, w, p + 1);
    }
}

fn bytes_at(h: &[u8], p: usize, w: &[u8]) -> (r: bool)
    requires
        p + w@.len() <= h@.len(),
    ensures
        r == (h@.subrange(p as int, p + w@.len()) == w@),
{
    let hl = h.len();
    let mut k: usize = 0;
    while k < w.len()
        invariant
            hl == h@.len(),
            p + w@.len() <= h@.len(),
            0 <= k <= w@.len(),
            forall|j: int| 0 <= j < k ==> h@[p + j] == w@[j],
        decreases w@.len() - k,
    {
        if h[p + k] != w[k] {
            assert(h@.subrange(p as int, p + w@.len())[k as int] != w@[k as int]);
            return false;
        }
        k += 1;
    }
    assert(h@.subrange(p as int, p + w@.len()) =~= w@);
    true
}

/// `find_from` over byte slices.
fn find_bytes_from(h: &[u8], w: &[u8], from: usize) -> (r: Option<usize>)
    requires
        from <= h@.len(),
    ensures
        match r {
            Some(p) => find_from(h@, w@, from as int) == Some(p as int),
            None => find_from(h@, w@, from as int) is None,
        },
{
    if w.len() > h.len() - from {
        return None;
    }
    let last = h.len() - w.len();
    let mut p = from;
    loop
        invariant
            from <= p <= last,
            last + w@.len() == h@.len(),
            find_from(h@, w@, from as int) == find_from(h@, w@, p as int),
        decreases last - p,
    {
        if bytes_at(h, p, w) {
            return Some(p);
        }
        if p == last {
            assert(find_from(h@, w@, p + 1) is None);
            return None;
        }
        p += 1;
    }
}

pub open spec fn min_int(a: int, b: int) -> int {
    if a <= b {
        a
    } else {
        b
    }
}

/// The fuzzy score of the words `toks` against the bytes `t`, searching
/// from byte `from` with the score so far: each word must occur after the
/// previous one, and costs the gap before it (at most 40).
pub open spec fn fuzzy_from(t: Seq<u8>, toks: Seq<Seq<char>>, from: int, score: int) -> Option<int>
    decreases toks.len(),
{
    if toks.len() == 0 {
        Some(score)
    } else {
        let w = encode_utf8(toks[0]);
        match find_from(t, w, from) {
            None => None,
            Some(p) => fuzzy_from(t, toks.drop_first(), p + w.len(), score - min_int(p - from, 40)),
        }
    }
}

/// The fuzzy score of `query` against `text`: 120, less the gap before each
/// word of the query, the words found in order; nothing if one is missing.
pub open spec fn fuzzy_score(text: Seq<char>, query: Seq<char>) -> Option<int> {
    fuzzy_from(encode_utf8(text), words(query), 0, 120)
}

/// The most words of a query for which a score cannot leave `i32`: each
/// word costs at most 40 from the starting 120, and 120 - 40 * 53_687_094
/// is the last such total at or above `i32::MIN`; with one word more an
/// `i32` score can overflow.
pub open spec fn max_query_words() -> nat {
    53_687_094
}

/// The fuzzy score of `query` against (lower-cased) `text`.
pub fn fuzzy_word_match_score(text: &str, query: &str) -> (r: Option<i32>)
    requires
        words(query@).len() <= max_query_words(),
    ensures
        match r {
            Some(s) => fuzzy_score(text@, query@) == Some(s as int),
            None => fuzzy_score(text@, query@) is None,
        },
{
    let t = text.as_bytes();
    let tl = t.len();
    let qv = chars_of(query);
    let toks = split_words(&qv);
    let ghost all = words(query@);
    let mut score: i32 = 120;
    let mut search_from: usize = 0;
    let mut k: usize = 0;
    assert(all.subrange(0, all.len() as int) =~= all);
    while k < toks.len()
        invariant
            t@ == text.spec_bytes(),
            t@ == encode_utf8(text@),
            tl == t@.len(),
            views(toks@) == all,
            all == words(query@),
            all.len() <= max_query_words(),
            0 <= k <= all.len(),
            search_from <= t@.len(),
            120 - 40 * k <= score <= 120,
            fuzzy_score(text@, query@) == fuzzy_from(
                t@,
                all.subrange(k as int, all.len() as int),
                search_from as int,
                score as int,
            ),
        decreases all.len() - k,
    {
        let ghost rest = all.subrange(k as int, all.len() as int);
        assert(rest[0] == toks@[k as int]@);
        let token = toks[k].as_str();
        let w = token.as_bytes();
        match find_bytes_from(t, w, search_from) {
            None => {
                return None;
            },
            Some(p) => {
                proof {
                    lemma_find_from_bounds(t@, w@, search_from as int);
                }
                let gap = p - search_from;
                let cost: i32 = if gap < 40 {
                    gap as i32
                } else {
                    40
                };
                assert(rest.drop_first() =~= all.subrange(k + 1, all.len() as int));
                score = score - cost;
                search_from = p + w.len();
                k += 1;
            },
        }
    }
    assert(all.subrange(k as int, all.len() as int).len() == 0);
    Some(score)
}

/// The score of a search query against an already lower-cased text: 400
/// for the whole text, 320 less its length (at most 120) for a prefix, 220
/// less the position (at most 120) for a substring, else the fuzzy score.
pub open spec fn lowered_score(lowered: Seq<char>, query: Seq<char>) -> Option<int> {
    let t = encode_utf8(lowered);
    let q = encode_utf8(query);
    if t == q {
        Some(400)
    } else if q.len() <= t.len() && t.subrange(0, q.len() as int) == q {
        Some(320 - min_int(t.len() as int, 120))
    } else {
        match find_from(t, q, 0) {
            Some(p) => Some(220 - min_int(p, 120)),
            None => fuzzy_score(lowered, query),
        }
    }
}

/// The score of a query against a text already lower-cased.
pub fn lowered_match_score(lowered: &str, query: &str) -> (r: Option<i32>)
    requires
        words(query@).len() <= max_query_words(),
    ensures
        match r {
            Some(s) => lowered_score(lowered@, query@) == Some(s as int),
            None => lowered_score(lowered@, query@) is None,
        },
{
    let t = lowered.as_bytes();
    let q = query.as_bytes();
    if t.len() == q.len() && bytes_at(t, 0, q) {
        assert(t@.subrange(0, q@.len() as int) =~= t@);
        return Some(400);
    }
    proof {
        if t@ == q@ {
            assert(t@.subrange(0, q@.len() as int) =~= t@);
        }
    }
    if q.len() <= t.len() && bytes_at(t, 0, q) {
        let n: i32 = if t.len() < 120 {
            t.len() as i32
        } else {
            120
        };
        return Some(320 - n);
    }
    match find_bytes_from(t, q, 0) {
        Some(p) => {
            let n: i32 = if p < 120 {
                p as i32
            } else {
                120
            };
            Some(220 - n)
        },
        None => fuzzy_word_match_score(lowered, query),
    }
}

/// The score of a provider-menu text against the search query, if it
/// matches at all; the text is lower-cased first.
pub fn text_match_score(text: &str, query: &str) -> (r: Option<i32>)
    requires
        words(query@).len() <= max_query_words(),
    ensures
        match r {
            Some(s) => lowered_score(lowercase_of(text@), query@) == Some(s as int),
            None => lowered_score(lowercase_of(text@), query@) is None,
        },
{
    let lowered = to_lowercase(text);
    lowered_match_score(lowered.as_str(), query)
}

proof fn lemma_fuzzy_from_bounds(t: Seq<u8>, toks: Seq<Seq<char>>, from: int, score: int)
    ensures
        fuzzy_from(t, toks, from, score) matches Some(r) ==> score - 40 * toks.len() <= r <= score,
    decreases toks.len(),
{
    if toks.len() > 0 {
        let w = encode_utf8(toks[0]);
        match find_from(t, w, from) {
            None => {},
            Some(p) => {
                lemma_fuzzy_from_bounds(t, toks.drop_first(), p + w.len(), score - min_int(p - from, 40));
                lemma_find_from_bounds(t, w, from);
            },
        }
    }
}

/// Every score lies between the lowest fuzzy score and 400.
pub proof fn lemma_lowered_score_bounds(lowered: Seq<char>, query: Seq<char>)
    requires
        words(query).len() <= max_query_words(),
    ensures
        lowered_score(lowered, query) matches Some(s) ==> i32::MIN <= s <= 400,
{
    lemma_fuzzy_from_bounds(encode_utf8(lowered), words(query), 0, 120);
    lemma_find_from_bounds(encode_utf8(lowered), encode_utf8(query), 0);
}

/// An exact match scores 400 and nothing else does; a text that contains
/// the query (as its start or further in) scores between 100 and 320; any
/// other match, a fuzzy one, scores at most 120. So an exact match outranks
/// every other match, and a contained one every fuzzy one.
pub proof fn law_match_score_ranges(lowered: Seq<char>, query: Seq<char>)
    ensures
        (lowered_score(lowered, query) == Some(400int)) <==> lowered == query,
        lowered != query && find_from(encode_utf8(lowered), encode_utf8(query), 0) is Some
            ==> (lowered_score(lowered, query) matches Some(s) && 100 <= s <= 320),
        find_from(encode_utf8(lowered), encode_utf8(query), 0) is None ==> (lowered_score(
            lowered,
            query,
        ) matches Some(s) ==> s <= 120),
{
    let t = encode_utf8(lowered);
    let q = encode_utf8(query);
    vstd::utf8::encode_utf8_decode_utf8(lowered);
    vstd::utf8::encode_utf8_decode_utf8(query);
    lemma_fuzzy_from_bounds(t, words(query), 0, 120);
    lemma_find_from_bounds(t, q, 0);
    if t == q {
        assert(t.subrange(0, q.len() as int) =~= q);
    }
    if q.len() <= t.len() && t.subrange(0, q.len() as int) == q {
        assert(find_from(t, q, 0) == Some(0int));
    }
}

/// The outcome of a provider sign-in or sign-out request.
#[derive(Debug, Clone, PartialEq, Eq)]
pub struct ProviderAuthResult {
    pub signed_in: bool,
    pub account_id: Option<String>,
}

/// The line shown after an auth request: a sign-out (or a request that
/// left the provider signed out) reads `signed out of`, a sign-in names
/// the account when there is one.
pub open spec fn auth_message(
    display_name: Seq<char>,
    logout_method: Seq<char>,
    method: Seq<char>,
    result: ProviderAuthResult,
) -> Seq<char> {
    if method == logout_method || !result.signed_in {
        "system: signed out of "@ + display_name + "."@
    } else {
        match result.account_id {
            Some(a) => "system: signed in with "@ + display_name + " account "@ + a@ + "."@,
            None => "system: signed in with "@ + display_name + "."@,
        }
    }
}

pub fn provider_auth_message(display_name: &str, logout_method: &str, method: &str, result: &ProviderAuthResult) -> (r: String)
    ensures
        r@ == auth_message(display_name@, logout_method@, method@, *result),
{
    if str_eq(method, logout_method) || !result.signed_in {
        let mut out = string_from("system: signed out of ");
        push_str(&mut out, display_name);
        push_str(&mut out, ".");
        return out;
    }
    let mut out = string_from("system: signed in with ");
    push_str(&mut out, display_name);
    match &result.account_id {
        Some(a) => {
            push_str(&mut out, " account ");
            push_str(&mut out, a.as_str());
        },
        None => {},
    }
    push_str(&mut out, ".");
    out
}

/// The event-log word for an auth outcome.
pub fn provider_auth_event(result: &ProviderAuthResult) -> (r: &'static str)
    ensures
        r@ == (if result.signed_in {
            "signed in"@
        } else {
            "signed out"@
        }),
{
    if result.signed_in {
        "signed in"
    } else {
        "signed out"
    }
}

} // verus!
