//! The provider menu's search: the providers and models it lists, how an
//! entry scores against the search text, and the filtered, ranked and
//! grouped list that the menu shows while the user types.
use vstd::prelude::*;
use crate::providers::{
    lowercase_of,
    lowered_score,
    max_query_words,
    normalize_provider_search_text,
    split_words,
    text_match_score,
    words,
};
use crate::text::{push_str, string_from};
use crate::menu_item::{item_label, ProviderMenuItem};

verus! {

broadcast use vstd::string::group_string_axioms;

/// How a provider authenticates.
#[derive(Debug, Clone, Copy, PartialEq, Eq, Structural)]
pub enum ProviderAuthType {
    /// No sign-in is needed.
    NoAuth,
    ApiKey,
    OAuth,
}

/// A provider in the providers submenu.
#[derive(Debug, Clone, PartialEq, Eq)]
pub struct ProviderChoice {
    pub provider_id: String,
    pub name: String,
    pub description: Option<String>,
    pub auth_type: ProviderAuthType,
    pub authenticated: bool,
    pub auth_detail: Option<String>,
    pub default_model: Option<String>,
    pub recommended: bool,
}

/// A model of a provider in the models submenu.
#[derive(Debug, Clone, PartialEq, Eq)]
pub struct ProviderOption {
    pub provider_id: String,
    pub provider_name: String,
    pub provider_auth_type: ProviderAuthType,
    pub provider_authenticated: bool,
    pub model_id: String,
    pub routing_option_id: Option<String>,
    pub label: String,
    pub context_window: Option<u32>,
    pub default_reasoning: Option<String>,
}

/// A reasoning effort that a model supports.
#[derive(Debug, Clone, PartialEq, Eq)]
pub struct ReasoningEffort {
    pub effort: String,
    pub description: String,
}

/// A copy of an optional string.
pub fn copy_opt_string(s: &Option<String>) -> (r: Option<String>)
    ensures
        r == *s,
{
    match s {
        Some(v) => Some(v.clone()),
        None => None,
    }
}

impl ReasoningEffort {
    pub fn duplicate(&self) -> (r: Self)
        ensures
            r == *self,
    {
        ReasoningEffort { effort: self.effort.clone(), description: self.description.clone() }
    }
}

impl ProviderChoice {
    pub fn duplicate(&self) -> (r: Self)
        ensures
            r == *self,
    {
        ProviderChoice {
            provider_id: self.provider_id.clone(),
            name: self.name.clone(),
            description: copy_opt_string(&self.description),
            auth_type: self.auth_type,
            authenticated: self.authenticated,
            auth_detail: copy_opt_string(&self.auth_detail),
            default_model: copy_opt_string(&self.default_model),
            recommended: self.recommended,
        }
    }
}

impl ProviderOption {
    pub fn duplicate(&self) -> (r: Self)
        ensures
            r == *self,
    {
        ProviderOption {
            provider_id: self.provider_id.clone(),
            provider_name: self.provider_name.clone(),
            provider_auth_type: self.provider_auth_type,
            provider_authenticated: self.provider_authenticated,
            model_id: self.model_id.clone(),
            routing_option_id: copy_opt_string(&self.routing_option_id),
            label: self.label.clone(),
            context_window: self.context_window,
            default_reasoning: copy_opt_string(&self.default_reasoning),
        }
    }
}

pub open spec fn needs_sign_in(auth_type: ProviderAuthType, authenticated: bool) -> bool {
    (auth_type == ProviderAuthType::ApiKey || auth_type == ProviderAuthType::OAuth) && !authenticated
}

/// The menu label of a provider: its name, then `(Recommended)` or its
/// description, then how it signs in.
pub open spec fn choice_label(p: ProviderChoice) -> Seq<char> {
    let base = p.name@ + if p.recommended {
        " (Recommended)"@
    } else {
        match p.description {
            Some(d) => " ("@ + d@ + ")"@,
            None => ""@,
        }
    };
    base + if p.auth_type == ProviderAuthType::OAuth && !p.authenticated {
        " - sign in"@
    } else if p.auth_type == ProviderAuthType::OAuth && p.auth_detail is Some {
        " - signed in"@
    } else if p.auth_type == ProviderAuthType::ApiKey && p.authenticated {
        " - API key configured"@
    } else if p.auth_type == ProviderAuthType::ApiKey {
        " - paste API key"@
    } else {
        ""@
    }
}

impl ProviderChoice {
    /// Whether the provider must be signed in to before use.
    pub fn requires_authentication(&self) -> (r: bool)
        ensures
            r == needs_sign_in(self.auth_type, self.authenticated),
    {
        (self.auth_type == ProviderAuthType::ApiKey || self.auth_type == ProviderAuthType::OAuth)
            && !self.authenticated
    }

    pub fn label(&self) -> (r: String)
        ensures
            r@ == choice_label(*self),
    {
        let mut label = string_from(self.name.as_str());
        if self.recommended {
            push_str(&mut label, " (Recommended)");
        } else {
            match &self.description {
                Some(d) => {
                    push_str(&mut label, " (");
                    push_str(&mut label, d.as_str());
                    push_str(&mut label, ")");
                },
                None => {},
            }
        }
        let suffix = if self.auth_type == ProviderAuthType::OAuth && !self.authenticated {
            " - sign in"
        } else if self.auth_type == ProviderAuthType::OAuth && self.auth_detail.is_some() {
            " - signed in"
        } else if self.auth_type == ProviderAuthType::ApiKey && self.authenticated {
            " - API key configured"
        } else if self.auth_type == ProviderAuthType::ApiKey {
            " - paste API key"
        } else {
            ""
        };
        push_str(&mut label, suffix);
        proof {
            reveal_strlit("");
        }
        assert(label@ =~= choice_label(*self));
        label
    }
}

impl ProviderOption {
    /// Whether the model's provider must be signed in to before use.
    pub fn requires_provider_authentication(&self) -> (r: bool)
        ensures
            r == needs_sign_in(self.provider_auth_type, self.provider_authenticated),
    {
        (self.provider_auth_type == ProviderAuthType::ApiKey || self.provider_auth_type
            == ProviderAuthType::OAuth) && !self.provider_authenticated
    }
}


/// The score of `text` against the (normalized) query.
pub open spec fn text_score(text: Seq<char>, q: Seq<char>) -> Option<int> {
    lowered_score(lowercase_of(text), q)
}

pub open spec fn plus(o: Option<int>, bonus: int) -> Option<int> {
    match o {
        Some(s) => Some(s + bonus),
        None => None,
    }
}

pub open spec fn opt_max(a: Option<int>, b: Option<int>) -> Option<int> {
    match (a, b) {
        (Some(x), Some(y)) => Some(
            if x >= y {
                x
            } else {
                y
            },
        ),
        (Some(x), None) => Some(x),
        (None, Some(y)) => Some(y),
        (None, None) => None,
    }
}

pub open spec fn or_else(a: Option<int>, b: Option<int>) -> Option<int> {
    if a is Some {
        a
    } else {
        b
    }
}

/// A model scores best on its id, then its provider's id, then its
/// provider's name, then its label.
pub open spec fn model_score(o: ProviderOption, q: Seq<char>) -> Option<int> {
    opt_max(
        opt_max(plus(text_score(o.model_id@, q), 80), plus(text_score(o.provider_id@, q), 45)),
        opt_max(plus(text_score(o.provider_name@, q), 35), text_score(o.label@, q)),
    )
}

/// A provider scores on its id (with a bonus), else its name, else its
/// label.
pub open spec fn choice_score(p: ProviderChoice, q: Seq<char>) -> Option<int> {
    or_else(
        plus(text_score(p.provider_id@, q), 20),
        or_else(text_score(p.name@, q), text_score(choice_label(p), q)),
    )
}

/// The score of an entry; section headers never match.
pub open spec fn entry_score(e: ProviderMenuItem, q: Seq<char>) -> Option<int> {
    match e {
        ProviderMenuItem::Section(_) => None,
        ProviderMenuItem::Model(o) => model_score(o, q),
        ProviderMenuItem::Provider(p) => choice_score(p, q),
        _ => text_score(item_label(e), q),
    }
}

/// Scores of a menu text stay within these bounds.
pub open spec fn score_in_range(s: Option<int>) -> bool {
    s matches Some(x) ==> i32::MIN <= x <= 400
}

pub proof fn lemma_lowered_score_range(lowered: Seq<char>, q: Seq<char>)
    requires
        words(q).len() <= max_query_words(),
    ensures
        score_in_range(lowered_score(lowered, q)),
{
    crate::providers::lemma_lowered_score_bounds(lowered, q);
}

fn add_bonus(o: Option<i32>, bonus: i32) -> (r: Option<i32>)
    requires
        0 <= bonus <= 80,
        score_in_range(match o {
            Some(s) => Some(s as int),
            None => None::<int>,
        }),
    ensures
        match r {
            Some(s) => plus(
                match o {
                    Some(s) => Some(s as int),
                    None => None::<int>,
                },
                bonus as int,
            ) == Some(s as int),
            None => o is None,
        },
{
    match o {
        Some(s) => Some(s + bonus),
        None => None,
    }
}

pub open spec fn as_int(o: Option<i32>) -> Option<int> {
    match o {
        Some(s) => Some(s as int),
        None => None,
    }
}

fn max_of(a: Option<i32>, b: Option<i32>) -> (r: Option<i32>)
    ensures
        as_int(r) == opt_max(as_int(a), as_int(b)),
{
    match (a, b) {
        (Some(x), Some(y)) => Some(
            if x >= y {
                x
            } else {
                y
            },
        ),
        (Some(x), None) => Some(x),
        (None, Some(y)) => Some(y),
        (None, None) => None,
    }
}

fn text_score_of(text: &str, q: &str) -> (r: Option<i32>)
    requires
        words(q@).len() <= max_query_words(),
    ensures
        as_int(r) == text_score(text@, q@),
        score_in_range(as_int(r)),
{
    proof {
        lemma_lowered_score_range(lowercase_of(text@), q@);
    }
    text_match_score(text, q)
}

/// The score of a model against the normalized query.
pub fn model_match_score(option: &ProviderOption, query: &str) -> (r: Option<i32>)
    requires
        words(query@).len() <= max_query_words(),
    ensures
        as_int(r) == model_score(*option, query@),
{
    let model_id_score = add_bonus(text_score_of(option.model_id.as_str(), query), 80);
    let provider_id_score = add_bonus(text_score_of(option.provider_id.as_str(), query), 45);
    let provider_name_score = add_bonus(text_score_of(option.provider_name.as_str(), query), 35);
    let label_score = text_score_of(option.label.as_str(), query);
    max_of(
        max_of(model_id_score, provider_id_score),
        max_of(provider_name_score, label_score),
    )
}

/// The score of a provider against the normalized query.
pub fn provider_choice_match_score(provider: &ProviderChoice, query: &str) -> (r: Option<i32>)
    requires
        words(query@).len() <= max_query_words(),
    ensures
        as_int(r) == choice_score(*provider, query@),
{
    let by_id = add_bonus(text_score_of(provider.provider_id.as_str(), query), 20);
    if by_id.is_some() {
        return by_id;
    }
    let by_name = text_score_of(provider.name.as_str(), query);
    if by_name.is_some() {
        return by_name;
    }
    let label = provider.label();
    text_score_of(label.as_str(), query)
}

/// The score of a menu entry against the normalized query.
pub fn provider_menu_match_score(entry: &ProviderMenuItem, query: &str) -> (r: Option<i32>)
    requires
        words(query@).len() <= max_query_words(),
    ensures
        as_int(r) == entry_score(*entry, query@),
{
    match entry {
        ProviderMenuItem::Section(_) => None,
        ProviderMenuItem::Model(option) => model_match_score(option, query),
        ProviderMenuItem::Provider(provider) => provider_choice_match_score(provider, query),
        _ => {
            let label = entry.label();
            text_score_of(label.as_str(), query)
        },
    }
}

/// The score of the entry at `x`.
#[verifier::opaque]
pub open spec fn score_at(items: Seq<ProviderMenuItem>, q: Seq<char>, x: int) -> Option<int> {
    entry_score(items[x], q)
}

/// Whether the entry at `x` is a section header.
pub open spec fn is_section(items: Seq<ProviderMenuItem>, x: int) -> bool {
    0 <= x < items.len() && items[x] is Section
}

/// The last section header before position `i`, if any.
pub open spec fn section_before(items: Seq<ProviderMenuItem>, i: int) -> Option<int>
    decreases i,
{
    if i <= 0 {
        None
    } else if items[i - 1] is Section {
        Some(i - 1)
    } else {
        section_before(items, i - 1)
    }
}

/// Whether the entry at `x` matches the query.
pub open spec fn is_match(items: Seq<ProviderMenuItem>, q: Seq<char>, x: int) -> bool {
    0 <= x < items.len() && score_at(items, q, x) is Some
}

/// The group of the entry at `x`: its own position for a header, else the
/// header above it.
pub open spec fn group_of(items: Seq<ProviderMenuItem>, x: int) -> Option<int> {
    if is_section(items, x) {
        Some(x)
    } else {
        section_before(items, x)
    }
}

/// Whether the match at `x` ranks before the match at `y`: a higher score,
/// or the same score earlier in the menu.
pub open spec fn ranks_before(items: Seq<ProviderMenuItem>, q: Seq<char>, x: int, y: int) -> bool {
    let a = score_at(items, q, x)->0;
    let b = score_at(items, q, y)->0;
    a > b || (a == b && x < y)
}

/// Whether `x` is a match under the header at `s`.
pub open spec fn in_group(items: Seq<ProviderMenuItem>, q: Seq<char>, x: int, s: int) -> bool {
    is_match(items, q, x) && section_before(items, x) == Some(s)
}

/// Whether the header at `s` has a match under it.
pub open spec fn has_match(items: Seq<ProviderMenuItem>, q: Seq<char>, s: int) -> bool {
    is_section(items, s) && exists|x: int| #[trigger] in_group(items, q, x, s)
}

/// Whether the group of header `s1` goes before that of `s2`: its best
/// match ranks before every match of the other.
pub open spec fn group_before(items: Seq<ProviderMenuItem>, q: Seq<char>, s1: int, s2: int) -> bool {
    exists|x: int|
        #![trigger in_group(items, q, x, s1)]
        in_group(items, q, x, s1) && forall|y: int|
            #[trigger] in_group(items, q, y, s2) ==> ranks_before(items, q, x, y)
}

/// Whether the entry at `x` is kept by a search: it matches, or it heads a
/// group with a match.
pub open spec fn kept(items: Seq<ProviderMenuItem>, q: Seq<char>, x: int) -> bool {
    is_match(items, q, x) || has_match(items, q, x)
}

/// What a search for `q` shows of `items`, as positions: every kept entry
/// once; first the matches under no header, best first; then each group
/// with a match, its header followed by its matches best first, the
/// groups ordered by their best match.
pub open spec fn menu_filtered(items: Seq<ProviderMenuItem>, q: Seq<char>, r: Seq<usize>) -> bool {
    &&& forall|i: int, j: int| 0 <= i < j < r.len() ==> r[i] != r[j]
    &&& forall|i: int| 0 <= i < r.len() ==> kept(items, q, #[trigger] r[i] as int)
    &&& forall|x: int| 0 <= x < items.len() && kept(items, q, x) ==> r.contains(x as usize)
    &&& forall|i: int, j: int|
        #![trigger r[i], r[j]]
        0 <= i < j < r.len() && group_of(items, r[i] as int) is Some ==> group_of(
            items,
            r[j] as int,
        ) is Some
    &&& forall|i: int, j: int|
        #![trigger r[i], r[j]]
        0 <= i < j < r.len() && group_of(items, r[i] as int) is None && group_of(
            items,
            r[j] as int,
        ) is None ==> ranks_before(items, q, r[i] as int, r[j] as int)
    &&& forall|i: int, j: int|
        #![trigger r[i], r[j]]
        0 <= i < j < r.len() && group_of(items, r[i] as int) is Some && group_of(
            items,
            r[j] as int,
        ) is Some && group_of(items, r[i] as int) != group_of(items, r[j] as int) ==> group_before(
            items,
            q,
            group_of(items, r[i] as int)->0,
            group_of(items, r[j] as int)->0,
        )
    &&& forall|i: int, j: int|
        #![trigger r[i], r[j]]
        0 <= i < j < r.len() && group_of(items, r[i] as int) is Some && group_of(
            items,
            r[i] as int,
        ) == group_of(items, r[j] as int) ==> r[j] as int != group_of(items, r[j] as int)->0 && (
        r[i] as int != group_of(items, r[i] as int)->0 ==> ranks_before(
            items,
            q,
            r[i] as int,
            r[j] as int,
        ))
}

pub open spec fn all_positions(n: nat) -> Seq<usize> {
    Seq::new(n, |i: int| i as usize)
}

/// Whether the scored match `a` ranks before `b`.
pub open spec fn pair_before(a: (i32, usize), b: (i32, usize)) -> bool {
    a.0 > b.0 || (a.0 == b.0 && a.1 < b.1)
}

/// Whether the scored matches of `l` are in rank order.
pub open spec fn ranked(l: Seq<(i32, usize)>) -> bool {
    forall|i: int, j: int| 0 <= i < j < l.len() ==> pair_before(#[trigger] l[i], #[trigger] l[j])
}

/// Whether each pair of `l` holds an entry's position and its score.
pub open spec fn scored(items: Seq<ProviderMenuItem>, q: Seq<char>, l: Seq<(i32, usize)>) -> bool {
    forall|k: int|
        0 <= k < l.len() ==> (#[trigger] l[k]).1 < items.len() && score_at(items, q, l[k].1 as int)
            == Some(l[k].0 as int)
}

/// Whether position `x` is listed in `l`.
pub open spec fn lists(l: Seq<(i32, usize)>, x: int) -> bool {
    exists|k: int| 0 <= k < l.len() && (#[trigger] l[k]).1 == x
}

/// Inserts `e` into the rank-ordered `list`.
fn insert_ranked(list: &mut Vec<(i32, usize)>, e: (i32, usize))
    requires
        ranked(old(list)@),
        forall|k: int| 0 <= k < old(list)@.len() ==> (#[trigger] old(list)@[k]).1 != e.1,
    ensures
        ranked(final(list)@),
        final(list)@.len() == old(list)@.len() + 1,
        forall|p: (i32, usize)| final(list)@.contains(p) <==> (old(list)@.contains(p) || p == e),
{
    let ghost before = list@;
    let mut p: usize = 0;
    while p < list.len() && (list[p].0 > e.0 || (list[p].0 == e.0 && list[p].1 < e.1))
        invariant
            0 <= p <= list@.len(),
            before == list@,
            ranked(before),
            forall|k: int| 0 <= k < p ==> pair_before(#[trigger] before[k], e),
        decreases list@.len() - p,
    {
        p += 1;
    }
    list.insert(p, e);
    proof {
        let after = list@;
        assert(after =~= before.insert(p as int, e));
        if p < before.len() {
            assert(!pair_before(before[p as int], e));
            assert(pair_before(e, before[p as int]));
        }
        assert forall|i: int, j: int| 0 <= i < j < after.len() implies pair_before(
            #[trigger] after[i],
            #[trigger] after[j],
        ) by {
            if j < p {
                assert(pair_before(before[i], before[j]));
            } else if i < p && j == p {
            } else if i < p && j > p {
                assert(after[j] == before[j - 1]);
                if j - 1 > p {
                    assert(pair_before(before[p as int], before[j - 1]));
                }
            } else if i == p {
                assert(after[j] == before[j - 1]);
                if j - 1 > p {
                    assert(pair_before(before[p as int], before[j - 1]));
                }
            } else {
                assert(after[i] == before[i - 1]);
                assert(after[j] == before[j - 1]);
                assert(pair_before(before[i - 1], before[j - 1]));
            }
        }
        assert forall|y: (i32, usize)| after.contains(y) <==> (before.contains(y) || y == e) by {
            if after.contains(y) {
                let k = choose|k: int| 0 <= k < after.len() && after[k] == y;
                if k < p {
                    assert(before[k] == y);
                } else if k > p {
                    assert(before[k - 1] == y);
                }
            }
            if before.contains(y) {
                let k = choose|k: int| 0 <= k < before.len() && before[k] == y;
                if k < p {
                    assert(after[k] == y);
                } else {
                    assert(after[k + 1] == y);
                }
            }
            if y == e {
                assert(after[p as int] == y);
            }
        }
    }
}

proof fn lemma_section_before(items: Seq<ProviderMenuItem>, x: int)
    requires
        0 <= x <= items.len(),
    ensures
        section_before(items, x) matches Some(s) ==> 0 <= s < x && is_section(items, s) && forall|t: int|
            s < t < x ==> !is_section(items, t),
    decreases x,
{
    if x > 0 && !(items[x - 1] is Section) {
        lemma_section_before(items, x - 1);
    }
}

/// The groups of a search: each header with a match, and its matches in
/// rank order.
pub open spec fn groups_ok(items: Seq<ProviderMenuItem>, q: Seq<char>, g: Seq<(usize, Vec<(i32, usize)>)>) -> bool {
    &&& forall|a: int, b: int| 0 <= a < b < g.len() ==> (#[trigger] g[a]).0 < (#[trigger] g[b]).0
    &&& forall|a: int|
        #![trigger g[a]]
        0 <= a < g.len() ==> {
            &&& is_section(items, g[a].0 as int)
            &&& g[a].1@.len() > 0
            &&& ranked(g[a].1@)
            &&& scored(items, q, g[a].1@)
            &&& forall|k: int|
                0 <= k < g[a].1@.len() ==> section_before(items, (#[trigger] g[a].1@[k]).1 as int)
                    == Some(g[a].0 as int)
            &&& forall|x: int| #[trigger] in_group(items, q, x, g[a].0 as int) ==> lists(g[a].1@, x)
        }
}

/// Whether the header at `s` heads one of the groups `g`.
pub open spec fn heads(g: Seq<(usize, Vec<(i32, usize)>)>, s: int) -> bool {
    exists|a: int| 0 <= a < g.len() && (#[trigger] g[a]).0 == s
}

/// The state of a scan over the menu: the ungrouped matches, the closed
/// groups, and the header and matches of the open group.
struct Scan {
    ungrouped: Vec<(i32, usize)>,
    groups: Vec<(usize, Vec<(i32, usize)>)>,
    cur_sec: Option<usize>,
    cur: Vec<(i32, usize)>,
}

spec fn ung_ok(its: Seq<ProviderMenuItem>, qs: Seq<char>, i: int, u: Seq<(i32, usize)>) -> bool {
    &&& ranked(u)
    &&& scored(its, qs, u)
    &&& forall|k: int| 0 <= k < u.len() ==> (#[trigger] u[k]).1 < i && section_before(its, u[k].1 as int) is None
    &&& forall|x: int| 0 <= x < i && is_match(its, qs, x) && section_before(its, x) is None ==> #[trigger] lists(u, x)
}

spec fn cur_ok(its: Seq<ProviderMenuItem>, qs: Seq<char>, i: int, cs: Option<usize>, c: Seq<(i32, usize)>) -> bool {
    &&& ranked(c)
    &&& scored(its, qs, c)
    &&& match cs {
        Some(s) => section_before(its, i) == Some(s as int),
        None => section_before(its, i) is None && c.len() == 0,
    }
    &&& forall|k: int| 0 <= k < c.len() ==> (#[trigger] c[k]).1 < i && section_before(its, c[k].1 as int) == Some(cs->0 as int)
    &&& cs is Some ==> forall|x: int| 0 <= x < i && #[trigger] in_group(its, qs, x, cs->0 as int) ==> lists(c, x)
}

spec fn grp_ok(its: Seq<ProviderMenuItem>, qs: Seq<char>, i: int, cs: Option<usize>, g: Seq<(usize, Vec<(i32, usize)>)>) -> bool {
    &&& groups_ok(its, qs, g)
    &&& forall|a: int| 0 <= a < g.len() ==> (#[trigger] g[a]).0 < i
    &&& match cs {
        Some(c) => forall|a: int| 0 <= a < g.len() ==> (#[trigger] g[a]).0 < c,
        None => g.len() == 0,
    }
}

spec fn cover_ok(its: Seq<ProviderMenuItem>, qs: Seq<char>, i: int, cs: Option<usize>, g: Seq<(usize, Vec<(i32, usize)>)>) -> bool {
    forall|x: int|
        #![trigger is_match(its, qs, x), section_before(its, x)]
        0 <= x < i && is_match(its, qs, x) && section_before(its, x) is Some ==> (cs == Some(
            section_before(its, x)->0 as usize,
        ) || heads(g, section_before(its, x)->0))
}

spec fn scan_ok(its: Seq<ProviderMenuItem>, qs: Seq<char>, i: int, st: Scan) -> bool {
    &&& 0 <= i <= its.len()
    &&& ung_ok(its, qs, i, st.ungrouped@)
    &&& cur_ok(its, qs, i, st.cur_sec, st.cur@)
    &&& grp_ok(its, qs, i, st.cur_sec, st.groups@)
    &&& cover_ok(its, qs, i, st.cur_sec, st.groups@)
}

/// Moves the scan past an entry that is no header and does not match.
proof fn lemma_scan_skip(its: Seq<ProviderMenuItem>, qs: Seq<char>, i: int, st: Scan)
    requires
        scan_ok(its, qs, i, st),
        i < its.len(),
        !(its[i] is Section),
        !is_match(its, qs, i),
    ensures
        scan_ok(its, qs, i + 1, st),
{
    assert(section_before(its, i + 1) == section_before(its, i));
    assert(ung_ok(its, qs, i + 1, st.ungrouped@));
    assert(cur_ok(its, qs, i + 1, st.cur_sec, st.cur@));
    assert(groups_ok(its, qs, st.groups@));
    assert(grp_ok(its, qs, i + 1, st.cur_sec, st.groups@));
    assert(cover_ok(its, qs, i + 1, st.cur_sec, st.groups@));
}

/// Moves the scan past a match.
fn scan_match(st: &mut Scan, Ghost(its): Ghost<Seq<ProviderMenuItem>>, Ghost(qs): Ghost<Seq<char>>, i: usize, sc: i32)
    requires
        scan_ok(its, qs, i as int, *old(st)),
        i < its.len(),
        !(its[i as int] is Section),
        score_at(its, qs, i as int) == Some(sc as int),
    ensures
        scan_ok(its, qs, i + 1, *final(st)),
{
    assert(section_before(its, i + 1) == section_before(its, i as int));
    match st.cur_sec {
        Some(c) => {
            insert_ranked(&mut st.cur, (sc, i));
            assert forall|x: int| 0 <= x < i + 1 && #[trigger] in_group(its, qs, x, c as int) implies lists(st.cur@, x) by {
                if x < i {
                    assert(lists(old(st).cur@, x));
                    let k = choose|k: int| 0 <= k < old(st).cur@.len() && (#[trigger] old(st).cur@[k]).1 == x;
                    assert(st.cur@.contains(old(st).cur@[k]));
                } else {
                    assert(st.cur@.contains((sc, i)));
                }
            }
            assert forall|k: int| 0 <= k < st.cur@.len() implies (#[trigger] st.cur@[k]).1 < i + 1 && section_before(its, st.cur@[k].1 as int) == Some(c as int) by {
                assert(st.cur@.contains(st.cur@[k]));
                if st.cur@[k] != (sc, i) {
                    let j = choose|j: int| 0 <= j < old(st).cur@.len() && old(st).cur@[j] == st.cur@[k];
                    assert(old(st).cur@[j].1 < i);
                }
            }
            assert forall|k: int| 0 <= k < st.cur@.len() implies (#[trigger] st.cur@[k]).1 < its.len() && score_at(its, qs, st.cur@[k].1 as int) == Some(st.cur@[k].0 as int) by {
                assert(st.cur@.contains(st.cur@[k]));
                if st.cur@[k] != (sc, i) {
                    let j = choose|j: int| 0 <= j < old(st).cur@.len() && old(st).cur@[j] == st.cur@[k];
                    assert(old(st).cur@[j].1 < its.len());
                }
            }
            assert(cur_ok(its, qs, i + 1, st.cur_sec, st.cur@));
            assert(ung_ok(its, qs, i + 1, st.ungrouped@));
            assert(grp_ok(its, qs, i + 1, st.cur_sec, st.groups@));
            assert(cover_ok(its, qs, i + 1, st.cur_sec, st.groups@));
        },
        None => {
            insert_ranked(&mut st.ungrouped, (sc, i));
            assert forall|x: int| 0 <= x < i + 1 && is_match(its, qs, x) && section_before(its, x) is None implies #[trigger] lists(st.ungrouped@, x) by {
                if x < i {
                    assert(lists(old(st).ungrouped@, x));
                    let k = choose|k: int| 0 <= k < old(st).ungrouped@.len() && (#[trigger] old(st).ungrouped@[k]).1 == x;
                    assert(st.ungrouped@.contains(old(st).ungrouped@[k]));
                } else {
                    assert(st.ungrouped@.contains((sc, i)));
                }
            }
            assert forall|k: int| 0 <= k < st.ungrouped@.len() implies (#[trigger] st.ungrouped@[k]).1 < i + 1 && section_before(its, st.ungrouped@[k].1 as int) is None by {
                assert(st.ungrouped@.contains(st.ungrouped@[k]));
                if st.ungrouped@[k] != (sc, i) {
                    let j = choose|j: int| 0 <= j < old(st).ungrouped@.len() && old(st).ungrouped@[j] == st.ungrouped@[k];
                    assert(old(st).ungrouped@[j].1 < i);
                }
            }
            assert forall|k: int| 0 <= k < st.ungrouped@.len() implies (#[trigger] st.ungrouped@[k]).1 < its.len() && score_at(its, qs, st.ungrouped@[k].1 as int) == Some(st.ungrouped@[k].0 as int) by {
                assert(st.ungrouped@.contains(st.ungrouped@[k]));
                if st.ungrouped@[k] != (sc, i) {
                    let j = choose|j: int| 0 <= j < old(st).ungrouped@.len() && old(st).ungrouped@[j] == st.ungrouped@[k];
                    assert(old(st).ungrouped@[j].1 < its.len());
                }
            }
            assert(cur_ok(its, qs, i + 1, st.cur_sec, st.cur@));
            assert(ung_ok(its, qs, i + 1, st.ungrouped@));
            assert(grp_ok(its, qs, i + 1, st.cur_sec, st.groups@));
            assert(cover_ok(its, qs, i + 1, st.cur_sec, st.groups@));
        },
    }
}

proof fn lemma_header_no_match(its: Seq<ProviderMenuItem>, qs: Seq<char>, x: int)
    requires
        0 <= x < its.len(),
        its[x] is Section,
    ensures
        !is_match(its, qs, x),
{
    reveal(score_at);
}

/// Moves the scan past a header: the open group is closed if it has a
/// match, and a new one opens.
fn scan_header(st: &mut Scan, Ghost(its): Ghost<Seq<ProviderMenuItem>>, Ghost(qs): Ghost<Seq<char>>, i: usize)
    requires
        scan_ok(its, qs, i as int, *old(st)),
        i < its.len(),
        its[i as int] is Section,
    ensures
        scan_ok(its, qs, i + 1, *final(st)),
{
    proof {
        lemma_header_no_match(its, qs, i as int);
        lemma_section_before(its, i as int);
        assert(section_before(its, i + 1) == Some(i as int));
    }
    let ghost old_groups = st.groups@;
    let ghost old_cur = st.cur@;
    let ghost old_sec = st.cur_sec;
    if st.cur.len() > 0 {
        let sec = match st.cur_sec {
            Some(c) => c,
            None => 0,
        };
        let mut done: Vec<(i32, usize)> = Vec::new();
        std::mem::swap(&mut done, &mut st.cur);
        proof {
            assert(done@ == old_cur);
            assert(old_sec == Some(sec));
            assert forall|x: int| #[trigger] in_group(its, qs, x, sec as int) implies lists(done@, x) by {
                lemma_section_before(its, x);
                if x >= i {
                    assert(is_section(its, i as int));
                }
            }
        }
        st.groups.push((sec, done));
        proof {
            let g = st.groups@;
            assert(g == old_groups.push((sec, done)));
            assert forall|a: int, b: int| 0 <= a < b < g.len() implies (#[trigger] g[a]).0 < (#[trigger] g[b]).0 by {
                if b < g.len() - 1 {
                    assert(g[a] == old_groups[a] && g[b] == old_groups[b]);
                } else {
                    assert(g[a] == old_groups[a]);
                }
            }
            assert forall|a: int| #![trigger g[a]] 0 <= a < g.len() implies {
                &&& is_section(its, g[a].0 as int)
                &&& g[a].1@.len() > 0
                &&& ranked(g[a].1@)
                &&& scored(its, qs, g[a].1@)
                &&& forall|k: int|
                    0 <= k < g[a].1@.len() ==> section_before(its, (#[trigger] g[a].1@[k]).1 as int)
                        == Some(g[a].0 as int)
                &&& forall|x: int| #[trigger] in_group(its, qs, x, g[a].0 as int) ==> lists(g[a].1@, x)
            } by {
                if a < g.len() - 1 {
                    assert(g[a] == old_groups[a]);
                }
            }
            assert(groups_ok(its, qs, g));
            assert forall|a: int| 0 <= a < g.len() implies (#[trigger] g[a]).0 < i + 1 && g[a].0 < i by {
                if a < g.len() - 1 {
                    assert(g[a] == old_groups[a]);
                }
            }
            assert forall|x: int|
                #![trigger is_match(its, qs, x), section_before(its, x)]
                0 <= x < i + 1 && is_match(its, qs, x) && section_before(its, x) is Some implies (Some(i)
                    == Some(section_before(its, x)->0 as usize) || heads(g, section_before(its, x)->0)) by {
                let sb = section_before(its, x)->0;
                if old_sec == Some(sb as usize) {
                    lemma_section_before(its, x);
                    assert(g[g.len() - 1].0 == sb);
                } else {
                    let a = choose|a: int| 0 <= a < old_groups.len() && (#[trigger] old_groups[a]).0 == sb;
                    assert(g[a] == old_groups[a]);
                }
            }
        }
    } else {
        proof {
            let g = st.groups@;
            assert forall|a: int| 0 <= a < g.len() implies (#[trigger] g[a]).0 < i by {}
            assert forall|x: int|
                #![trigger is_match(its, qs, x), section_before(its, x)]
                0 <= x < i + 1 && is_match(its, qs, x) && section_before(its, x) is Some implies (Some(i)
                    == Some(section_before(its, x)->0 as usize) || heads(g, section_before(its, x)->0)) by {
                let sb = section_before(its, x)->0;
                lemma_section_before(its, x);
                if old_sec == Some(sb as usize) {
                    assert(in_group(its, qs, x, sb));
                    assert(lists(old_cur, x));
                }
            }
        }
    }
    st.cur = Vec::new();
    st.cur_sec = Some(i);
    proof {
        assert forall|x: int| 0 <= x < i + 1 && #[trigger] in_group(its, qs, x, i as int) implies lists(st.cur@, x) by {
            lemma_section_before(its, x);
        }
        assert(cur_ok(its, qs, i + 1, st.cur_sec, st.cur@));
        assert(ung_ok(its, qs, i + 1, st.ungrouped@));
    }
}

/// What the scan leaves: the ungrouped matches and the groups, each in
/// rank order and complete.
pub open spec fn scan_result(
    its: Seq<ProviderMenuItem>,
    qs: Seq<char>,
    u: Seq<(i32, usize)>,
    g: Seq<(usize, Vec<(i32, usize)>)>,
) -> bool {
    &&& ranked(u)
    &&& scored(its, qs, u)
    &&& forall|k: int| 0 <= k < u.len() ==> section_before(its, (#[trigger] u[k]).1 as int) is None
    &&& forall|x: int| is_match(its, qs, x) && section_before(its, x) is None ==> #[trigger] lists(u, x)
    &&& groups_ok(its, qs, g)
    &&& forall|x: int|
        #![trigger is_match(its, qs, x), section_before(its, x)]
        is_match(its, qs, x) && section_before(its, x) is Some ==> heads(g, section_before(its, x)->0)
}

/// Closes the open group at the end of the menu.
fn scan_finish(st: Scan, Ghost(its): Ghost<Seq<ProviderMenuItem>>, Ghost(qs): Ghost<Seq<char>>) -> (r: (
    Vec<(i32, usize)>,
    Vec<(usize, Vec<(i32, usize)>)>,
))
    requires
        scan_ok(its, qs, its.len() as int, st),
        its.len() <= usize::MAX,
    ensures
        scan_result(its, qs, r.0@, r.1@),
{
    let Scan { ungrouped, mut groups, cur_sec, cur } = st;
    let ghost old_groups = groups@;
    let ghost n = its.len() as int;
    if cur.len() > 0 {
        let sec = match cur_sec {
            Some(c) => c,
            None => 0,
        };
        proof {
            lemma_section_before(its, n);
            assert forall|x: int| #[trigger] in_group(its, qs, x, sec as int) implies lists(cur@, x) by {}
        }
        let ghost done = cur@;
        groups.push((sec, cur));
        proof {
            let g = groups@;
            assert(g[g.len() - 1].1@ == done);
            assert forall|a: int, b: int| 0 <= a < b < g.len() implies (#[trigger] g[a]).0 < (#[trigger] g[b]).0 by {
                if b < g.len() - 1 {
                    assert(g[a] == old_groups[a] && g[b] == old_groups[b]);
                } else {
                    assert(g[a] == old_groups[a]);
                }
            }
            assert forall|a: int| #![trigger g[a]] 0 <= a < g.len() implies {
                &&& is_section(its, g[a].0 as int)
                &&& g[a].1@.len() > 0
                &&& ranked(g[a].1@)
                &&& scored(its, qs, g[a].1@)
                &&& forall|k: int|
                    0 <= k < g[a].1@.len() ==> section_before(its, (#[trigger] g[a].1@[k]).1 as int)
                        == Some(g[a].0 as int)
                &&& forall|x: int| #[trigger] in_group(its, qs, x, g[a].0 as int) ==> lists(g[a].1@, x)
            } by {
                if a < g.len() - 1 {
                    assert(g[a] == old_groups[a]);
                }
            }
            assert forall|x: int|
                #![trigger is_match(its, qs, x), section_before(its, x)]
                is_match(its, qs, x) && section_before(its, x) is Some implies heads(g, section_before(its, x)->0) by {
                let sb = section_before(its, x)->0;
                if cur_sec == Some(sb as usize) {
                    lemma_section_before(its, x);
                    assert(g[g.len() - 1].0 == sb);
                } else {
                    let a = choose|a: int| 0 <= a < old_groups.len() && (#[trigger] old_groups[a]).0 == sb;
                    assert(g[a] == old_groups[a]);
                }
            }
        }
    } else {
        proof {
            assert forall|x: int|
                #![trigger is_match(its, qs, x), section_before(its, x)]
                is_match(its, qs, x) && section_before(its, x) is Some implies heads(groups@, section_before(its, x)->0) by {
                let sb = section_before(its, x)->0;
                lemma_section_before(its, x);
                if cur_sec == Some(sb as usize) {
                    assert(in_group(its, qs, x, sb));
                    assert(lists(cur@, x));
                }
            }
        }
    }
    (ungrouped, groups)
}

/// Sorts the matches of a search into the ungrouped ones and the groups of
/// the headers above them.
fn group_matches(items: &Vec<ProviderMenuItem>, q: &str) -> (r: (Vec<(i32, usize)>, Vec<(usize, Vec<(i32, usize)>)>))
    requires
        words(q@).len() <= max_query_words(),
    ensures
        scan_result(items@, q@, r.0@, r.1@),
{
    let mut st = Scan { ungrouped: Vec::new(), groups: Vec::new(), cur_sec: None, cur: Vec::new() };
    let mut i: usize = 0;
    proof {
        assert(section_before(items@, 0) is None);
    }
    while i < items.len()
        invariant
            words(q@).len() <= max_query_words(),
            scan_ok(items@, q@, i as int, st),
        decreases items@.len() - i,
    {
        match &items[i] {
            ProviderMenuItem::Section(_) => {
                scan_header(&mut st, Ghost(items@), Ghost(q@), i);
            },
            _ => {
                match provider_menu_match_score(&items[i], q) {
                    Some(sc) => {
                        proof {
                            reveal(score_at);
                        }
                        scan_match(&mut st, Ghost(items@), Ghost(q@), i, sc);
                    },
                    None => {
                        proof {
                            reveal(score_at);
                            lemma_scan_skip(items@, q@, i as int, st);
                        }
                    },
                }
            },
        }
        i += 1;
    }
    assert(items@.len() == items.len());
    scan_finish(st, Ghost(items@), Ghost(q@))
}

/// Whether the group keys of `l` are in rank order.
pub open spec fn keys_ranked(l: Seq<((i32, usize), usize)>) -> bool {
    forall|i: int, j: int| 0 <= i < j < l.len() ==> pair_before((#[trigger] l[i]).0, (#[trigger] l[j]).0)
}

/// Inserts `e` into the key-ordered `list`.
fn insert_keyed(list: &mut Vec<((i32, usize), usize)>, e: ((i32, usize), usize))
    requires
        keys_ranked(old(list)@),
        forall|k: int| 0 <= k < old(list)@.len() ==> (#[trigger] old(list)@[k]).0.1 != e.0.1,
    ensures
        keys_ranked(final(list)@),
        forall|p: ((i32, usize), usize)| final(list)@.contains(p) <==> (old(list)@.contains(p) || p == e),
{
    let ghost before = list@;
    let mut p: usize = 0;
    while p < list.len() && (list[p].0.0 > e.0.0 || (list[p].0.0 == e.0.0 && list[p].0.1 < e.0.1))
        invariant
            0 <= p <= list@.len(),
            before == list@,
            keys_ranked(before),
            forall|k: int| 0 <= k < p ==> pair_before((#[trigger] before[k]).0, e.0),
        decreases list@.len() - p,
    {
        p += 1;
    }
    list.insert(p, e);
    proof {
        let after = list@;
        assert(after =~= before.insert(p as int, e));
        if p < before.len() {
            assert(!pair_before(before[p as int].0, e.0));
            assert(pair_before(e.0, before[p as int].0));
        }
        assert forall|i: int, j: int| 0 <= i < j < after.len() implies pair_before(
            (#[trigger] after[i]).0,
            (#[trigger] after[j]).0,
        ) by {
            if j < p {
                assert(pair_before(before[i].0, before[j].0));
            } else if i < p && j == p {
            } else if i < p && j > p {
                assert(after[j] == before[j - 1]);
                if j - 1 > p {
                    assert(pair_before(before[p as int].0, before[j - 1].0));
                }
            } else if i == p {
                assert(after[j] == before[j - 1]);
                if j - 1 > p {
                    assert(pair_before(before[p as int].0, before[j - 1].0));
                }
            } else {
                assert(after[i] == before[i - 1]);
                assert(after[j] == before[j - 1]);
                assert(pair_before(before[i - 1].0, before[j - 1].0));
            }
        }
        assert forall|y: ((i32, usize), usize)| after.contains(y) <==> (before.contains(y) || y == e) by {
            if after.contains(y) {
                let k = choose|k: int| 0 <= k < after.len() && after[k] == y;
                if k < p {
                    assert(before[k] == y);
                } else if k > p {
                    assert(before[k - 1] == y);
                }
            }
            if before.contains(y) {
                let k = choose|k: int| 0 <= k < before.len() && before[k] == y;
                if k < p {
                    assert(after[k] == y);
                } else {
                    assert(after[k + 1] == y);
                }
            }
            if y == e {
                assert(after[p as int] == y);
            }
        }
    }
}

/// Whether group `a` has a place in the order `k`.
pub open spec fn placed(k: Seq<((i32, usize), usize)>, a: int) -> bool {
    exists|m: int| 0 <= m < k.len() && (#[trigger] k[m]).1 == a
}

/// Whether `k` orders the groups `g` by their best matches.
pub open spec fn groups_ordered(g: Seq<(usize, Vec<(i32, usize)>)>, k: Seq<((i32, usize), usize)>) -> bool {
    &&& keys_ranked(k)
    &&& forall|m: int|
        0 <= m < k.len() ==> (#[trigger] k[m]).1 < g.len() && g[k[m].1 as int].1@.len() > 0 && k[m].0
            == g[k[m].1 as int].1@[0]
    &&& forall|a: int| 0 <= a < g.len() ==> #[trigger] placed(k, a)
}

/// The groups in the order they are shown: by their best matches.
fn order_groups(groups: &Vec<(usize, Vec<(i32, usize)>)>, Ghost(its): Ghost<Seq<ProviderMenuItem>>, Ghost(qs): Ghost<Seq<char>>) -> (r: Vec<((i32, usize), usize)>)
    requires
        groups_ok(its, qs, groups@),
    ensures
        groups_ordered(groups@, r@),
{
    let ghost g = groups@;
    let mut keyed: Vec<((i32, usize), usize)> = Vec::new();
    let mut a: usize = 0;
    while a < groups.len()
        invariant
            g == groups@,
            groups_ok(its, qs, g),
            0 <= a <= g.len(),
            keys_ranked(keyed@),
            forall|m: int|
                0 <= m < keyed@.len() ==> (#[trigger] keyed@[m]).1 < a && g[keyed@[m].1 as int].1@.len() > 0
                    && keyed@[m].0 == g[keyed@[m].1 as int].1@[0],
            forall|b: int| 0 <= b < a ==> #[trigger] placed(keyed@, b),
        decreases g.len() - a,
    {
        let key = groups[a].1[0];
        let ghost before = keyed@;
        proof {
            assert(g[a as int].1@.len() > 0);
            assert forall|k: int| 0 <= k < before.len() implies (#[trigger] before[k]).0.1 != key.1 by {
                let b = before[k].1 as int;
                assert(g[b].1@[0] == before[k].0);
                assert(section_before(its, g[b].1@[0].1 as int) == Some(g[b].0 as int));
                assert(section_before(its, g[a as int].1@[0].1 as int) == Some(g[a as int].0 as int));
                assert(g[b].0 < g[a as int].0);
            }
        }
        insert_keyed(&mut keyed, (key, a));
        proof {
            assert forall|m: int| 0 <= m < keyed@.len() implies (#[trigger] keyed@[m]).1 < a + 1 && g[keyed@[m].1 as int].1@.len() > 0
                && keyed@[m].0 == g[keyed@[m].1 as int].1@[0] by {
                assert(keyed@.contains(keyed@[m]));
                if keyed@[m] != (key, a) {
                    let j = choose|j: int| 0 <= j < before.len() && before[j] == keyed@[m];
                    assert(before[j].1 < a);
                }
            }
            assert forall|b: int| 0 <= b < a + 1 implies #[trigger] placed(keyed@, b) by {
                if b < a {
                    assert(placed(before, b));
                    let j = choose|j: int| 0 <= j < before.len() && (#[trigger] before[j]).1 == b;
                    assert(keyed@.contains(before[j]));
                } else {
                    assert(keyed@.contains((key, a)));
                }
            }
        }
        a += 1;
    }
    keyed
}

/// The header of the `m`-th group shown.
pub open spec fn sec_of(g: Seq<(usize, Vec<(i32, usize)>)>, k: Seq<((i32, usize), usize)>, m: int) -> int {
    g[k[m].1 as int].0 as int
}

/// The matches of the `m`-th group shown.
pub open spec fn list_of(g: Seq<(usize, Vec<(i32, usize)>)>, k: Seq<((i32, usize), usize)>, m: int) -> Seq<(i32, usize)> {
    g[k[m].1 as int].1@
}

/// What each position of the output holds: `own` is -1 for an ungrouped
/// match and the rank of its group otherwise; `slot` is the position in
/// the ungrouped list or in the group's list, -1 for the header.
pub open spec fn layout_ok(
    u: Seq<(i32, usize)>,
    g: Seq<(usize, Vec<(i32, usize)>)>,
    k: Seq<((i32, usize), usize)>,
    r: Seq<usize>,
    own: Seq<int>,
    slot: Seq<int>,
) -> bool {
    &&& own.len() == r.len()
    &&& slot.len() == r.len()
    &&& forall|t: int|
        0 <= t < r.len() && #[trigger] own[t] == -1 ==> 0 <= slot[t] < u.len() && r[t] == u[slot[t]].1
    &&& forall|t: int|
        0 <= t < r.len() && #[trigger] own[t] >= 0 ==> own[t] < k.len() && -1 <= slot[t] < list_of(g, k, own[t]).len()
            && r[t] as int == (if slot[t] == -1 {
            sec_of(g, k, own[t])
        } else {
            list_of(g, k, own[t])[slot[t]].1 as int
        })
    &&& forall|t1: int, t2: int|
        0 <= t1 < t2 < r.len() ==> #[trigger] own[t1] < #[trigger] own[t2] || (own[t1] == own[t2]
            && slot[t1] < slot[t2])
    &&& forall|t: int| 0 <= t < r.len() ==> #[trigger] own[t] >= -1
}

pub open spec fn emitted(r: Seq<usize>, own: Seq<int>, slot: Seq<int>, o: int, s: int) -> bool {
    exists|t: int| 0 <= t < r.len() && #[trigger] own[t] == o && slot[t] == s
}

/// Writes out the ungrouped matches, then each group: its header, then
/// its matches.
fn lay_out(
    u: &Vec<(i32, usize)>,
    groups: &Vec<(usize, Vec<(i32, usize)>)>,
    keyed: &Vec<((i32, usize), usize)>,
) -> (res: (Vec<usize>, Ghost<Seq<int>>, Ghost<Seq<int>>))
    requires
        forall|m: int| 0 <= m < keyed@.len() ==> (#[trigger] keyed@[m]).1 < groups@.len(),
    ensures
        layout_ok(u@, groups@, keyed@, res.0@, res.1@, res.2@),
        forall|j: int| 0 <= j < u@.len() ==> #[trigger] emitted(res.0@, res.1@, res.2@, -1, j),
        forall|m: int, j: int|
            0 <= m < keyed@.len() && -1 <= j < list_of(groups@, keyed@, m).len() ==> #[trigger] emitted(
                res.0@,
                res.1@,
                res.2@,
                m,
                j,
            ),
{
    let ghost g = groups@;
    let ghost k = keyed@;
    let mut r: Vec<usize> = Vec::new();
    let ghost mut own: Seq<int> = seq![];
    let ghost mut slot: Seq<int> = seq![];
    let mut j: usize = 0;
    while j < u.len()
        invariant
            g == groups@,
            k == keyed@,
            0 <= j <= u@.len(),
            layout_ok(u@, g, k, r@, own, slot),
            r@.len() == j,
            forall|t: int| 0 <= t < j ==> own[t] == -1 && slot[t] == t,
        decreases u@.len() - j,
    {
        r.push(u[j].1);
        proof {
            own = own.push(-1);
            slot = slot.push(j as int);
        }
        j += 1;
    }
    proof {
        assert forall|jj: int| 0 <= jj < u@.len() implies #[trigger] emitted(r@, own, slot, -1, jj) by {
            assert(own[jj] == -1 && slot[jj] == jj);
        }
    }
    let mut m: usize = 0;
    while m < keyed.len()
        invariant
            g == groups@,
            k == keyed@,
            forall|mm: int| 0 <= mm < k.len() ==> (#[trigger] k[mm]).1 < g.len(),
            0 <= m <= k.len(),
            layout_ok(u@, g, k, r@, own, slot),
            forall|t: int| 0 <= t < r@.len() ==> #[trigger] own[t] < m,
            forall|jj: int| 0 <= jj < u@.len() ==> #[trigger] emitted(r@, own, slot, -1, jj),
            forall|mm: int, jj: int|
                0 <= mm < m && -1 <= jj < list_of(g, k, mm).len() ==> #[trigger] emitted(r@, own, slot, mm, jj),
        decreases k.len() - m,
    {
        let a = keyed[m].1;
        let ghost start = r@.len();
        let ghost before_r = r@;
        let ghost before_own = own;
        let ghost before_slot = slot;
        r.push(groups[a].0);
        proof {
            own = own.push(m as int);
            slot = slot.push(-1);
            assert forall|jj: int| 0 <= jj < u@.len() implies #[trigger] emitted(r@, own, slot, -1, jj) by {
                assert(emitted(before_r, before_own, before_slot, -1, jj));
                let t = choose|t: int| 0 <= t < before_r.len() && #[trigger] before_own[t] == -1 && before_slot[t] == jj;
                assert(own[t] == -1 && slot[t] == jj);
            }
            assert forall|mm: int, jj: int| 0 <= mm < m && -1 <= jj < list_of(g, k, mm).len() implies #[trigger] emitted(r@, own, slot, mm, jj) by {
                assert(emitted(before_r, before_own, before_slot, mm, jj));
                let t = choose|t: int| 0 <= t < before_r.len() && #[trigger] before_own[t] == mm && before_slot[t] == jj;
                assert(own[t] == mm && slot[t] == jj);
            }
        }
        let list = &groups[a].1;
        let mut j: usize = 0;
        while j < list.len()
            invariant
                g == groups@,
                k == keyed@,
                0 <= m < k.len(),
                a == k[m as int].1,
                a < g.len(),
                list@ == list_of(g, k, m as int),
                0 <= j <= list@.len(),
                layout_ok(u@, g, k, r@, own, slot),
                r@.len() == start + 1 + j,
                forall|t: int| 0 <= t < start ==> #[trigger] own[t] < m,
                forall|t: int| start <= t < r@.len() ==> #[trigger] own[t] == m && slot[t] == t - start - 1,
                forall|jj: int| 0 <= jj < u@.len() ==> #[trigger] emitted(r@, own, slot, -1, jj),
                forall|mm: int, jj: int|
                    0 <= mm < m && -1 <= jj < list_of(g, k, mm).len() ==> #[trigger] emitted(r@, own, slot, mm, jj),
            decreases list@.len() - j,
        {
            let ghost before_r = r@;
            let ghost before_own = own;
            let ghost before_slot = slot;
            r.push(list[j].1);
            proof {
                own = own.push(m as int);
                slot = slot.push(j as int);
                assert forall|jj: int| 0 <= jj < u@.len() implies #[trigger] emitted(r@, own, slot, -1, jj) by {
                    assert(emitted(before_r, before_own, before_slot, -1, jj));
                    let t = choose|t: int| 0 <= t < before_r.len() && #[trigger] before_own[t] == -1 && before_slot[t] == jj;
                    assert(own[t] == -1 && slot[t] == jj);
                }
                assert forall|mm: int, jj: int| 0 <= mm < m && -1 <= jj < list_of(g, k, mm).len() implies #[trigger] emitted(r@, own, slot, mm, jj) by {
                    assert(emitted(before_r, before_own, before_slot, mm, jj));
                    let t = choose|t: int| 0 <= t < before_r.len() && #[trigger] before_own[t] == mm && before_slot[t] == jj;
                    assert(own[t] == mm && slot[t] == jj);
                }
            }
            j += 1;
        }
        proof {
            assert forall|jj: int| -1 <= jj < list_of(g, k, m as int).len() implies #[trigger] emitted(r@, own, slot, m as int, jj) by {
                let t = start + 1 + jj;
                assert(own[t] == m && slot[t] == jj);
            }
        }
        m += 1;
    }
    (r, Ghost(own), Ghost(slot))
}

proof fn lemma_match_not_section(its: Seq<ProviderMenuItem>, qs: Seq<char>, x: int)
    requires
        is_match(its, qs, x),
    ensures
        !is_section(its, x),
        group_of(its, x) == section_before(its, x),
{
    reveal(score_at);
}

/// Distinct places of the order hold distinct groups.
proof fn lemma_sec_injective(
    its: Seq<ProviderMenuItem>,
    qs: Seq<char>,
    g: Seq<(usize, Vec<(i32, usize)>)>,
    k: Seq<((i32, usize), usize)>,
    m1: int,
    m2: int,
)
    requires
        groups_ok(its, qs, g),
        groups_ordered(g, k),
        0 <= m1 < k.len(),
        0 <= m2 < k.len(),
        m1 != m2,
    ensures
        sec_of(g, k, m1) != sec_of(g, k, m2),
{
    let a1 = k[m1].1 as int;
    let a2 = k[m2].1 as int;
    if a1 == a2 {
        assert(k[m1].0 == k[m2].0);
        if m1 < m2 {
            assert(pair_before(k[m1].0, k[m2].0));
        } else {
            assert(pair_before(k[m2].0, k[m1].0));
        }
    } else if a1 < a2 {
        assert(g[a1].0 < g[a2].0);
    } else {
        assert(g[a2].0 < g[a1].0);
    }
}

/// What the entry at output position `t` is.
proof fn lemma_elem(
    its: Seq<ProviderMenuItem>,
    qs: Seq<char>,
    u: Seq<(i32, usize)>,
    g: Seq<(usize, Vec<(i32, usize)>)>,
    k: Seq<((i32, usize), usize)>,
    r: Seq<usize>,
    own: Seq<int>,
    slot: Seq<int>,
    t: int,
)
    requires
        scan_result(its, qs, u, g),
        groups_ordered(g, k),
        layout_ok(u, g, k, r, own, slot),
        0 <= t < r.len(),
    ensures
        own[t] == -1 ==> is_match(its, qs, r[t] as int) && group_of(its, r[t] as int) is None
            && u[slot[t]].1 == r[t] && score_at(its, qs, r[t] as int) == Some(u[slot[t]].0 as int),
        own[t] >= 0 ==> group_of(its, r[t] as int) == Some(sec_of(g, k, own[t])),
        own[t] >= 0 && slot[t] == -1 ==> r[t] as int == sec_of(g, k, own[t]) && has_match(its, qs, r[t] as int),
        own[t] >= 0 && slot[t] >= 0 ==> is_match(its, qs, r[t] as int) && r[t] as int != sec_of(g, k, own[t])
            && list_of(g, k, own[t])[slot[t]].1 == r[t] && score_at(its, qs, r[t] as int) == Some(
            list_of(g, k, own[t])[slot[t]].0 as int,
        ),
{
    assert(own[t] >= -1);
    if own[t] == -1 {
        let j = slot[t];
        assert(u[j] == u[j]);
        lemma_match_not_section(its, qs, r[t] as int);
    } else {
        let m = own[t];
        let a = k[m].1 as int;
        let l = g[a].1@;
        assert(g[a] == g[a]);
        assert(is_section(its, g[a].0 as int));
        if slot[t] == -1 {
            assert(l[0] == l[0]);
            assert(in_group(its, qs, l[0].1 as int, g[a].0 as int));
        } else {
            let j = slot[t];
            assert(l[j] == l[j]);
            lemma_match_not_section(its, qs, r[t] as int);
            lemma_section_before(its, r[t] as int);
        }
    }
}

/// The layout of the ungrouped matches and the ordered groups is what a
/// search shows.
proof fn lemma_layout_filtered(
    its: Seq<ProviderMenuItem>,
    qs: Seq<char>,
    u: Seq<(i32, usize)>,
    g: Seq<(usize, Vec<(i32, usize)>)>,
    k: Seq<((i32, usize), usize)>,
    r: Seq<usize>,
    own: Seq<int>,
    slot: Seq<int>,
)
    requires
        its.len() <= usize::MAX,
        scan_result(its, qs, u, g),
        groups_ordered(g, k),
        layout_ok(u, g, k, r, own, slot),
        forall|j: int| 0 <= j < u.len() ==> #[trigger] emitted(r, own, slot, -1, j),
        forall|m: int, j: int|
            0 <= m < k.len() && -1 <= j < list_of(g, k, m).len() ==> #[trigger] emitted(r, own, slot, m, j),
    ensures
        menu_filtered(its, qs, r),
{
    assert forall|i: int, j: int| 0 <= i < j < r.len() implies r[i] != r[j] by {
        lemma_elem(its, qs, u, g, k, r, own, slot, i);
        lemma_elem(its, qs, u, g, k, r, own, slot, j);
        assert(own[i] < own[j] || (own[i] == own[j] && slot[i] < slot[j]));
        if own[i] != own[j] && own[i] >= 0 && own[j] >= 0 {
            lemma_sec_injective(its, qs, g, k, own[i], own[j]);
        } else if own[i] == own[j] && own[i] == -1 {
            assert(pair_before(u[slot[i]], u[slot[j]]));
        } else if own[i] == own[j] && slot[i] >= 0 {
            let l = list_of(g, k, own[i]);
            assert(ranked(l));
            assert(pair_before(l[slot[i]], l[slot[j]]));
        }
    }
    assert forall|i: int| 0 <= i < r.len() implies kept(its, qs, #[trigger] r[i] as int) by {
        lemma_elem(its, qs, u, g, k, r, own, slot, i);
    }
    assert forall|x: int| 0 <= x < its.len() && kept(its, qs, x) implies r.contains(x as usize) by {
        if is_match(its, qs, x) {
            lemma_match_not_section(its, qs, x);
            if section_before(its, x) is None {
                assert(lists(u, x));
                let j = choose|j: int| 0 <= j < u.len() && (#[trigger] u[j]).1 == x;
                assert(emitted(r, own, slot, -1, j));
                let t = choose|t: int| 0 <= t < r.len() && #[trigger] own[t] == -1 && slot[t] == j;
                assert(r[t] == x);
            } else {
                let s = section_before(its, x)->0;
                assert(heads(g, s));
                let a = choose|a: int| 0 <= a < g.len() && (#[trigger] g[a]).0 == s;
                assert(placed(k, a));
                let m = choose|m: int| 0 <= m < k.len() && (#[trigger] k[m]).1 == a;
                assert(in_group(its, qs, x, g[a].0 as int));
                assert(lists(g[a].1@, x));
                let j = choose|j: int| 0 <= j < g[a].1@.len() && (#[trigger] g[a].1@[j]).1 == x;
                assert(emitted(r, own, slot, m, j));
                let t = choose|t: int| 0 <= t < r.len() && #[trigger] own[t] == m && slot[t] == j;
                assert(r[t] as int == x);
            }
        } else {
            assert(has_match(its, qs, x));
            let y = choose|y: int| #[trigger] in_group(its, qs, y, x);
            assert(is_match(its, qs, y) && section_before(its, y) is Some);
            assert(heads(g, x));
            let a = choose|a: int| 0 <= a < g.len() && (#[trigger] g[a]).0 == x;
            assert(placed(k, a));
            let m = choose|m: int| 0 <= m < k.len() && (#[trigger] k[m]).1 == a;
            assert(emitted(r, own, slot, m, -1));
            let t = choose|t: int| 0 <= t < r.len() && #[trigger] own[t] == m && slot[t] == -1;
            assert(r[t] as int == x);
        }
    }
    assert forall|i: int, j: int|
        #![trigger r[i], r[j]]
        0 <= i < j < r.len() && group_of(its, r[i] as int) is Some implies group_of(its, r[j] as int) is Some by {
        lemma_elem(its, qs, u, g, k, r, own, slot, i);
        lemma_elem(its, qs, u, g, k, r, own, slot, j);
        assert(own[i] < own[j] || (own[i] == own[j] && slot[i] < slot[j]));
    }
    assert forall|i: int, j: int|
        #![trigger r[i], r[j]]
        0 <= i < j < r.len() && group_of(its, r[i] as int) is None && group_of(its, r[j] as int) is None implies ranks_before(
            its,
            qs,
            r[i] as int,
            r[j] as int,
        ) by {
        lemma_elem(its, qs, u, g, k, r, own, slot, i);
        lemma_elem(its, qs, u, g, k, r, own, slot, j);
        assert(own[i] < own[j] || (own[i] == own[j] && slot[i] < slot[j]));
        assert(pair_before(u[slot[i]], u[slot[j]]));
    }
    assert forall|i: int, j: int|
        #![trigger r[i], r[j]]
        0 <= i < j < r.len() && group_of(its, r[i] as int) is Some && group_of(its, r[j] as int) is Some
            && group_of(its, r[i] as int) != group_of(its, r[j] as int) implies group_before(
            its,
            qs,
            group_of(its, r[i] as int)->0,
            group_of(its, r[j] as int)->0,
        ) by {
        lemma_elem(its, qs, u, g, k, r, own, slot, i);
        lemma_elem(its, qs, u, g, k, r, own, slot, j);
        assert(own[i] < own[j] || (own[i] == own[j] && slot[i] < slot[j]));
        let mi = own[i];
        let mj = own[j];
        assert(mi < mj);
        assert(pair_before(k[mi].0, k[mj].0));
        let li = list_of(g, k, mi);
        let lj = list_of(g, k, mj);
        let ai = k[mi].1 as int;
        let aj = k[mj].1 as int;
        assert(g[ai] == g[ai]);
        assert(g[aj] == g[aj]);
        let x = li[0].1 as int;
        assert(li[0] == li[0]);
        assert(in_group(its, qs, x, sec_of(g, k, mi)));
        assert forall|y: int| #[trigger] in_group(its, qs, y, sec_of(g, k, mj)) implies ranks_before(its, qs, x, y) by {
            assert(lists(lj, y));
            let jj = choose|jj: int| 0 <= jj < lj.len() && (#[trigger] lj[jj]).1 == y;
            assert(lj[jj] == lj[jj]);
            if jj > 0 {
                assert(pair_before(lj[0], lj[jj]));
            }
        }
    }
    assert forall|i: int, j: int|
        #![trigger r[i], r[j]]
        0 <= i < j < r.len() && group_of(its, r[i] as int) is Some && group_of(its, r[i] as int) == group_of(
            its,
            r[j] as int,
        ) implies r[j] as int != group_of(its, r[j] as int)->0 && (r[i] as int != group_of(its, r[i] as int)->0
            ==> ranks_before(its, qs, r[i] as int, r[j] as int)) by {
        lemma_elem(its, qs, u, g, k, r, own, slot, i);
        lemma_elem(its, qs, u, g, k, r, own, slot, j);
        assert(own[i] < own[j] || (own[i] == own[j] && slot[i] < slot[j]));
        if own[i] != own[j] {
            lemma_sec_injective(its, qs, g, k, own[i], own[j]);
        }
        assert(own[i] == own[j]);
        if slot[i] >= 0 {
            let l = list_of(g, k, own[i]);
            assert(pair_before(l[slot[i]], l[slot[j]]));
        }
    }
}

fn all_positions_vec(n: usize) -> (r: Vec<usize>)
    ensures
        r@ == all_positions(n as nat),
{
    let mut r: Vec<usize> = Vec::new();
    let mut i: usize = 0;
    while i < n
        invariant
            0 <= i <= n,
            r@ == all_positions(i as nat),
        decreases n - i,
    {
        r.push(i);
        assert(r@ =~= all_positions((i + 1) as nat));
        i += 1;
    }
    r
}

/// The positions of the entries that a search for the normalized query `q`
/// shows, in the order it shows them; an empty query shows every entry.
pub fn filter_menu_entries(items: &Vec<ProviderMenuItem>, q: &str) -> (r: Vec<usize>)
    requires
        words(q@).len() <= max_query_words(),
    ensures
        q@.len() == 0 ==> r@ == all_positions(items@.len()),
        q@.len() > 0 ==> menu_filtered(items@, q@, r@),
{
    if q.is_empty() {
        return all_positions_vec(items.len());
    }
    let (u, groups) = group_matches(items, q);
    let keyed = order_groups(&groups, Ghost(items@), Ghost(q@));
    let (r, Ghost(own), Ghost(slot)) = lay_out(&u, &groups, &keyed);
    assert(items@.len() == items.len());
    proof {
        lemma_layout_filtered(items@, q@, u@, groups@, keyed@, r@, own, slot);
    }
    r
}

/// The search as the menu reads it: trimmed and lower-cased.
pub open spec fn menu_query(query: Seq<char>) -> Seq<char> {
    lowercase_of(crate::text::trim(query))
}

/// The positions of the provider-menu entries shown while `query` is
/// typed, in order. A search with more words than `max_query_words`, past
/// which the score can overflow `i32`, shows the menu unfiltered.
pub fn filter_provider_menu_items(items: &Vec<ProviderMenuItem>, query: &str) -> (r: Vec<usize>)
    ensures
        words(menu_query(query@)).len() > max_query_words() ==> r@ == all_positions(items@.len()),
        words(menu_query(query@)).len() <= max_query_words() && menu_query(query@).len() == 0 ==> r@
            == all_positions(items@.len()),
        words(menu_query(query@)).len() <= max_query_words() && menu_query(query@).len() > 0
            ==> menu_filtered(items@, menu_query(query@), r@),
{
    let q = normalize_provider_search_text(query);
    let qv = crate::text::chars_of(q.as_str());
    let count = split_words(&qv).len();
    if count > 53_687_094 {
        return all_positions_vec(items.len());
    }
    filter_menu_entries(items, q.as_str())
}

/// A model's score is the best of its four texts' scores, each with its
/// bonus: the model id +80, the provider id +45, the provider name +35 and
/// the label +0. So a model matches whenever any of the four matches, scores
/// at least what each matching text gives it, and scores only what one of
/// them gives it.
pub proof fn law_model_score_is_best_text_score(o: ProviderOption, q: Seq<char>)
    ensures
        text_score(o.model_id@, q) matches Some(s) ==> (model_score(o, q) matches Some(m) && m >= s + 80),
        text_score(o.provider_id@, q) matches Some(s) ==> (model_score(o, q) matches Some(m) && m >= s + 45),
        text_score(o.provider_name@, q) matches Some(s) ==> (model_score(o, q) matches Some(m) && m >= s + 35),
        text_score(o.label@, q) matches Some(s) ==> (model_score(o, q) matches Some(m) && m >= s),
        model_score(o, q) matches Some(m) ==> {
            ||| text_score(o.model_id@, q) == Some(m - 80)
            ||| text_score(o.provider_id@, q) == Some(m - 45)
            ||| text_score(o.provider_name@, q) == Some(m - 35)
            ||| text_score(o.label@, q) == Some(m)
        },
        model_score(o, q) is None <==> (text_score(o.model_id@, q) is None && text_score(o.provider_id@, q) is None
            && text_score(o.provider_name@, q) is None && text_score(o.label@, q) is None),
{
}

/// A provider matches when its id, its name or its label matches: an id
/// match scores 20 above the id's score and wins over the others; else a
/// name match scores what the name does; else the label's score.
pub proof fn law_provider_score_prefers_its_id(p: ProviderChoice, q: Seq<char>)
    ensures
        text_score(p.provider_id@, q) matches Some(s) ==> choice_score(p, q) == Some(s + 20),
        text_score(p.provider_id@, q) is None && text_score(p.name@, q) is Some ==> choice_score(p, q)
            == text_score(p.name@, q),
        text_score(p.provider_id@, q) is None && text_score(p.name@, q) is None ==> choice_score(p, q)
            == text_score(choice_label(p), q),
        choice_score(p, q) is Some <==> (text_score(p.provider_id@, q) is Some || text_score(p.name@, q) is Some
            || text_score(choice_label(p), q) is Some),
{
}

} // verus!
