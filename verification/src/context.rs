//! The context-window counter in the status bar and the breakdown of the
//! window behind it: which kinds of context blocks the server assembled for
//! the current turn, and how the rest of the prompt splits into conversation
//! and output.
use vstd::prelude::*;
use vstd::string::StringSliceAdditionalSpecFns;
use vstd::utf8::encode_utf8;
use crate::text::{
    ascii_lower_seq,
    ascii_lowercase_range,
    chars_of,
    decimal,
    find_seq,
    occurs_in,
    push_decimal,
    push_str,
    str_eq,
};

verus! {

broadcast use vstd::string::group_string_axioms;

/// Tokens used out of the model's context window, and whether the pointer
/// rests on the counter.
#[derive(Debug, Clone, Copy, PartialEq, Eq, Structural)]
pub struct ContextWindowCounter {
    pub used_tokens: u64,
    pub max_tokens: u64,
    pub hovered: bool,
}

/// A token count the way the counter shows it: `1.5M` (tenths cut, not
/// rounded), `15K`, or the plain number below a thousand.
pub open spec fn compact_count(tokens: nat) -> Seq<char> {
    if tokens >= 1_000_000 {
        let tenths = tokens / 100_000;
        decimal(tenths / 10) + "."@ + decimal(tenths % 10) + "M"@
    } else if tokens >= 1_000 {
        decimal(tokens / 1_000) + "K"@
    } else {
        decimal(tokens)
    }
}

pub fn compact_token_count(tokens: u64) -> (r: String)
    ensures
        r@ == compact_count(tokens as nat),
{
    let mut r = String::new();
    if tokens >= 1_000_000 {
        let tenths = tokens / 100_000;
        push_decimal(&mut r, tenths / 10);
        push_str(&mut r, ".");
        push_decimal(&mut r, tenths % 10);
        push_str(&mut r, "M");
        assert(r@ =~= compact_count(tokens as nat));
    } else if tokens >= 1_000 {
        push_decimal(&mut r, tokens / 1_000);
        push_str(&mut r, "K");
        assert(r@ =~= compact_count(tokens as nat));
    } else {
        push_decimal(&mut r, tokens);
        assert(r@ =~= compact_count(tokens as nat));
    }
    r
}

/// The counter's hovered text: `│ used / max │`.
pub open spec fn expanded_label_spec(c: ContextWindowCounter) -> Seq<char> {
    "│ "@ + compact_count(c.used_tokens as nat) + " / "@ + compact_count(c.max_tokens as nat)
        + " │"@
}

impl ContextWindowCounter {
    /// `│ 15K / 1.0M │`: used and available tokens, compacted.
    pub fn expanded_label(self) -> (r: String)
        ensures
            r@ == expanded_label_spec(self),
    {
        let mut r = String::new();
        push_str(&mut r, "│ ");
        let used = compact_token_count(self.used_tokens);
        push_str(&mut r, used.as_str());
        push_str(&mut r, " / ");
        let max = compact_token_count(self.max_tokens);
        push_str(&mut r, max.as_str());
        push_str(&mut r, " │");
        assert(r@ =~= expanded_label_spec(self));
        r
    }

    /// Whether a click at (`row`, `column`) of a bar `width` cells wide hits
    /// the counter: it sits on the first row, right-aligned, as wide as its
    /// hovered text.
    pub fn hit_test(self, width: u16, row: u16, column: u16) -> (r: bool)
        ensures
            r == (row == 0 && column >= width.saturating_sub(
                (expanded_label_spec(self).len() as usize) as u16,
            )),
    {
        let label = self.expanded_label();
        let n = chars_of(label.as_str()).len();
        row == 0 && column >= width.saturating_sub(n as u16)
    }
}

/// The part of the window that a context block counts towards.
#[derive(Debug, Clone, Copy, PartialEq, Eq, Structural)]
pub enum ContextBreakdownCategory {
    System,
    Skills,
    Retrieved,
    OtherContext,
}

/// The category of a context block by its type name: instructions, policy
/// and metadata are system context; memories, facts and retrieved documents
/// are retrieved context; anything with `skill` in its name (in any case) is
/// skills; the rest is other context.
pub open spec fn block_category(block_type: Seq<char>) -> ContextBreakdownCategory {
    if block_type == "Instruction"@ || block_type == "SafetyPolicy"@ || block_type
        == "TaskMetadata"@ || block_type == "PriorSummary"@ || block_type == "EntrypointHint"@ {
        ContextBreakdownCategory::System
    } else if block_type == "Memory"@ || block_type == "RepositoryFact"@ || block_type
        == "RetrievedDocument"@ || block_type == "RetrievalHint"@ {
        ContextBreakdownCategory::Retrieved
    } else if occurs_in(
        ascii_lower_seq(block_type),
        0,
        block_type.len() as int,
        "skill"@,
    ) {
        ContextBreakdownCategory::Skills
    } else {
        ContextBreakdownCategory::OtherContext
    }
}

pub fn context_block_category(block_type: &str) -> (r: ContextBreakdownCategory)
    ensures
        r == block_category(block_type@),
{
    if str_eq(block_type, "Instruction") || str_eq(block_type, "SafetyPolicy") || str_eq(
        block_type,
        "TaskMetadata",
    ) || str_eq(block_type, "PriorSummary") || str_eq(block_type, "EntrypointHint") {
        return ContextBreakdownCategory::System;
    }
    if str_eq(block_type, "Memory") || str_eq(block_type, "RepositoryFact") || str_eq(
        block_type,
        "RetrievedDocument",
    ) || str_eq(block_type, "RetrievalHint") {
        return ContextBreakdownCategory::Retrieved;
    }
    let v = chars_of(block_type);
    let lower = ascii_lowercase_range(&v, 0, v.len());
    assert(v@.subrange(0, v@.len() as int) =~= v@);
    let skill = chars_of("skill");
    if find_seq(&lower, 0, lower.len(), &skill).is_some() {
        ContextBreakdownCategory::Skills
    } else {
        ContextBreakdownCategory::OtherContext
    }
}

/// The 64-bit FNV hash of `bytes` (multiply, then xor each byte).
pub open spec fn fnv_hash(bytes: Seq<u8>) -> u64
    decreases bytes.len(),
{
    if bytes.len() == 0 {
        0xcbf29ce484222325u64
    } else {
        fnv_hash(bytes.drop_last()).wrapping_mul(0x100000001b3u64) ^ (bytes.last() as u64)
    }
}

/// The key under which a turn's context is tracked: the hash of its id's
/// UTF-8 bytes.
pub open spec fn turn_key(turn_id: Seq<char>) -> u64 {
    fnv_hash(encode_utf8(turn_id))
}

/// A key for a turn id that is the same in every run.
pub fn stable_context_turn_key(turn_id: &str) -> (r: u64)
    ensures
        r == turn_key(turn_id@),
{
    let bytes = turn_id.as_bytes();
    let mut hash: u64 = 0xcbf29ce484222325;
    let mut i: usize = 0;
    assert(bytes@.take(0) =~= Seq::<u8>::empty());
    while i < bytes.len()
        invariant
            0 <= i <= bytes@.len(),
            bytes@ == turn_id.spec_bytes(),
            hash == fnv_hash(bytes@.take(i as int)),
        decreases bytes@.len() - i,
    {
        assert(bytes@.take(i + 1).drop_last() =~= bytes@.take(i as int));
        hash = hash.wrapping_mul(0x100000001b3) ^ (bytes[i] as u64);
        i += 1;
    }
    assert(bytes@.take(bytes@.len() as int) =~= bytes@);
    hash
}

/// How the context window of the current turn is spent, as far as the
/// server has reported it.
#[derive(Debug, Clone, Copy, PartialEq, Eq, Structural)]
pub struct ContextWindowBreakdown {
    pub active_context_turn: Option<u64>,
    pub system_tokens: u64,
    pub skills_tokens: u64,
    pub retrieved_tokens: u64,
    pub other_context_tokens: u64,
    pub context_total_tokens: u64,
    pub prompt_tokens: u64,
    pub cached_prompt_tokens: u64,
    pub output_tokens: u64,
}

/// The breakdown before anything was reported.
pub open spec fn empty_breakdown() -> ContextWindowBreakdown {
    ContextWindowBreakdown {
        active_context_turn: None,
        system_tokens: 0,
        skills_tokens: 0,
        retrieved_tokens: 0,
        other_context_tokens: 0,
        context_total_tokens: 0,
        prompt_tokens: 0,
        cached_prompt_tokens: 0,
        output_tokens: 0,
    }
}

impl Default for ContextWindowBreakdown {
    fn default() -> (r: Self)
        ensures
            r == empty_breakdown(),
    {
        ContextWindowBreakdown {
            active_context_turn: None,
            system_tokens: 0,
            skills_tokens: 0,
            retrieved_tokens: 0,
            other_context_tokens: 0,
            context_total_tokens: 0,
            prompt_tokens: 0,
            cached_prompt_tokens: 0,
            output_tokens: 0,
        }
    }
}

/// `b` with the usage of the last turn cleared.
pub open spec fn turn_begun(b: ContextWindowBreakdown) -> ContextWindowBreakdown {
    ContextWindowBreakdown { prompt_tokens: 0, cached_prompt_tokens: 0, output_tokens: 0, ..b }
}

/// `b` tracking the context of the turn with key `key`, from nothing.
pub open spec fn context_turn_started(b: ContextWindowBreakdown, key: u64) -> ContextWindowBreakdown {
    ContextWindowBreakdown {
        active_context_turn: Some(key),
        system_tokens: 0,
        skills_tokens: 0,
        retrieved_tokens: 0,
        other_context_tokens: 0,
        context_total_tokens: 0,
        ..b
    }
}

/// `b` tracking the turn `turn_id`: unchanged if it already does, else
/// started afresh for it.
pub open spec fn for_turn(b: ContextWindowBreakdown, turn_id: Seq<char>) -> ContextWindowBreakdown {
    if b.active_context_turn == Some(turn_key(turn_id)) {
        b
    } else {
        context_turn_started(b, turn_key(turn_id))
    }
}

/// `b` after a context block of `tokens` tokens and type `block_type` was
/// added to turn `turn_id`.
pub open spec fn block_recorded(
    b: ContextWindowBreakdown,
    turn_id: Seq<char>,
    block_type: Seq<char>,
    tokens: u64,
) -> ContextWindowBreakdown {
    let s = for_turn(b, turn_id);
    let t = match block_category(block_type) {
        ContextBreakdownCategory::System => ContextWindowBreakdown {
            system_tokens: s.system_tokens.saturating_add(tokens),
            ..s
        },
        ContextBreakdownCategory::Skills => ContextWindowBreakdown {
            skills_tokens: s.skills_tokens.saturating_add(tokens),
            ..s
        },
        ContextBreakdownCategory::Retrieved => ContextWindowBreakdown {
            retrieved_tokens: s.retrieved_tokens.saturating_add(tokens),
            ..s
        },
        ContextBreakdownCategory::OtherContext => ContextWindowBreakdown {
            other_context_tokens: s.other_context_tokens.saturating_add(tokens),
            ..s
        },
    };
    ContextWindowBreakdown { context_total_tokens: t.context_total_tokens.saturating_add(tokens), ..t }
}

/// `b` after the server reported the assembled context of turn `turn_id` as
/// `tokens` tokens in all.
pub open spec fn completed_recorded(b: ContextWindowBreakdown, turn_id: Seq<char>, tokens: u64) -> ContextWindowBreakdown {
    ContextWindowBreakdown { context_total_tokens: tokens, ..for_turn(b, turn_id) }
}

/// `b` after the skill index of turn `turn_id` was rendered in `tokens`
/// tokens.
pub open spec fn skill_index_recorded(b: ContextWindowBreakdown, turn_id: Seq<char>, tokens: u64) -> ContextWindowBreakdown {
    let s = for_turn(b, turn_id);
    ContextWindowBreakdown {
        skills_tokens: s.skills_tokens.saturating_add(tokens),
        context_total_tokens: s.context_total_tokens.saturating_add(tokens),
        ..s
    }
}

pub open spec fn max_u64(a: u64, b: u64) -> u64 {
    if a >= b {
        a
    } else {
        b
    }
}

/// `b` after a usage report: each count keeps the largest value seen in the
/// turn.
pub open spec fn usage_recorded(b: ContextWindowBreakdown, prompt: u64, cached: u64, completion: u64) -> ContextWindowBreakdown {
    ContextWindowBreakdown {
        prompt_tokens: max_u64(b.prompt_tokens, prompt),
        cached_prompt_tokens: max_u64(b.cached_prompt_tokens, cached),
        output_tokens: max_u64(b.output_tokens, completion),
        ..b
    }
}

/// The tokens of the prompt that are conversation: the prompt (or, before
/// a usage report, what the counter shows less the output) less the context,
/// which is the reported total or the sum of the parts, whichever is larger.
pub open spec fn conversation(b: ContextWindowBreakdown, c: ContextWindowCounter) -> u64 {
    let parts = b.system_tokens.saturating_add(b.skills_tokens).saturating_add(
        b.retrieved_tokens,
    ).saturating_add(b.other_context_tokens);
    let context = max_u64(b.context_total_tokens, parts);
    let prompt = if b.prompt_tokens > 0 {
        b.prompt_tokens
    } else {
        c.used_tokens.saturating_sub(b.output_tokens)
    };
    prompt.saturating_sub(context)
}

fn max_of(a: u64, b: u64) -> (r: u64)
    ensures
        r == max_u64(a, b),
{
    if a >= b {
        a
    } else {
        b
    }
}

impl ContextWindowBreakdown {
    /// Clears the usage of the last turn when a new turn starts.
    pub fn begin_turn(&mut self)
        ensures
            *final(self) == turn_begun(*old(self)),
    {
        self.prompt_tokens = 0;
        self.cached_prompt_tokens = 0;
        self.output_tokens = 0;
    }

    /// Starts tracking the context of turn `turn_id` from nothing.
    pub fn start_context_turn(&mut self, turn_id: String)
        ensures
            *final(self) == context_turn_started(*old(self), turn_key(turn_id@)),
    {
        self.active_context_turn = Some(stable_context_turn_key(turn_id.as_str()));
        self.system_tokens = 0;
        self.skills_tokens = 0;
        self.retrieved_tokens = 0;
        self.other_context_tokens = 0;
        self.context_total_tokens = 0;
    }

    fn enter_turn(&mut self, turn_id: &str)
        ensures
            *final(self) == for_turn(*old(self), turn_id@),
    {
        let key = stable_context_turn_key(turn_id);
        let same = match self.active_context_turn {
            Some(k) => k == key,
            None => false,
        };
        if !same {
            self.start_context_turn(crate::text::string_from(turn_id));
        }
    }

    /// Counts a context block of `estimated_tokens` tokens of type
    /// `block_type` towards its category and the total, moving to the turn
    /// `turn_id` first if it is a new one.
    pub fn record_context_block(&mut self, turn_id: &str, block_type: &str, estimated_tokens: u32)
        ensures
            *final(self) == block_recorded(
                *old(self),
                turn_id@,
                block_type@,
                estimated_tokens as u64,
            ),
    {
        self.enter_turn(turn_id);
        let tokens = estimated_tokens as u64;
        match context_block_category(block_type) {
            ContextBreakdownCategory::System => {
                self.system_tokens = self.system_tokens.saturating_add(tokens);
            },
            ContextBreakdownCategory::Skills => {
                self.skills_tokens = self.skills_tokens.saturating_add(tokens);
            },
            ContextBreakdownCategory::Retrieved => {
                self.retrieved_tokens = self.retrieved_tokens.saturating_add(tokens);
            },
            ContextBreakdownCategory::OtherContext => {
                self.other_context_tokens = self.other_context_tokens.saturating_add(tokens);
            },
        }
        self.context_total_tokens = self.context_total_tokens.saturating_add(tokens);
    }

    /// Takes the server's total for the assembled context of turn `turn_id`.
    pub fn record_context_completed(&mut self, turn_id: &str, estimated_tokens: u32)
        ensures
            *final(self) == completed_recorded(*old(self), turn_id@, estimated_tokens as u64),
    {
        self.enter_turn(turn_id);
        self.context_total_tokens = estimated_tokens as u64;
    }

    /// Counts the rendered skill index of turn `turn_id` as skills.
    pub fn record_skill_index(&mut self, turn_id: &str, estimated_tokens: u32)
        ensures
            *final(self) == skill_index_recorded(*old(self), turn_id@, estimated_tokens as u64),
    {
        self.enter_turn(turn_id);
        let tokens = estimated_tokens as u64;
        self.skills_tokens = self.skills_tokens.saturating_add(tokens);
        self.context_total_tokens = self.context_total_tokens.saturating_add(tokens);
    }

    /// Takes a usage report; counts only grow within a turn.
    pub fn record_usage(&mut self, prompt_tokens: u32, cached_prompt_tokens: u32, completion_tokens: u32)
        ensures
            *final(self) == usage_recorded(
                *old(self),
                prompt_tokens as u64,
                cached_prompt_tokens as u64,
                completion_tokens as u64,
            ),
    {
        self.prompt_tokens = max_of(self.prompt_tokens, prompt_tokens as u64);
        self.cached_prompt_tokens = max_of(self.cached_prompt_tokens, cached_prompt_tokens as u64);
        self.output_tokens = max_of(self.output_tokens, completion_tokens as u64);
    }

    /// The conversation's share of the prompt.
    pub fn conversation_tokens(self, counter: ContextWindowCounter) -> (r: u64)
        ensures
            r == conversation(self, counter),
    {
        let parts = self.system_tokens.saturating_add(self.skills_tokens).saturating_add(
            self.retrieved_tokens,
        ).saturating_add(self.other_context_tokens);
        let context = max_of(self.context_total_tokens, parts);
        let used_without_output = counter.used_tokens.saturating_sub(self.output_tokens);
        let prompt = if self.prompt_tokens > 0 {
            self.prompt_tokens
        } else {
            used_without_output
        };
        prompt.saturating_sub(context)
    }
}

/// What a bar segment of the breakdown stands for.
#[derive(Debug, Clone, Copy, PartialEq, Eq, Structural)]
pub enum ContextSegmentKind {
    System,
    Skills,
    Retrieved,
    OtherContext,
    Conversation,
    Output,
}

pub open spec fn segment_label(k: ContextSegmentKind) -> Seq<char> {
    match k {
        ContextSegmentKind::System => "System / context"@,
        ContextSegmentKind::Skills => "Skills"@,
        ContextSegmentKind::Retrieved => "Retrieved context"@,
        ContextSegmentKind::OtherContext => "Other context"@,
        ContextSegmentKind::Conversation => "Conversation"@,
        ContextSegmentKind::Output => "Output"@,
    }
}

/// One segment of the breakdown bar.
#[derive(Debug, Clone, Copy, PartialEq, Eq)]
pub struct ContextBreakdownSegment {
    pub label: &'static str,
    pub tokens: u64,
    pub kind: ContextSegmentKind,
}

/// `s` with the segment `(k, tokens)` appended when it holds any tokens.
pub open spec fn push_nonzero(s: Seq<(ContextSegmentKind, u64)>, k: ContextSegmentKind, tokens: u64) -> Seq<(ContextSegmentKind, u64)> {
    if tokens > 0 {
        s.push((k, tokens))
    } else {
        s
    }
}

/// The segments of the bar, in order: system, skills, retrieved and other
/// context, conversation and output, each only when it holds tokens; when
/// none does but the counter shows usage, all of it is conversation.
pub open spec fn segments_spec(b: ContextWindowBreakdown, c: ContextWindowCounter) -> Seq<(ContextSegmentKind, u64)> {
    let s0 = Seq::<(ContextSegmentKind, u64)>::empty();
    let s1 = push_nonzero(s0, ContextSegmentKind::System, b.system_tokens);
    let s2 = push_nonzero(s1, ContextSegmentKind::Skills, b.skills_tokens);
    let s3 = push_nonzero(s2, ContextSegmentKind::Retrieved, b.retrieved_tokens);
    let s4 = push_nonzero(s3, ContextSegmentKind::OtherContext, b.other_context_tokens);
    let s5 = push_nonzero(s4, ContextSegmentKind::Conversation, conversation(b, c));
    let s6 = push_nonzero(s5, ContextSegmentKind::Output, b.output_tokens);
    if s6.len() == 0 && c.used_tokens > 0 {
        seq![(ContextSegmentKind::Conversation, c.used_tokens)]
    } else {
        s6
    }
}

pub open spec fn segment_pairs(v: Seq<ContextBreakdownSegment>) -> Seq<(ContextSegmentKind, u64)> {
    v.map_values(|s: ContextBreakdownSegment| (s.kind, s.tokens))
}

pub open spec fn labels_match(v: Seq<ContextBreakdownSegment>) -> bool {
    forall|i: int| 0 <= i < v.len() ==> (#[trigger] v[i]).label@ == segment_label(v[i].kind)
}

fn segment_for(kind: ContextSegmentKind, tokens: u64) -> (r: ContextBreakdownSegment)
    ensures
        r.kind == kind,
        r.tokens == tokens,
        r.label@ == segment_label(kind),
{
    let label = match kind {
        ContextSegmentKind::System => "System / context",
        ContextSegmentKind::Skills => "Skills",
        ContextSegmentKind::Retrieved => "Retrieved context",
        ContextSegmentKind::OtherContext => "Other context",
        ContextSegmentKind::Conversation => "Conversation",
        ContextSegmentKind::Output => "Output",
    };
    ContextBreakdownSegment { label, tokens, kind }
}

fn push_context_segment(segments: &mut Vec<ContextBreakdownSegment>, kind: ContextSegmentKind, tokens: u64)
    requires
        labels_match(old(segments)@),
    ensures
        labels_match(final(segments)@),
        segment_pairs(final(segments)@) == push_nonzero(segment_pairs(old(segments)@), kind, tokens),
{
    if tokens > 0 {
        segments.push(segment_for(kind, tokens));
        assert(segment_pairs(final(segments)@) =~= segment_pairs(old(segments)@).push((kind, tokens)));
    }
}

impl ContextWindowBreakdown {
    /// The segments of the breakdown bar for a counter.
    pub fn segments(self, counter: ContextWindowCounter) -> (r: Vec<ContextBreakdownSegment>)
        ensures
            segment_pairs(r@) == segments_spec(self, counter),
            labels_match(r@),
    {
        let mut segments: Vec<ContextBreakdownSegment> = Vec::new();
        assert(segment_pairs(segments@) =~= Seq::<(ContextSegmentKind, u64)>::empty());
        push_context_segment(&mut segments, ContextSegmentKind::System, self.system_tokens);
        push_context_segment(&mut segments, ContextSegmentKind::Skills, self.skills_tokens);
        push_context_segment(&mut segments, ContextSegmentKind::Retrieved, self.retrieved_tokens);
        push_context_segment(&mut segments, ContextSegmentKind::OtherContext, self.other_context_tokens);
        let conversation = self.conversation_tokens(counter);
        push_context_segment(&mut segments, ContextSegmentKind::Conversation, conversation);
        push_context_segment(&mut segments, ContextSegmentKind::Output, self.output_tokens);
        if segments.len() == 0 && counter.used_tokens > 0 {
            push_context_segment(&mut segments, ContextSegmentKind::Conversation, counter.used_tokens);
            assert(segment_pairs(segments@) =~= seq![(ContextSegmentKind::Conversation, counter.used_tokens)]);
        }
        segments
    }
}

/// Reports about the turn being tracked add up: a context block adds its
/// tokens to its category and to the total, and leaves the other
/// categories and the usage as they were.
pub proof fn law_blocks_of_one_turn_accumulate(
    b: ContextWindowBreakdown,
    turn_id: Seq<char>,
    block_type: Seq<char>,
    tokens: u64,
)
    requires
        b.active_context_turn == Some(turn_key(turn_id)),
    ensures
        ({
            let a = block_recorded(b, turn_id, block_type, tokens);
            &&& a.active_context_turn == b.active_context_turn
            &&& a.context_total_tokens == b.context_total_tokens.saturating_add(tokens)
            &&& a.system_tokens + a.skills_tokens + a.retrieved_tokens + a.other_context_tokens
                >= b.system_tokens + b.skills_tokens + b.retrieved_tokens + b.other_context_tokens
            &&& a.prompt_tokens == b.prompt_tokens && a.output_tokens == b.output_tokens
        }),
{
}

/// A report about another turn starts its context from nothing: only the
/// reported block is counted afterwards.
pub proof fn law_new_turn_starts_from_nothing(
    b: ContextWindowBreakdown,
    turn_id: Seq<char>,
    block_type: Seq<char>,
    tokens: u64,
)
    requires
        b.active_context_turn != Some(turn_key(turn_id)),
    ensures
        ({
            let a = block_recorded(b, turn_id, block_type, tokens);
            &&& a.active_context_turn == Some(turn_key(turn_id))
            &&& a.context_total_tokens == tokens
            &&& a.system_tokens + a.skills_tokens + a.retrieved_tokens + a.other_context_tokens == tokens
        }),
{
}

/// The bar never shows an empty segment.
pub proof fn law_segments_hold_tokens(b: ContextWindowBreakdown, c: ContextWindowCounter)
    ensures
        forall|i: int| 0 <= i < segments_spec(b, c).len() ==> (#[trigger] segments_spec(b, c)[i]).1 > 0,
{
}

/// What a member of a JSON object holds, as far as the token count reads
/// it: nothing (the member or the object is missing), a non-negative
/// integer, or anything else.
#[derive(Debug, Clone, Copy, PartialEq, Eq, Structural)]
pub enum JsonCount {
    Absent,
    Count(u64),
    Other,
}

/// The two members that may hold a reasoning-token count.
#[derive(Debug, Clone, Copy, PartialEq, Eq, Structural)]
pub struct TokenDetails {
    pub reasoning_tokens: JsonCount,
    pub thinking_tokens: JsonCount,
}

/// The token details of a usage report, under either of their names;
/// `None` where the member is missing.
#[derive(Debug, Clone, Copy, PartialEq, Eq, Structural)]
pub struct UsageDetails {
    pub output_tokens_details: Option<TokenDetails>,
    pub completion_tokens_details: Option<TokenDetails>,
}

/// The reasoning tokens that provider metadata reports: from the output
/// (or else the completion) token details, the reasoning (or else the
/// thinking) count, when it is an integer that fits in `u32`. A member
/// that is present decides, whatever it holds.
pub open spec fn reasoning_tokens(usage: Option<UsageDetails>) -> Option<u32> {
    match usage {
        None => None,
        Some(u) => {
            let details = if u.output_tokens_details is Some {
                u.output_tokens_details
            } else {
                u.completion_tokens_details
            };
            match details {
                None => None,
                Some(d) => {
                    let count = if d.reasoning_tokens != JsonCount::Absent {
                        d.reasoning_tokens
                    } else {
                        d.thinking_tokens
                    };
                    match count {
                        JsonCount::Count(n) => if n <= u32::MAX {
                            Some(n as u32)
                        } else {
                            None
                        },
                        _ => None,
                    }
                },
            }
        },
    }
}

pub fn reasoning_tokens_from_provider_metadata(usage: Option<UsageDetails>) -> (r: Option<u32>)
    ensures
        r == reasoning_tokens(usage),
{
    let u = match usage {
        Some(u) => u,
        None => return None,
    };
    let details = match u.output_tokens_details {
        Some(d) => d,
        None => match u.completion_tokens_details {
            Some(d) => d,
            None => return None,
        },
    };
    let count = match details.reasoning_tokens {
        JsonCount::Absent => details.thinking_tokens,
        other => other,
    };
    match count {
        JsonCount::Count(n) => if n <= 0xffff_ffff {
            Some(n as u32)
        } else {
            None
        },
        _ => None,
    }
}

} // verus!
