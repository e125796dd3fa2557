use roder_tui::context::{
    reasoning_tokens_from_provider_metadata, JsonCount, TokenDetails, UsageDetails,
    compact_token_count, context_block_category, stable_context_turn_key,
    ContextBreakdownCategory, ContextSegmentKind, ContextWindowBreakdown, ContextWindowCounter,
};

#[test]
fn context_window_counter_hitbox_uses_hover_width_at_right_edge() {
    let usage = ContextWindowCounter {
        used_tokens: 15_800,
        max_tokens: 1_000_000,
        hovered: false,
    };
    assert!(usage.hit_test(120, 0, 108));
    assert!(usage.hit_test(120, 0, 119));
    assert!(!usage.hit_test(120, 0, 100));
    assert!(!usage.hit_test(120, 1, 119));
}

#[test]
fn context_window_counter_formats_compact_hovered_label() {
    let hovered = ContextWindowCounter {
        used_tokens: 15_800,
        max_tokens: 1_000_000,
        hovered: true,
    };
    assert_eq!(hovered.expanded_label(), "│ 15K / 1.0M │");
}

#[test]
fn compact_token_counts_floor_to_thousands_and_tenths_of_millions() {
    assert_eq!(compact_token_count(0), "0");
    assert_eq!(compact_token_count(999), "999");
    assert_eq!(compact_token_count(1_000), "1K");
    assert_eq!(compact_token_count(999_999), "999K");
    assert_eq!(compact_token_count(1_999_999), "1.9M");
    assert_eq!(compact_token_count(128_000_000), "128.0M");
}

#[test]
fn context_block_categories_map_cursor_like_sources() {
    assert_eq!(
        context_block_category("Instruction"),
        ContextBreakdownCategory::System
    );
    assert_eq!(
        context_block_category("RetrievedDocument"),
        ContextBreakdownCategory::Retrieved
    );
    assert_eq!(
        context_block_category("skill:index"),
        ContextBreakdownCategory::Skills
    );
    assert_eq!(
        context_block_category("ToolAvailability"),
        ContextBreakdownCategory::OtherContext
    );
}

#[test]
fn context_block_categories_fold_case_for_skills() {
    assert_eq!(context_block_category("SkillIndex"), ContextBreakdownCategory::Skills);
    assert_eq!(context_block_category("Memory"), ContextBreakdownCategory::Retrieved);
    assert_eq!(context_block_category("PriorSummary"), ContextBreakdownCategory::System);
    assert_eq!(context_block_category("instruction"), ContextBreakdownCategory::OtherContext);
}

#[test]
fn context_window_breakdown_segments_conversation_from_prompt_remainder() {
    let breakdown = ContextWindowBreakdown {
        system_tokens: 4_000,
        skills_tokens: 1_000,
        retrieved_tokens: 2_000,
        context_total_tokens: 7_000,
        prompt_tokens: 20_000,
        output_tokens: 3_000,
        ..Default::default()
    };

    let segments = breakdown.segments(ContextWindowCounter {
        used_tokens: 23_000,
        max_tokens: 100_000,
        hovered: true,
    });
    let labels = segments
        .iter()
        .map(|segment| (segment.label, segment.tokens))
        .collect::<Vec<_>>();

    assert_eq!(
        labels,
        vec![
            ("System / context", 4_000),
            ("Skills", 1_000),
            ("Retrieved context", 2_000),
            ("Conversation", 13_000),
            ("Output", 3_000),
        ]
    );
}

#[test]
fn empty_breakdown_shows_all_usage_as_conversation() {
    let breakdown = ContextWindowBreakdown::default();
    let counter = ContextWindowCounter { used_tokens: 500, max_tokens: 1_000, hovered: false };
    let segments = breakdown.segments(counter);
    assert_eq!(segments.len(), 1);
    assert_eq!(segments[0].kind, ContextSegmentKind::Conversation);
    assert_eq!(segments[0].tokens, 500);
    assert_eq!(breakdown.conversation_tokens(counter), 500);
    let idle = ContextWindowCounter { used_tokens: 0, max_tokens: 1_000, hovered: false };
    assert!(breakdown.segments(idle).is_empty());
}

#[test]
fn turn_keys_are_fnv_hashes_of_the_id() {
    assert_eq!(stable_context_turn_key(""), 0xcbf29ce484222325);
    assert_eq!(stable_context_turn_key("a"), 0xaf63bd4c8601b7be);
    assert_eq!(stable_context_turn_key("turn-1"), stable_context_turn_key("turn-1"));
    assert_ne!(stable_context_turn_key("turn-1"), stable_context_turn_key("turn-2"));
}

#[test]
fn context_blocks_accumulate_within_a_turn_and_reset_on_a_new_one() {
    let mut breakdown = ContextWindowBreakdown::default();
    breakdown.record_context_block("turn-1", "Instruction", 100);
    breakdown.record_context_block("turn-1", "skill:index", 40);
    breakdown.record_skill_index("turn-1", 10);
    assert_eq!(breakdown.active_context_turn, Some(stable_context_turn_key("turn-1")));
    assert_eq!(breakdown.system_tokens, 100);
    assert_eq!(breakdown.skills_tokens, 50);
    assert_eq!(breakdown.context_total_tokens, 150);

    breakdown.record_context_completed("turn-1", 120);
    assert_eq!(breakdown.context_total_tokens, 120);
    assert_eq!(breakdown.system_tokens, 100);

    breakdown.record_usage(900, 10, 30);
    breakdown.record_usage(800, 20, 20);
    assert_eq!(breakdown.prompt_tokens, 900);
    assert_eq!(breakdown.cached_prompt_tokens, 20);
    assert_eq!(breakdown.output_tokens, 30);

    breakdown.record_context_block("turn-2", "Memory", 7);
    assert_eq!(breakdown.active_context_turn, Some(stable_context_turn_key("turn-2")));
    assert_eq!(breakdown.system_tokens, 0);
    assert_eq!(breakdown.skills_tokens, 0);
    assert_eq!(breakdown.retrieved_tokens, 7);
    assert_eq!(breakdown.context_total_tokens, 7);
    assert_eq!(breakdown.prompt_tokens, 900);

    breakdown.begin_turn();
    assert_eq!(breakdown.prompt_tokens, 0);
    assert_eq!(breakdown.output_tokens, 0);
    assert_eq!(breakdown.retrieved_tokens, 7);

    breakdown.start_context_turn("turn-3".to_string());
    assert_eq!(breakdown.retrieved_tokens, 0);
    assert_eq!(breakdown.active_context_turn, Some(stable_context_turn_key("turn-3")));
}

#[test]
fn reasoning_token_count_is_extracted_from_provider_metadata() {
    let usage = UsageDetails {
        output_tokens_details: Some(TokenDetails {
            reasoning_tokens: JsonCount::Count(2048),
            thinking_tokens: JsonCount::Absent,
        }),
        completion_tokens_details: None,
    };
    assert_eq!(reasoning_tokens_from_provider_metadata(Some(usage)), Some(2048));
}

#[test]
fn reasoning_token_count_falls_back_only_for_missing_members() {
    let thinking = TokenDetails { reasoning_tokens: JsonCount::Absent, thinking_tokens: JsonCount::Count(7) };
    let odd = TokenDetails { reasoning_tokens: JsonCount::Other, thinking_tokens: JsonCount::Count(7) };
    assert_eq!(
        reasoning_tokens_from_provider_metadata(Some(UsageDetails {
            output_tokens_details: None,
            completion_tokens_details: Some(thinking),
        })),
        Some(7)
    );
    assert_eq!(
        reasoning_tokens_from_provider_metadata(Some(UsageDetails {
            output_tokens_details: Some(odd),
            completion_tokens_details: Some(thinking),
        })),
        None
    );
    let huge = TokenDetails { reasoning_tokens: JsonCount::Count(1 << 40), thinking_tokens: JsonCount::Absent };
    assert_eq!(
        reasoning_tokens_from_provider_metadata(Some(UsageDetails {
            output_tokens_details: Some(huge),
            completion_tokens_details: None,
        })),
        None
    );
    assert_eq!(reasoning_tokens_from_provider_metadata(None), None);
}
