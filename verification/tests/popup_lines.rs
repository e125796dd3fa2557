use roder_tui::menu::{ProviderAuthType, ProviderChoice};
use roder_tui::popup_lines::{provider_api_key_input_line, provider_api_key_items, provider_search_line};
use roder_tui::timeline_rows::{StyledLine, TextRole};

fn text(line: &StyledLine) -> String {
    line.iter().map(|(t, _)| t.as_str()).collect::<String>()
}

#[test]
fn provider_api_key_prompt_hides_pasted_key() {
    let empty = provider_api_key_input_line("");
    assert_eq!(empty[1].0, "paste API key");

    let pasted = provider_api_key_input_line("sk-secret");
    assert_eq!(pasted[1].0, "[api key hidden]");
    assert!(!text(&pasted).contains("sk-secret"));
}

#[test]
fn provider_search_line_shows_placeholder_and_query() {
    let placeholder = provider_search_line("");
    assert_eq!(placeholder[1].0, "type to filter");

    let query = provider_search_line("codex");
    assert_eq!(query[1].0, "codex");
    assert_eq!(text(&provider_search_line("  gpt  ")), " / gpt  ");
    assert_eq!(placeholder[1].1, TextRole::Muted);
    assert_eq!(query[0].1, TextRole::Accent);
}

#[test]
fn provider_api_key_items_name_the_page_and_the_provider() {
    let cursor = ProviderChoice {
        provider_id: "cursor".to_string(),
        name: "Cursor".to_string(),
        description: None,
        auth_type: ProviderAuthType::ApiKey,
        authenticated: false,
        auth_detail: None,
        default_model: None,
        recommended: false,
    };
    let items = provider_api_key_items(Some(&cursor), "");
    assert_eq!(items.len(), 4);
    assert_eq!(text(&items[0]), "Open https://cursor.com/dashboard/integrations");
    assert_eq!(text(&items[1]), "Create or copy a Cursor API key, then paste it here.");
    assert_eq!(text(&items[2]), "Ctrl+O open page  Enter save  Esc back");
    assert_eq!(text(&items[3]), "waiting for key");

    let none = provider_api_key_items(None, " key ");
    assert_eq!(text(&none[0]), "Open https://opencode.ai/auth");
    assert_eq!(text(&none[1]), "Create or copy a provider API key, then paste it here.");
    assert_eq!(text(&none[3]), "key pasted");
}
