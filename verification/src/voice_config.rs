//! The `[tui.voice]` settings read by hand from a config file that a TOML
//! parser would not take.
use vstd::prelude::*;
use crate::config::{fallback_toml_string, fallback_toml_table_assignments, toml_string, toml_table};
use crate::text::{chars_of, str_eq, trim, trim_range};
use crate::tools::{parse_u64, parse_u64_range};

verus! {

broadcast use vstd::string::group_string_axioms;

/// The voice settings.
#[derive(Debug, Clone, PartialEq, Eq)]
pub struct VoiceConfig {
    pub enabled: Option<bool>,
    /// The voice mode as written in the config; the voice pane gives it its
    /// meaning.
    pub mode: Option<String>,
    pub record_command: Option<String>,
    pub provider: Option<String>,
    pub model: Option<String>,
    pub language: Option<String>,
    pub mime_type: Option<String>,
    pub hold_idle_stop_millis: Option<u64>,
}

/// `true` or `false` (trimmed), else nothing.
pub open spec fn bool_value(v: Seq<char>) -> Option<bool> {
    let t = trim(v);
    if t == "true"@ {
        Some(true)
    } else if t == "false"@ {
        Some(false)
    } else {
        None
    }
}

/// The raw value of `key` in `m`.
pub open spec fn raw(m: Map<Seq<char>, Seq<char>>, key: Seq<char>) -> Option<Seq<char>> {
    if m.dom().contains(key) {
        Some(m[key])
    } else {
        None
    }
}

/// The quoted string value of `key` in `m`.
pub open spec fn string_setting(m: Map<Seq<char>, Seq<char>>, key: Seq<char>) -> Option<Seq<char>> {
    match raw(m, key) {
        Some(v) => toml_string(v),
        None => None,
    }
}

pub open spec fn opt_view(o: Option<String>) -> Option<Seq<char>> {
    match o {
        Some(s) => Some(s@),
        None => None,
    }
}

/// Whether `c` holds what the assignments `m` of `[tui.voice]` set.
pub open spec fn voice_config_of(m: Map<Seq<char>, Seq<char>>, c: VoiceConfig) -> bool {
    &&& c.enabled == match raw(m, "enabled"@) {
        Some(v) => bool_value(v),
        None => None,
    }
    &&& opt_view(c.mode) == string_setting(m, "mode"@)
    &&& opt_view(c.record_command) == string_setting(m, "record_command"@)
    &&& opt_view(c.provider) == string_setting(m, "provider"@)
    &&& opt_view(c.model) == string_setting(m, "model"@)
    &&& opt_view(c.language) == string_setting(m, "language"@)
    &&& opt_view(c.mime_type) == string_setting(m, "mime_type"@)
    &&& c.hold_idle_stop_millis == match raw(m, "hold_idle_stop_millis"@) {
        Some(v) => parse_u64(trim(v)),
        None => None,
    }
}

fn string_value(values: &crate::config::TableAssignments, key: &str) -> (r: Option<String>)
    ensures
        opt_view(r) == string_setting(values@, key@),
{
    match values.get(key) {
        Some(v) => fallback_toml_string(v.as_str()),
        None => None,
    }
}

/// The voice settings of `[tui.voice]` in `contents`, read line by line;
/// nothing when the table sets nothing.
pub fn fallback_voice_config_from_text(contents: &str) -> (r: Option<VoiceConfig>)
    ensures
        match r {
            Some(c) => !toml_table(contents@, "tui.voice"@).is_empty() && voice_config_of(
                toml_table(contents@, "tui.voice"@),
                c,
            ),
            None => toml_table(contents@, "tui.voice"@).is_empty(),
        },
{
    let values = fallback_toml_table_assignments(contents, "tui.voice");
    if values.is_empty() {
        return None;
    }
    let enabled = match values.get("enabled") {
        Some(v) => {
            let c = chars_of(v.as_str());
            let (a, b) = trim_range(&c, 0, c.len());
            assert(c@.subrange(0, c@.len() as int) =~= c@);
            let t = crate::text::string_of(&c, a, b);
            if str_eq(t.as_str(), "true") {
                Some(true)
            } else if str_eq(t.as_str(), "false") {
                Some(false)
            } else {
                None
            }
        },
        None => None,
    };
    let hold = match values.get("hold_idle_stop_millis") {
        Some(v) => {
            let c = chars_of(v.as_str());
            let (a, b) = trim_range(&c, 0, c.len());
            assert(c@.subrange(0, c@.len() as int) =~= c@);
            parse_u64_range(&c, a, b)
        },
        None => None,
    };
    let config = VoiceConfig {
        enabled,
        mode: string_value(&values, "mode"),
        record_command: string_value(&values, "record_command"),
        provider: string_value(&values, "provider"),
        model: string_value(&values, "model"),
        language: string_value(&values, "language"),
        mime_type: string_value(&values, "mime_type"),
        hold_idle_stop_millis: hold,
    };
    Some(config)
}

} // verus!
