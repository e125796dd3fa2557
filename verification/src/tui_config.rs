//! The TUI settings read from the text of the user's config file: parsed as
//! TOML where it parses, else only the voice settings, read line by line.
use vstd::prelude::*;
use crate::config::toml_table;
use crate::menus::TimelineSettings;
use crate::paste::views;
use crate::text::str_eq;
use crate::voice_config::{fallback_voice_config_from_text, opt_view, voice_config_of, VoiceConfig};

verus! {

broadcast use vstd::string::group_string_axioms;

/// A parsed TOML value. The library never reads a float or a datetime, so
/// it keeps only that one is there.
#[derive(Debug)]
pub enum TomlValue {
    Str(String),
    Integer(i64),
    Float,
    Boolean(bool),
    Datetime,
    Array(Vec<TomlValue>),
    /// The entries of a table, keys in the parser's order, each once.
    Table(Vec<(String, TomlValue)>),
}

#[verifier::external_type_specification]
#[verifier::external_body]
pub struct ExTomlValue(toml::Value);

/// What `toml::from_str::<toml::Value>` makes of `text`: the document, or
/// nothing where it does not parse.
pub uninterp spec fn toml_parse_of(text: Seq<char>) -> Option<TomlValue>;

/// `toml::Value` converted variant for variant into `TomlValue` (for
/// `toml_parse`, whose contract covers the conversion).
#[verifier::external_body]
fn toml_value_from(v: &toml::Value) -> (r: TomlValue) {
    match v {
        toml::Value::String(s) => TomlValue::Str(s.clone()),
        toml::Value::Integer(i) => TomlValue::Integer(*i),
        toml::Value::Float(_) => TomlValue::Float,
        toml::Value::Boolean(b) => TomlValue::Boolean(*b),
        toml::Value::Datetime(_) => TomlValue::Datetime,
        toml::Value::Array(a) => TomlValue::Array(a.iter().map(toml_value_from).collect()),
        toml::Value::Table(t) => TomlValue::Table(
            t.iter().map(|(k, v)| (k.clone(), toml_value_from(v))).collect(),
        ),
    }
}

/// Parses `text` with `toml::from_str::<toml::Value>`: the parsed document,
/// or `None` where the parser refuses the text. What the parser makes of a
/// text is only named, `toml_parse_of`; it depends on the text alone.
#[verifier::external_body]
fn toml_parse(text: &str) -> (r: Option<TomlValue>)
    ensures
        r == toml_parse_of(text@),
{
    toml::from_str::<toml::Value>(text).ok().map(|v| toml_value_from(&v))
}

/// The value of the first entry of `t` named `key`.
pub open spec fn entry_of(t: Seq<(String, TomlValue)>, key: Seq<char>) -> Option<TomlValue>
    decreases t.len(),
{
    if t.len() == 0 {
        None
    } else if t[0].0@ == key {
        Some(t[0].1)
    } else {
        entry_of(t.drop_first(), key)
    }
}

/// `v[key]` as `toml::Value::get` reads it: only a table has entries.
pub open spec fn get(v: Option<TomlValue>, key: Seq<char>) -> Option<TomlValue> {
    match v {
        Some(TomlValue::Table(t)) => entry_of(t@, key),
        _ => None,
    }
}

pub open spec fn str_of(v: Option<TomlValue>) -> Option<Seq<char>> {
    match v {
        Some(TomlValue::Str(s)) => Some(s@),
        _ => None,
    }
}

pub open spec fn bool_of(v: Option<TomlValue>) -> Option<bool> {
    match v {
        Some(TomlValue::Boolean(b)) => Some(b),
        _ => None,
    }
}

/// An integer that fits in `u64`.
pub open spec fn u64_of(v: Option<TomlValue>) -> Option<u64> {
    match v {
        Some(TomlValue::Integer(i)) => if i >= 0 {
            Some(i as u64)
        } else {
            None
        },
        _ => None,
    }
}

pub open spec fn is_table(v: Option<TomlValue>) -> bool {
    v matches Some(TomlValue::Table(_))
}

/// `[tui.scroll_acceleration]`.
#[derive(Debug, Clone, Copy, PartialEq, Eq, Structural)]
pub struct TuiScrollAccelerationConfig {
    pub enabled: Option<bool>,
}

/// `[tui.timeline]`.
#[derive(Debug, Clone, Copy, PartialEq, Eq, Structural)]
pub struct TuiTimelineConfig {
    pub message_folding: Option<bool>,
}

/// The TUI settings that the library reads (the scroll speed, a float, is
/// read beside it).
#[derive(Debug, Clone, PartialEq, Eq)]
pub struct TuiUserConfigCore {
    pub spinner: Option<String>,
    pub scroll_acceleration: Option<TuiScrollAccelerationConfig>,
    pub timeline: Option<TuiTimelineConfig>,
    pub voice: Option<VoiceConfig>,
}

impl TuiUserConfigCore {
    /// Scroll acceleration is on unless the config turns it off.
    pub fn scroll_acceleration_enabled(&self) -> (r: bool)
        ensures
            r == match self.scroll_acceleration {
                Some(TuiScrollAccelerationConfig { enabled: Some(e) }) => e,
                _ => true,
            },
    {
        match self.scroll_acceleration {
            Some(TuiScrollAccelerationConfig { enabled: Some(e) }) => e,
            _ => true,
        }
    }

    /// Message folding is off unless the config turns it on.
    pub fn timeline_settings(&self) -> (r: TimelineSettings)
        ensures
            r.message_folding == match self.timeline {
                Some(TuiTimelineConfig { message_folding: Some(f) }) => f,
                _ => false,
            },
    {
        TimelineSettings {
            message_folding: match self.timeline {
                Some(TuiTimelineConfig { message_folding: Some(f) }) => f,
                _ => false,
            },
        }
    }
}

/// Whether `c` holds what the voice table `v` sets: each setting of its
/// type, and the idle stop only where it fits in `u64`.
pub open spec fn voice_of_table(v: Option<TomlValue>, c: VoiceConfig) -> bool {
    &&& c.enabled == bool_of(get(v, "enabled"@))
    &&& opt_view(c.mode) == str_of(get(v, "mode"@))
    &&& opt_view(c.record_command) == str_of(get(v, "record_command"@))
    &&& opt_view(c.provider) == str_of(get(v, "provider"@))
    &&& opt_view(c.model) == str_of(get(v, "model"@))
    &&& opt_view(c.language) == str_of(get(v, "language"@))
    &&& opt_view(c.mime_type) == str_of(get(v, "mime_type"@))
    &&& c.hold_idle_stop_millis == u64_of(get(v, "hold_idle_stop_millis"@))
}

/// Whether `c` holds the `[tui]` settings of the parsed document `doc`: a
/// string spinner, and each sub-table's settings where it is a table.
pub open spec fn config_of_document(doc: TomlValue, c: TuiUserConfigCore) -> bool {
    let tui = get(Some(doc), "tui"@);
    &&& opt_view(c.spinner) == str_of(get(tui, "spinner"@))
    &&& c.scroll_acceleration == (if is_table(get(tui, "scroll_acceleration"@)) {
        Some(
            TuiScrollAccelerationConfig {
                enabled: bool_of(get(get(tui, "scroll_acceleration"@), "enabled"@)),
            },
        )
    } else {
        None
    })
    &&& c.timeline == (if is_table(get(tui, "timeline"@)) {
        Some(
            TuiTimelineConfig {
                message_folding: bool_of(get(get(tui, "timeline"@), "message_folding"@)),
            },
        )
    } else {
        None
    })
    &&& match c.voice {
        Some(vc) => is_table(get(tui, "voice"@)) && voice_of_table(get(tui, "voice"@), vc),
        None => !is_table(get(tui, "voice"@)),
    }
}

/// Whether `c` holds the settings of a config file whose text is `contents`
/// and which the TOML parser made `parsed` of: where the text parses, the
/// document's settings; where it does not, only the voice settings that the
/// line-by-line reading of `[tui.voice]` finds.
pub open spec fn tui_config_of(contents: Seq<char>, parsed: Option<TomlValue>, c: TuiUserConfigCore) -> bool {
    match parsed {
        Some(doc) => config_of_document(doc, c),
        None => {
            &&& c.spinner is None
            &&& c.scroll_acceleration is None
            &&& c.timeline is None
            &&& match c.voice {
                Some(vc) => !toml_table(contents, "tui.voice"@).is_empty() && voice_config_of(
                    toml_table(contents, "tui.voice"@),
                    vc,
                ),
                None => toml_table(contents, "tui.voice"@).is_empty(),
            }
        },
    }
}

pub open spec fn deref_opt(v: Option<&TomlValue>) -> Option<TomlValue> {
    match v {
        Some(x) => Some(*x),
        None => None,
    }
}

/// `v[key]`.
pub fn toml_get<'a>(v: Option<&'a TomlValue>, key: &str) -> (r: Option<&'a TomlValue>)
    ensures
        deref_opt(r) == get(deref_opt(v), key@),
{
    match v {
        Some(TomlValue::Table(t)) => {
            let mut i: usize = 0;
            assert(t@.subrange(0, t@.len() as int) =~= t@);
            while i < t.len()
                invariant
                    0 <= i <= t@.len(),
                    get(deref_opt(v), key@) == entry_of(t@, key@),
                    entry_of(t@, key@) == entry_of(t@.subrange(i as int, t@.len() as int), key@),
                decreases t@.len() - i,
            {
                let ghost rest = t@.subrange(i as int, t@.len() as int);
                assert(rest[0] == t@[i as int]);
                if str_eq(t[i].0.as_str(), key) {
                    return Some(&t[i].1);
                }
                assert(rest.drop_first() =~= t@.subrange(i + 1, t@.len() as int));
                i += 1;
            }
            None
        },
        _ => None,
    }
}

fn toml_str(v: Option<&TomlValue>) -> (r: Option<String>)
    ensures
        opt_view(r) == str_of(deref_opt(v)),
{
    match v {
        Some(TomlValue::Str(s)) => Some(s.clone()),
        _ => None,
    }
}

fn toml_bool(v: Option<&TomlValue>) -> (r: Option<bool>)
    ensures
        r == bool_of(deref_opt(v)),
{
    match v {
        Some(TomlValue::Boolean(b)) => Some(*b),
        _ => None,
    }
}

fn toml_u64(v: Option<&TomlValue>) -> (r: Option<u64>)
    ensures
        r == u64_of(deref_opt(v)),
{
    match v {
        Some(TomlValue::Integer(i)) => if *i >= 0 {
            Some(*i as u64)
        } else {
            None
        },
        _ => None,
    }
}

fn toml_is_table(v: Option<&TomlValue>) -> (r: bool)
    ensures
        r == is_table(deref_opt(v)),
{
    match v {
        Some(TomlValue::Table(_)) => true,
        _ => false,
    }
}

/// The `[tui]` settings of a parsed document.
pub fn config_from_document(doc: &TomlValue) -> (c: TuiUserConfigCore)
    ensures
        config_of_document(*doc, c),
{
    let tui = toml_get(Some(doc), "tui");
    let scroll = toml_get(tui, "scroll_acceleration");
    let timeline = toml_get(tui, "timeline");
    let voice = toml_get(tui, "voice");
    TuiUserConfigCore {
        spinner: toml_str(toml_get(tui, "spinner")),
        scroll_acceleration: if toml_is_table(scroll) {
            Some(TuiScrollAccelerationConfig { enabled: toml_bool(toml_get(scroll, "enabled")) })
        } else {
            None
        },
        timeline: if toml_is_table(timeline) {
            Some(TuiTimelineConfig { message_folding: toml_bool(toml_get(timeline, "message_folding")) })
        } else {
            None
        },
        voice: if toml_is_table(voice) {
            Some(
                VoiceConfig {
                    enabled: toml_bool(toml_get(voice, "enabled")),
                    mode: toml_str(toml_get(voice, "mode")),
                    record_command: toml_str(toml_get(voice, "record_command")),
                    provider: toml_str(toml_get(voice, "provider")),
                    model: toml_str(toml_get(voice, "model")),
                    language: toml_str(toml_get(voice, "language")),
                    mime_type: toml_str(toml_get(voice, "mime_type")),
                    hold_idle_stop_millis: toml_u64(toml_get(voice, "hold_idle_stop_millis")),
                },
            )
        } else {
            None
        },
    }
}

/// The TUI settings in the config file text `contents`, given what the
/// TOML parser made of it.
pub fn tui_config_from_parsed(contents: &str, parsed: Option<TomlValue>) -> (c: TuiUserConfigCore)
    ensures
        tui_config_of(contents@, parsed, c),
{
    match parsed {
        Some(doc) => config_from_document(&doc),
        None => TuiUserConfigCore {
            spinner: None,
            scroll_acceleration: None,
            timeline: None,
            voice: fallback_voice_config_from_text(contents),
        },
    }
}

/// The TUI settings in the config file text `contents`.
pub fn tui_config_from_text(contents: &str) -> (c: TuiUserConfigCore)
    ensures
        tui_config_of(contents@, toml_parse_of(contents@), c),
{
    let parsed = toml_parse(contents);
    tui_config_from_parsed(contents, parsed)
}

/// The settings of a missing config file: none.
pub fn empty_tui_config() -> (c: TuiUserConfigCore)
    ensures
        c.spinner is None,
        c.scroll_acceleration is None,
        c.timeline is None,
        c.voice is None,
{
    TuiUserConfigCore { spinner: None, scroll_acceleration: None, timeline: None, voice: None }
}

/// Whether the settings table `t` cannot take a value at the key path
/// `segs`: the path is empty, or a table on the way is something else.
pub open spec fn path_conflicts(t: Seq<(String, TomlValue)>, segs: Seq<Seq<char>>) -> bool
    decreases segs.len(),
{
    if segs.len() == 0 {
        true
    } else if segs.len() == 1 {
        false
    } else {
        match entry_of(t, segs[0]) {
            Some(TomlValue::Table(child)) => path_conflicts(child@, segs.drop_first()),
            Some(_) => true,
            None => false,
        }
    }
}

/// Whether a setting at `segs` under `[tui]` can be written through the
/// parsed document `doc`: it is a table whose `tui` entry, where present,
/// is a table with room for the path.
pub open spec fn table_shape_ok(doc: TomlValue, segs: Seq<Seq<char>>) -> bool {
    match doc {
        TomlValue::Table(root) => match entry_of(root@, "tui"@) {
            None => true,
            Some(TomlValue::Table(tui)) => !path_conflicts(tui@, segs),
            Some(_) => false,
        },
        _ => false,
    }
}

fn entry_index(t: &Vec<(String, TomlValue)>, key: &str) -> (r: Option<usize>)
    ensures
        match r {
            Some(k) => k < t@.len() && entry_of(t@, key@) == Some(t@[k as int].1),
            None => entry_of(t@, key@) is None,
        },
{
    let mut i: usize = 0;
    assert(t@.subrange(0, t@.len() as int) =~= t@);
    while i < t.len()
        invariant
            0 <= i <= t@.len(),
            entry_of(t@, key@) == entry_of(t@.subrange(i as int, t@.len() as int), key@),
        decreases t@.len() - i,
    {
        let ghost rest = t@.subrange(i as int, t@.len() as int);
        assert(rest[0] == t@[i as int]);
        if str_eq(t[i].0.as_str(), key) {
            return Some(i);
        }
        assert(rest.drop_first() =~= t@.subrange(i + 1, t@.len() as int));
        i += 1;
    }
    None
}

fn conflicts_from(t: &Vec<(String, TomlValue)>, segs: &Vec<String>, from: usize) -> (r: bool)
    requires
        from <= segs@.len(),
    ensures
        r == path_conflicts(t@, views(segs@).subrange(from as int, segs@.len() as int)),
    decreases segs@.len() - from,
{
    let ghost rest = views(segs@).subrange(from as int, segs@.len() as int);
    if from == segs.len() {
        return true;
    }
    if from + 1 == segs.len() {
        return false;
    }
    assert(rest[0] == segs@[from as int]@);
    assert(rest.drop_first() =~= views(segs@).subrange(from + 1, segs@.len() as int));
    match entry_index(t, segs[from].as_str()) {
        Some(k) => match &t[k].1 {
            TomlValue::Table(child) => conflicts_from(child, segs, from + 1),
            _ => true,
        },
        None => false,
    }
}

/// Whether the setting at `segs` under `[tui]` can be written through the
/// parsed document of `contents`; where it cannot (the text does not parse,
/// or a table on the path is something else), the file is patched line by
/// line instead.
pub fn tui_config_table_shape_ok(contents: &str, segs: &Vec<String>) -> (r: bool)
    ensures
        r == match toml_parse_of(contents@) {
            Some(doc) => table_shape_ok(doc, views(segs@)),
            None => false,
        },
{
    let parsed = toml_parse(contents);
    match &parsed {
        Some(TomlValue::Table(root)) => match entry_index(root, "tui") {
            None => true,
            Some(k) => match &root[k].1 {
                TomlValue::Table(tui) => {
                    assert(views(segs@).subrange(0, segs@.len() as int) =~= views(segs@));
                    !conflicts_from(tui, segs, 0)
                },
                _ => false,
            },
        },
        _ => false,
    }
}

} // verus!
