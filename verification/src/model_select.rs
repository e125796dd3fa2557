//! Choosing a model: finding the model that `/model <name>` names, how a
//! selection is labelled, and what is reported once it is made.
use vstd::prelude::*;
use crate::menu::ProviderOption;
use crate::providers::{model_label, provider_model_label};
use crate::text::{chars_of, push_str, str_eq, string_from, string_of, trim, trim_range};

verus! {

broadcast use vstd::string::group_string_axioms;

/// How the server chose the model in use.
#[derive(Debug, Clone, PartialEq, Eq)]
pub enum ModelSelectionMode {
    /// A routing option chose it; `label` names the option.
    Auto { label: String },
    /// The user chose it.
    Manual,
}

/// How a selection is named: the routing option's label, or the provider
/// and model.
pub open spec fn selection_label(mode: ModelSelectionMode, provider: Seq<char>, model: Seq<char>) -> Seq<char> {
    match mode {
        ModelSelectionMode::Auto { label } => label@,
        ModelSelectionMode::Manual => model_label(provider, model),
    }
}

pub fn model_selection_mode_label(mode: &ModelSelectionMode, provider: &str, model: &str) -> (r: String)
    ensures
        r@ == selection_label(*mode, provider@, model@),
{
    match mode {
        ModelSelectionMode::Auto { label } => label.clone(),
        ModelSelectionMode::Manual => provider_model_label(provider, model),
    }
}

/// Whether option `k` is the first one for `provider` and `model`.
pub open spec fn first_option_for(options: Seq<ProviderOption>, provider: Seq<char>, model: Seq<char>, k: int) -> bool {
    &&& 0 <= k < options.len()
    &&& options[k].provider_id@ == provider && options[k].model_id@ == model
    &&& forall|j: int|
        0 <= j < k ==> !(#[trigger] options[j].provider_id@ == provider && options[j].model_id@ == model)
}

/// The context window that the first option for `provider` and `model`
/// records; nothing when there is no such option.
pub fn context_window_from_options(options: &Vec<ProviderOption>, provider: &str, model: &str) -> (r:
    Option<u32>)
    ensures
        (exists|k: int| first_option_for(options@, provider@, model@, k)) ==> r == options@[choose|k: int|
            first_option_for(options@, provider@, model@, k)].context_window,
        (forall|j: int|
            0 <= j < options@.len() ==> !(#[trigger] options@[j].provider_id@ == provider@
                && options@[j].model_id@ == model@)) ==> r is None,
{
    let mut i: usize = 0;
    while i < options.len()
        invariant
            0 <= i <= options@.len(),
            forall|j: int|
                0 <= j < i ==> !(#[trigger] options@[j].provider_id@ == provider@ && options@[j].model_id@
                    == model@),
        decreases options@.len() - i,
    {
        if str_eq(options[i].provider_id.as_str(), provider) && str_eq(
            options[i].model_id.as_str(),
            model,
        ) {
            proof {
                assert(first_option_for(options@, provider@, model@, i as int));
                let k = choose|k: int| first_option_for(options@, provider@, model@, k);
                if k < i {
                    assert(options@[k].provider_id@ == provider@ && options@[k].model_id@ == model@);
                } else if k > i {
                    assert(options@[i as int].provider_id@ == provider@);
                }
            }
            return options[i].context_window;
        }
        i += 1;
    }
    None
}

/// What is reported once a model is selected: the timeline line and the
/// event.
pub fn model_switch_messages(label: &str, reasoning: &str) -> (r: (String, String))
    ensures
        r.0@ == "switched model to "@ + label@ + " with reasoning "@ + reasoning@ + "."@,
        r.1@ == "model selected: "@ + label@ + " ("@ + reasoning@ + ")"@,
{
    let mut system = string_from("switched model to ");
    push_str(&mut system, label);
    push_str(&mut system, " with reasoning ");
    push_str(&mut system, reasoning);
    push_str(&mut system, ".");
    let mut event = string_from("model selected: ");
    push_str(&mut event, label);
    push_str(&mut event, " (");
    push_str(&mut event, reasoning);
    push_str(&mut event, ")");
    (system, event)
}

/// A provider and the ids of its models, as the providers list gives them.
pub struct ProviderModels {
    pub id: String,
    pub model_ids: Vec<String>,
}

/// Whether model id `m` of provider `p` is what `/model <query>` names: the
/// id itself, or `provider/id`.
pub open spec fn names_model(p: Seq<char>, m: Seq<char>, query: Seq<char>) -> bool {
    m == query || p + "/"@ + m == query
}

/// Whether `(i, k)` is the first model that the query names: in the first
/// provider that has one, its first such model.
pub open spec fn first_named(providers: Seq<ProviderModels>, query: Seq<char>, i: int, k: int) -> bool {
    &&& 0 <= i < providers.len()
    &&& 0 <= k < providers[i].model_ids@.len()
    &&& names_model(providers[i].id@, providers[i].model_ids@[k]@, query)
    &&& forall|q: int|
        0 <= q < k ==> !names_model(providers[i].id@, #[trigger] providers[i].model_ids@[q]@, query)
    &&& forall|j: int, q: int|
        0 <= j < i && 0 <= q < providers[j].model_ids@.len() ==> !names_model(
            providers[j].id@,
            #[trigger] providers[j].model_ids@[q]@,
            query,
        )
}

/// Whether `provider/model` equals `query`.
fn qualified_eq(provider: &str, model: &str, query: &str) -> (r: bool)
    ensures
        r == (provider@ + "/"@ + model@ == query@),
{
    let mut s = string_from(provider);
    push_str(&mut s, "/");
    push_str(&mut s, model);
    str_eq(s.as_str(), query)
}

/// The provider and model that `/model <query>` names, if any.
pub fn find_named_model(providers: &Vec<ProviderModels>, query: &str) -> (r: Option<(String, String)>)
    ensures
        match r {
            Some((p, m)) => exists|i: int, k: int|
                first_named(providers@, query@, i, k) && p@ == providers@[i].id@ && m@
                    == providers@[i].model_ids@[k]@,
            None => forall|j: int, q: int|
                0 <= j < providers@.len() && 0 <= q < providers@[j].model_ids@.len() ==> !names_model(
                    providers@[j].id@,
                    #[trigger] providers@[j].model_ids@[q]@,
                    query@,
                ),
        },
{
    let mut i: usize = 0;
    while i < providers.len()
        invariant
            0 <= i <= providers@.len(),
            forall|j: int, q: int|
                0 <= j < i && 0 <= q < providers@[j].model_ids@.len() ==> !names_model(
                    providers@[j].id@,
                    #[trigger] providers@[j].model_ids@[q]@,
                    query@,
                ),
        decreases providers@.len() - i,
    {
        let p = &providers[i];
        let mut k: usize = 0;
        while k < p.model_ids.len()
            invariant
                0 <= i < providers@.len(),
                p == providers@[i as int],
                0 <= k <= p.model_ids@.len(),
                forall|j: int, q: int|
                    0 <= j < i && 0 <= q < providers@[j].model_ids@.len() ==> !names_model(
                        providers@[j].id@,
                        #[trigger] providers@[j].model_ids@[q]@,
                        query@,
                    ),
                forall|q: int| 0 <= q < k ==> !names_model(p.id@, #[trigger] p.model_ids@[q]@, query@),
            decreases p.model_ids@.len() - k,
        {
            let m = p.model_ids[k].as_str();
            if str_eq(m, query) || qualified_eq(p.id.as_str(), m, query) {
                proof {
                    assert(first_named(providers@, query@, i as int, k as int));
                }
                return Some((p.id.clone(), p.model_ids[k].clone()));
            }
            k += 1;
        }
        i += 1;
    }
    None
}

/// What `/model` says when given no name: the model in use, and that the
/// model settings open.
pub fn active_model_message(provider: &str, model: &str) -> (r: String)
    ensures
        r@ == "Active model: "@ + model_label(provider@, model@) + ". Opening model settings."@,
{
    let mut s = string_from("Active model: ");
    let label = provider_model_label(provider, model);
    push_str(&mut s, label.as_str());
    push_str(&mut s, ". Opening model settings.");
    s
}

/// What `/model <name>` reports when no model has that name.
pub fn model_not_found_message(name: &str) -> (r: String)
    ensures
        r@ == "model not found for /model "@ + name@,
{
    let mut s = string_from("model not found for /model ");
    push_str(&mut s, name);
    s
}

/// The model name that `/model <args>` asks for: the arguments trimmed,
/// nothing when they are blank.
pub fn model_slash_argument(args: &str) -> (r: Option<String>)
    ensures
        match r {
            Some(name) => trim(args@).len() > 0 && name@ == trim(args@),
            None => trim(args@).len() == 0,
        },
{
    let v = chars_of(args);
    assert(v@.subrange(0, v@.len() as int) =~= v@);
    let (a, b) = trim_range(&v, 0, v.len());
    if a < b {
        Some(string_of(&v, a, b))
    } else {
        None
    }
}

} // verus!
