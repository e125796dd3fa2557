//! The providers that the server lists, turned into the choices of the
//! providers submenu and the options of the models submenu.
use vstd::prelude::*;
use crate::menu::{copy_opt_string, ProviderAuthType, ProviderChoice, ProviderOption, ReasoningEffort};
use crate::providers::{model_label, provider_model_label};
use crate::reports::opt_view;
use crate::text::{push_str, str_eq, string_from};

verus! {

broadcast use vstd::string::group_string_axioms;

/// A model that a provider offers.
#[derive(Debug, Clone, PartialEq, Eq)]
pub struct ModelDescriptor {
    pub id: String,
    pub name: String,
    pub context_window: Option<u32>,
    pub default_reasoning: Option<String>,
    pub supported_reasoning: Vec<ReasoningEffort>,
}

/// A provider as the server describes it.
#[derive(Debug, Clone, PartialEq, Eq)]
pub struct ProviderDescriptor {
    pub id: String,
    pub name: String,
    pub description: Option<String>,
    pub auth_type: ProviderAuthType,
    pub authenticated: bool,
    pub auth_detail: Option<String>,
    pub recommended: bool,
    pub models: Vec<ModelDescriptor>,
}

/// An automatic routing option: a label over a baseline provider and model.
#[derive(Debug, Clone, PartialEq, Eq)]
pub struct RoutingOptionDescriptor {
    pub id: String,
    pub label: String,
    pub baseline_provider: String,
    pub baseline_model: String,
    pub reasoning: Option<String>,
}

/// The server's answer to a providers listing.
#[derive(Debug, Clone, PartialEq, Eq)]
pub struct ProvidersListResult {
    pub active_provider: String,
    pub active_model: String,
    pub active_reasoning: String,
    pub routing_options: Vec<RoutingOptionDescriptor>,
    pub providers: Vec<ProviderDescriptor>,
}

/// The context window that the model catalogue reports for a provider and
/// model.
#[derive(Debug, Clone, PartialEq, Eq)]
pub struct CatalogWindow {
    pub provider: String,
    pub model: String,
    pub context_window: u32,
}

/// The catalogue's window for `provider` and `model`: that of the first
/// entry that names both, when it is above zero.
pub open spec fn catalog_window(catalog: Seq<CatalogWindow>, provider: Seq<char>, model: Seq<char>) -> Option<u32>
    decreases catalog.len(),
{
    if catalog.len() == 0 {
        None
    } else if catalog[0].provider@ == provider && catalog[0].model@ == model {
        if catalog[0].context_window > 0 {
            Some(catalog[0].context_window)
        } else {
            None
        }
    } else {
        catalog_window(catalog.drop_first(), provider, model)
    }
}

/// The first provider whose id is `id`.
pub open spec fn find_provider(providers: Seq<ProviderDescriptor>, id: Seq<char>) -> Option<ProviderDescriptor>
    decreases providers.len(),
{
    if providers.len() == 0 {
        None
    } else if providers[0].id@ == id {
        Some(providers[0])
    } else {
        find_provider(providers.drop_first(), id)
    }
}

/// What a model option holds, as plain values.
pub struct ProviderOptionView {
    pub provider_id: Seq<char>,
    pub provider_name: Seq<char>,
    pub provider_auth_type: ProviderAuthType,
    pub provider_authenticated: bool,
    pub model_id: Seq<char>,
    pub routing_option_id: Option<Seq<char>>,
    pub label: Seq<char>,
    pub context_window: Option<u32>,
    pub default_reasoning: Option<Seq<char>>,
    /// The reasoning efforts offered, each as its effort and description.
    pub reasoning: Seq<(Seq<char>, Seq<char>)>,
}

pub open spec fn efforts_view(efforts: Seq<ReasoningEffort>) -> Seq<(Seq<char>, Seq<char>)> {
    efforts.map_values(|e: ReasoningEffort| (e.effort@, e.description@))
}

/// An option with the reasoning efforts that go with it, as plain values.
pub open spec fn option_view(o: (ProviderOption, Vec<ReasoningEffort>)) -> ProviderOptionView {
    ProviderOptionView {
        provider_id: o.0.provider_id@,
        provider_name: o.0.provider_name@,
        provider_auth_type: o.0.provider_auth_type,
        provider_authenticated: o.0.provider_authenticated,
        model_id: o.0.model_id@,
        routing_option_id: opt_view(o.0.routing_option_id),
        label: o.0.label@,
        context_window: o.0.context_window,
        default_reasoning: opt_view(o.0.default_reasoning),
        reasoning: efforts_view(o.1@),
    }
}

pub open spec fn options_view(v: Seq<(ProviderOption, Vec<ReasoningEffort>)>) -> Seq<ProviderOptionView> {
    v.map_values(|o: (ProviderOption, Vec<ReasoningEffort>)| option_view(o))
}

/// The option of a routing option: its baseline's provider (named and
/// authenticated as listed, or by its id and as signed in when it is not
/// listed) and model, under the routing option's label, reasoning at the
/// option's effort or else the active one.
pub open spec fn routing_option_of(
    list: ProvidersListResult,
    catalog: Seq<CatalogWindow>,
    r: RoutingOptionDescriptor,
) -> ProviderOptionView {
    let p = find_provider(list.providers@, r.baseline_provider@);
    ProviderOptionView {
        provider_id: r.baseline_provider@,
        provider_name: match p {
            Some(p) => p.name@,
            None => r.baseline_provider@,
        },
        provider_auth_type: match p {
            Some(p) => p.auth_type,
            None => ProviderAuthType::NoAuth,
        },
        provider_authenticated: match p {
            Some(p) => p.authenticated,
            None => true,
        },
        model_id: r.baseline_model@,
        routing_option_id: Some(r.id@),
        label: r.label@,
        context_window: catalog_window(catalog, r.baseline_provider@, r.baseline_model@),
        default_reasoning: Some(
            match r.reasoning {
                Some(e) => e@,
                None => list.active_reasoning@,
            },
        ),
        reasoning: seq![],
    }
}

/// How a model is named in its label: its id, with its name in brackets
/// when it has one.
pub open spec fn model_display_name(m: ModelDescriptor) -> Seq<char> {
    if m.name@.len() == 0 {
        m.id@
    } else {
        m.id@ + " ("@ + m.name@ + ")"@
    }
}

/// The option of a model of provider `p`.
pub open spec fn model_option_of(catalog: Seq<CatalogWindow>, p: ProviderDescriptor, m: ModelDescriptor) -> ProviderOptionView {
    ProviderOptionView {
        provider_id: p.id@,
        provider_name: p.name@,
        provider_auth_type: p.auth_type,
        provider_authenticated: p.authenticated,
        model_id: m.id@,
        routing_option_id: None,
        label: model_label(p.id@, model_display_name(m)),
        context_window: match m.context_window {
            Some(w) => Some(w),
            None => catalog_window(catalog, p.id@, m.id@),
        },
        default_reasoning: opt_view(m.default_reasoning),
        reasoning: efforts_view(m.supported_reasoning@),
    }
}

/// The options of provider `p`: one per model, or, for a provider that
/// lists no model, one for the active model.
pub open spec fn provider_options_of(
    list: ProvidersListResult,
    catalog: Seq<CatalogWindow>,
    p: ProviderDescriptor,
) -> Seq<ProviderOptionView> {
    if p.models@.len() == 0 {
        seq![
            ProviderOptionView {
                provider_id: p.id@,
                provider_name: p.name@,
                provider_auth_type: p.auth_type,
                provider_authenticated: p.authenticated,
                model_id: list.active_model@,
                routing_option_id: None,
                label: model_label(p.id@, list.active_model@),
                context_window: catalog_window(catalog, p.id@, list.active_model@),
                default_reasoning: Some(list.active_reasoning@),
                reasoning: seq![],
            },
        ]
    } else {
        p.models@.map_values(|m: ModelDescriptor| model_option_of(catalog, p, m))
    }
}

/// The concatenation of `parts`, in order.
pub open spec fn concat_all<A>(parts: Seq<Seq<A>>) -> Seq<A>
    decreases parts.len(),
{
    if parts.len() == 0 {
        seq![]
    } else {
        concat_all(parts.drop_last()) + parts.last()
    }
}

/// The models submenu's options: the routing options first, then the
/// providers' options in the order listed.
pub open spec fn options_of(list: ProvidersListResult, catalog: Seq<CatalogWindow>) -> Seq<ProviderOptionView> {
    list.routing_options@.map_values(|r: RoutingOptionDescriptor| routing_option_of(list, catalog, r))
        + concat_all(
        list.providers@.map_values(|p: ProviderDescriptor| provider_options_of(list, catalog, p)),
    )
}

/// The catalogue's window for `provider` and `model`.
pub fn catalog_window_for(catalog: &Vec<CatalogWindow>, provider: &str, model: &str) -> (r: Option<u32>)
    ensures
        r == catalog_window(catalog@, provider@, model@),
{
    let mut i: usize = 0;
    assert(catalog@.subrange(0, catalog@.len() as int) =~= catalog@);
    while i < catalog.len()
        invariant
            0 <= i <= catalog@.len(),
            catalog_window(catalog@, provider@, model@) == catalog_window(
                catalog@.subrange(i as int, catalog@.len() as int),
                provider@,
                model@,
            ),
        decreases catalog@.len() - i,
    {
        let ghost rest = catalog@.subrange(i as int, catalog@.len() as int);
        assert(rest[0] == catalog@[i as int]);
        let e = &catalog[i];
        if str_eq(e.provider.as_str(), provider) && str_eq(e.model.as_str(), model) {
            return if e.context_window > 0 {
                Some(e.context_window)
            } else {
                None
            };
        }
        assert(rest.drop_first() =~= catalog@.subrange(i + 1, catalog@.len() as int));
        i += 1;
    }
    None
}

fn find_provider_index(providers: &Vec<ProviderDescriptor>, id: &str) -> (r: Option<usize>)
    ensures
        match r {
            Some(k) => k < providers@.len() && find_provider(providers@, id@) == Some(providers@[k as int]),
            None => find_provider(providers@, id@) is None,
        },
{
    let mut i: usize = 0;
    assert(providers@.subrange(0, providers@.len() as int) =~= providers@);
    while i < providers.len()
        invariant
            0 <= i <= providers@.len(),
            find_provider(providers@, id@) == find_provider(
                providers@.subrange(i as int, providers@.len() as int),
                id@,
            ),
        decreases providers@.len() - i,
    {
        let ghost rest = providers@.subrange(i as int, providers@.len() as int);
        assert(rest[0] == providers@[i as int]);
        if str_eq(providers[i].id.as_str(), id) {
            return Some(i);
        }
        assert(rest.drop_first() =~= providers@.subrange(i + 1, providers@.len() as int));
        i += 1;
    }
    None
}

fn copy_efforts(efforts: &Vec<ReasoningEffort>) -> (r: Vec<ReasoningEffort>)
    ensures
        r@ == efforts@,
{
    let mut out: Vec<ReasoningEffort> = Vec::new();
    let mut i: usize = 0;
    while i < efforts.len()
        invariant
            0 <= i <= efforts@.len(),
            out@ == efforts@.take(i as int),
        decreases efforts@.len() - i,
    {
        out.push(efforts[i].duplicate());
        assert(efforts@.take(i + 1) =~= efforts@.take(i as int).push(efforts@[i as int]));
        i += 1;
    }
    assert(efforts@.take(i as int) =~= efforts@);
    out
}

fn routing_option(
    list: &ProvidersListResult,
    catalog: &Vec<CatalogWindow>,
    r: &RoutingOptionDescriptor,
) -> (o: (ProviderOption, Vec<ReasoningEffort>))
    ensures
        option_view(o) == routing_option_of(*list, catalog@, *r),
{
    let found = find_provider_index(&list.providers, r.baseline_provider.as_str());
    let (name, auth_type, authenticated) = match found {
        Some(k) => {
            let p = &list.providers[k];
            (p.name.clone(), p.auth_type, p.authenticated)
        },
        None => (r.baseline_provider.clone(), ProviderAuthType::NoAuth, true),
    };
    let reasoning = match &r.reasoning {
        Some(e) => e.clone(),
        None => list.active_reasoning.clone(),
    };
    let option = ProviderOption {
        provider_id: r.baseline_provider.clone(),
        provider_name: name,
        provider_auth_type: auth_type,
        provider_authenticated: authenticated,
        model_id: r.baseline_model.clone(),
        routing_option_id: Some(r.id.clone()),
        label: r.label.clone(),
        context_window: catalog_window_for(catalog, r.baseline_provider.as_str(), r.baseline_model.as_str()),
        default_reasoning: Some(reasoning),
    };
    let o = (option, Vec::new());
    assert(efforts_view(o.1@) =~= seq![]);
    o
}

fn model_option(
    catalog: &Vec<CatalogWindow>,
    p: &ProviderDescriptor,
    m: &ModelDescriptor,
) -> (o: (ProviderOption, Vec<ReasoningEffort>))
    ensures
        option_view(o) == model_option_of(catalog@, *p, *m),
{
    let name = if m.name.as_str().is_empty() {
        m.id.clone()
    } else {
        let mut n = string_from(m.id.as_str());
        push_str(&mut n, " (");
        push_str(&mut n, m.name.as_str());
        push_str(&mut n, ")");
        n
    };
    let window = match m.context_window {
        Some(w) => Some(w),
        None => catalog_window_for(catalog, p.id.as_str(), m.id.as_str()),
    };
    let option = ProviderOption {
        provider_id: p.id.clone(),
        provider_name: p.name.clone(),
        provider_auth_type: p.auth_type,
        provider_authenticated: p.authenticated,
        model_id: m.id.clone(),
        routing_option_id: None,
        label: provider_model_label(p.id.as_str(), name.as_str()),
        context_window: window,
        default_reasoning: copy_opt_string(&m.default_reasoning),
    };
    (option, copy_efforts(&m.supported_reasoning))
}

/// The options of the models submenu for what the server listed, with the
/// reasoning efforts of each; `catalog` holds the model catalogue's context
/// windows, used where a model states none.
pub fn provider_options_from_list(
    list: &ProvidersListResult,
    catalog: &Vec<CatalogWindow>,
) -> (r: Vec<(ProviderOption, Vec<ReasoningEffort>)>)
    ensures
        options_view(r@) == options_of(*list, catalog@),
{
    let mut out: Vec<(ProviderOption, Vec<ReasoningEffort>)> = Vec::new();
    let ghost routed = list.routing_options@.map_values(
        |r: RoutingOptionDescriptor| routing_option_of(*list, catalog@, r),
    );
    let ghost parts = list.providers@.map_values(
        |p: ProviderDescriptor| provider_options_of(*list, catalog@, p),
    );
    let mut i: usize = 0;
    while i < list.routing_options.len()
        invariant
            0 <= i <= list.routing_options@.len(),
            routed == list.routing_options@.map_values(
                |r: RoutingOptionDescriptor| routing_option_of(*list, catalog@, r),
            ),
            options_view(out@) == routed.take(i as int),
        decreases list.routing_options@.len() - i,
    {
        let ghost prev = out@;
        out.push(routing_option(list, catalog, &list.routing_options[i]));
        assert(options_view(out@) =~= options_view(prev).push(routed[i as int]));
        assert(routed.take(i + 1) =~= routed.take(i as int).push(routed[i as int]));
        i += 1;
    }
    assert(routed.take(i as int) =~= routed);
    assert(concat_all(parts.take(0)) =~= Seq::<ProviderOptionView>::empty());
    let mut k: usize = 0;
    while k < list.providers.len()
        invariant
            0 <= k <= list.providers@.len(),
            parts == list.providers@.map_values(
                |p: ProviderDescriptor| provider_options_of(*list, catalog@, p),
            ),
            options_view(out@) == routed + concat_all(parts.take(k as int)),
        decreases list.providers@.len() - k,
    {
        let p = &list.providers[k];
        let ghost start = out@;
        let ghost mine = provider_options_of(*list, catalog@, *p);
        if p.models.len() == 0 {
            let option = ProviderOption {
                provider_id: p.id.clone(),
                provider_name: p.name.clone(),
                provider_auth_type: p.auth_type,
                provider_authenticated: p.authenticated,
                model_id: list.active_model.clone(),
                routing_option_id: None,
                label: provider_model_label(p.id.as_str(), list.active_model.as_str()),
                context_window: catalog_window_for(catalog, p.id.as_str(), list.active_model.as_str()),
                default_reasoning: Some(list.active_reasoning.clone()),
            };
            let entry: (ProviderOption, Vec<ReasoningEffort>) = (option, Vec::new());
            assert(efforts_view(entry.1@) =~= seq![]);
            out.push(entry);
            assert(options_view(out@) =~= options_view(start) + mine);
        } else {
            let mut j: usize = 0;
            while j < p.models.len()
                invariant
                    0 <= j <= p.models@.len(),
                    p.models@.len() > 0,
                    mine == provider_options_of(*list, catalog@, *p),
                    options_view(out@) == options_view(start) + mine.take(j as int),
                decreases p.models@.len() - j,
            {
                let ghost prev = out@;
                out.push(model_option(catalog, p, &p.models[j]));
                assert(options_view(out@) =~= options_view(prev).push(mine[j as int]));
                assert(mine.take(j + 1) =~= mine.take(j as int).push(mine[j as int]));
                j += 1;
            }
            assert(mine.take(j as int) =~= mine);
        }
        assert(parts.take(k + 1).drop_last() =~= parts.take(k as int));
        assert(parts[k as int] == mine);
        assert(options_view(out@) =~= routed + concat_all(parts.take(k + 1)));
        k += 1;
    }
    assert(parts.take(k as int) =~= parts);
    out
}

/// The providers submenu's choice for provider `p`: its default model is
/// its first model, if it lists any.
pub fn provider_choice_from_descriptor(p: &ProviderDescriptor) -> (r: ProviderChoice)
    ensures
        r.provider_id == p.id,
        r.name == p.name,
        r.description == p.description,
        r.auth_type == p.auth_type,
        r.authenticated == p.authenticated,
        r.auth_detail == p.auth_detail,
        r.recommended == p.recommended,
        r.default_model == (if p.models@.len() > 0 {
            Some(p.models@[0].id)
        } else {
            None
        }),
{
    ProviderChoice {
        provider_id: p.id.clone(),
        name: p.name.clone(),
        description: copy_opt_string(&p.description),
        auth_type: p.auth_type,
        authenticated: p.authenticated,
        auth_detail: copy_opt_string(&p.auth_detail),
        default_model: if p.models.len() > 0 {
            Some(p.models[0].id.clone())
        } else {
            None
        },
        recommended: p.recommended,
    }
}

/// The choices of the providers submenu, one per listed provider, in order.
pub fn provider_choices_from_list(list: &ProvidersListResult) -> (r: Vec<ProviderChoice>)
    ensures
        r@.len() == list.providers@.len(),
        forall|i: int|
            0 <= i < r@.len() ==> {
                let p = #[trigger] list.providers@[i];
                let c = r@[i];
                &&& c.provider_id == p.id
                &&& c.name == p.name
                &&& c.description == p.description
                &&& c.auth_type == p.auth_type
                &&& c.authenticated == p.authenticated
                &&& c.auth_detail == p.auth_detail
                &&& c.recommended == p.recommended
                &&& c.default_model == (if p.models@.len() > 0 {
                    Some(p.models@[0].id)
                } else {
                    None
                })
            },
{
    let mut out: Vec<ProviderChoice> = Vec::new();
    let mut i: usize = 0;
    while i < list.providers.len()
        invariant
            0 <= i <= list.providers@.len(),
            out@.len() == i,
            forall|k: int|
                0 <= k < i ==> {
                    let p = #[trigger] list.providers@[k];
                    let c = out@[k];
                    &&& c.provider_id == p.id
                    &&& c.name == p.name
                    &&& c.description == p.description
                    &&& c.auth_type == p.auth_type
                    &&& c.authenticated == p.authenticated
                    &&& c.auth_detail == p.auth_detail
                    &&& c.recommended == p.recommended
                    &&& c.default_model == (if p.models@.len() > 0 {
                        Some(p.models@[0].id)
                    } else {
                        None
                    })
                },
        decreases list.providers@.len() - i,
    {
        out.push(provider_choice_from_descriptor(&list.providers[i]));
        i += 1;
    }
    out
}

} // verus!
