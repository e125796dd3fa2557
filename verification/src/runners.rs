//! The rows of the runners screen: one per runner provider, labelled with
//! what it can do (or what it still needs), then Back.
use vstd::prelude::*;
use crate::menu_item::ProviderMenuItem;
use crate::paste::join;
use crate::text::{
    chars_of, is_blank, push_str, range_is_blank, str_eq, string_from, truncate, truncated,
};

verus! {

broadcast use vstd::string::group_string_axioms;

/// What a runner can do.
#[derive(Debug, Clone, Copy, PartialEq, Eq, Structural)]
pub struct RunnerCapabilities {
    pub command_exec: bool,
    pub file_read: bool,
    pub file_write: bool,
    pub port_preview: bool,
    pub snapshots: bool,
    pub cancellation: bool,
    pub artifact_export: bool,
}

/// A runner provider that the server offers.
pub struct RunnerProvider {
    pub provider_id: String,
    pub capabilities: RunnerCapabilities,
    /// What is missing before the runner can be used, if anything.
    pub setup_hint: Option<String>,
}

/// The runner in use.
pub struct RunnerStatus {
    pub destination_id: String,
    pub provider_id: String,
    pub state: String,
    pub session_id: Option<String>,
}

/// The runner providers and the one in use.
pub struct RunnersList {
    pub active: Option<RunnerStatus>,
    pub providers: Vec<RunnerProvider>,
}

/// The names of what a runner can do, in a fixed order.
pub open spec fn capability_names(c: RunnerCapabilities) -> Seq<Seq<char>> {
    let s1 = if c.command_exec {
        seq!["commands"@]
    } else {
        seq![]
    };
    let s2 = if c.file_read || c.file_write {
        s1.push("files"@)
    } else {
        s1
    };
    let s3 = if c.port_preview {
        s2.push("ports"@)
    } else {
        s2
    };
    let s4 = if c.snapshots {
        s3.push("snapshots"@)
    } else {
        s3
    };
    if c.cancellation {
        s4.push("cancel"@)
    } else {
        s4
    }
}

/// The capability names joined by commas, or `no capabilities`.
pub open spec fn capabilities_label(c: RunnerCapabilities) -> Seq<char> {
    if capability_names(c).len() == 0 {
        "no capabilities"@
    } else {
        join(capability_names(c), ", "@)
    }
}

/// Appends `name` to a comma-separated list held in `out`.
fn push_name(out: &mut String, count: usize, name: &str, names: Ghost<Seq<Seq<char>>>)
    requires
        old(out)@ == join(names@, ", "@),
        count == names@.len(),
    ensures
        final(out)@ == join(names@.push(name@), ", "@),
{
    if count > 0 {
        push_str(out, ", ");
    }
    push_str(out, name);
    proof {
        let all = names@.push(name@);
        assert(all.drop_last() =~= names@);
        if count == 0 {
            assert(final(out)@ =~= all[0]);
        }
    }
}

pub fn runner_capabilities_label(capabilities: &RunnerCapabilities) -> (r: String)
    ensures
        r@ == capabilities_label(*capabilities),
{
    let c = *capabilities;
    let mut out = String::new();
    let mut count: usize = 0;
    let ghost mut names: Seq<Seq<char>> = seq![];
    proof {
        assert(out@ =~= join(names, ", "@));
    }
    if c.command_exec {
        push_name(&mut out, count, "commands", Ghost(names));
        proof {
            names = names.push("commands"@);
        }
        count += 1;
    }
    if c.file_read || c.file_write {
        push_name(&mut out, count, "files", Ghost(names));
        proof {
            names = names.push("files"@);
        }
        count += 1;
    }
    if c.port_preview {
        push_name(&mut out, count, "ports", Ghost(names));
        proof {
            names = names.push("ports"@);
        }
        count += 1;
    }
    if c.snapshots {
        push_name(&mut out, count, "snapshots", Ghost(names));
        proof {
            names = names.push("snapshots"@);
        }
        count += 1;
    }
    if c.cancellation {
        push_name(&mut out, count, "cancel", Ghost(names));
        proof {
            names = names.push("cancel"@);
        }
        count += 1;
    }
    assert(names =~= capability_names(c));
    if count == 0 {
        string_from("no capabilities")
    } else {
        out
    }
}

/// Whether `active` is this provider, on its own destination.
pub open spec fn is_active_runner(provider_id: Seq<char>, active: Option<RunnerStatus>) -> bool {
    match active {
        Some(s) => s.provider_id@ == provider_id && s.destination_id@ == provider_id,
        None => false,
    }
}

/// The label of a runner row: the provider, ` (active)` for the runner in
/// use, then what it still needs (a hint that is not blank, cut to 72
/// characters) or else what it can do.
pub open spec fn runner_label(p: RunnerProvider, active: Option<RunnerStatus>) -> Seq<char> {
    let head = p.provider_id@ + if is_active_runner(p.provider_id@, active) {
        " (active)"@
    } else {
        ""@
    };
    match p.setup_hint {
        Some(h) => if !is_blank(h@) {
            head + " - needs setup: "@ + truncated(h@, 72, "..."@)
        } else {
            head + " - "@ + capabilities_label(p.capabilities)
        },
        None => head + " - "@ + capabilities_label(p.capabilities),
    }
}

pub fn runner_menu_label(provider: &RunnerProvider, active: Option<&RunnerStatus>) -> (r: String)
    ensures
        r@ == runner_label(
            *provider,
            match active {
                Some(s) => Some(*s),
                None => None,
            },
        ),
{
    let mut out = string_from(provider.provider_id.as_str());
    let is_active = match active {
        Some(s) => str_eq(s.provider_id.as_str(), provider.provider_id.as_str()) && str_eq(
            s.destination_id.as_str(),
            provider.provider_id.as_str(),
        ),
        None => false,
    };
    if is_active {
        push_str(&mut out, " (active)");
    } else {
        proof {
            reveal_strlit("");
            assert(out@ =~= provider.provider_id@ + ""@);
        }
    }
    let hint_shown = match &provider.setup_hint {
        Some(h) => {
            let v = chars_of(h.as_str());
            assert(v@.subrange(0, v@.len() as int) =~= v@);
            !range_is_blank(&v, 0, v.len())
        },
        None => false,
    };
    if hint_shown {
        match &provider.setup_hint {
            Some(h) => {
                push_str(&mut out, " - needs setup: ");
                let cut = truncate(h.as_str(), 72);
                push_str(&mut out, cut.as_str());
            },
            None => {},
        }
    } else {
        push_str(&mut out, " - ");
        let caps = runner_capabilities_label(&provider.capabilities);
        push_str(&mut out, caps.as_str());
    }
    out
}

/// The rows of the runners screen.
pub open spec fn runner_rows_match(items: Seq<ProviderMenuItem>, list: RunnersList) -> bool {
    let ps = list.providers@;
    &&& items.len() == ps.len() + 1
    &&& items.last() is Back
    &&& forall|i: int|
        0 <= i < ps.len() ==> match #[trigger] items[i] {
            ProviderMenuItem::Runner { destination_id, provider_id, label } => {
                &&& destination_id@ == ps[i].provider_id@
                &&& provider_id@ == ps[i].provider_id@
                &&& label@ == runner_label(ps[i], list.active)
            },
            _ => false,
        }
}

/// One row per runner provider, in order, each pointed at the provider's own
/// destination, then Back.
pub fn runner_menu_items(runners: &RunnersList) -> (r: Vec<ProviderMenuItem>)
    ensures
        runner_rows_match(r@, *runners),
{
    let mut items: Vec<ProviderMenuItem> = Vec::new();
    let mut i: usize = 0;
    let active = match &runners.active {
        Some(s) => Some(s),
        None => None,
    };
    while i < runners.providers.len()
        invariant
            0 <= i <= runners.providers@.len(),
            items@.len() == i,
            active == match &runners.active {
                Some(s) => Some(s),
                None => None::<&RunnerStatus>,
            },
            forall|j: int|
                0 <= j < i ==> match #[trigger] items@[j] {
                    ProviderMenuItem::Runner { destination_id, provider_id, label } => {
                        &&& destination_id@ == runners.providers@[j].provider_id@
                        &&& provider_id@ == runners.providers@[j].provider_id@
                        &&& label@ == runner_label(runners.providers@[j], runners.active)
                    },
                    _ => false,
                },
        decreases runners.providers@.len() - i,
    {
        let p = &runners.providers[i];
        let label = runner_menu_label(p, active);
        items.push(
            ProviderMenuItem::Runner {
                destination_id: string_from(p.provider_id.as_str()),
                provider_id: string_from(p.provider_id.as_str()),
                label,
            },
        );
        i += 1;
    }
    items.push(ProviderMenuItem::Back);
    items
}

} // verus!
