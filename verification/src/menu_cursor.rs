//! The highlighted row of the provider popup: which rows can hold it, and
//! where it goes when it steps up or down, or when the rows change under it.
use vstd::prelude::*;
use crate::menu::needs_sign_in;
use crate::menu_item::ProviderMenuItem;

verus! {

/// Whether a row can be highlighted: every row but a section title.
pub open spec fn entry_selectable(e: ProviderMenuItem) -> bool {
    !(e is Section)
}

/// Whether a row is shown greyed out: a provider, or a model of a provider,
/// that still has to be signed in to.
pub open spec fn entry_disabled(e: ProviderMenuItem) -> bool {
    match e {
        ProviderMenuItem::Provider(p) => needs_sign_in(p.auth_type, p.authenticated),
        ProviderMenuItem::Model(o) => needs_sign_in(o.provider_auth_type, o.provider_authenticated),
        _ => false,
    }
}

impl ProviderMenuItem {
    pub fn is_selectable(&self) -> (r: bool)
        ensures
            r == entry_selectable(*self),
    {
        match self {
            ProviderMenuItem::Section(_) => false,
            _ => true,
        }
    }

    pub fn is_disabled(&self) -> (r: bool)
        ensures
            r == entry_disabled(*self),
    {
        match self {
            ProviderMenuItem::Provider(p) => p.requires_authentication(),
            ProviderMenuItem::Model(o) => o.requires_provider_authentication(),
            _ => false,
        }
    }
}

/// How many steps it takes to reach row `t` from row `i` among `n` rows,
/// moving down (`forward`) or up and wrapping around: from 1 for the next
/// row to `n` for `i` itself.
pub open spec fn cyclic_distance(i: int, t: int, n: int, forward: bool) -> int {
    if forward {
        if t > i {
            t - i
        } else {
            t - i + n
        }
    } else {
        if t < i {
            i - t
        } else {
            i - t + n
        }
    }
}

/// Whether no selectable row comes before `t` in `items`.
pub open spec fn is_first_selectable(items: Seq<ProviderMenuItem>, t: int) -> bool {
    &&& 0 <= t < items.len()
    &&& entry_selectable(items[t])
    &&& forall|u: int| 0 <= u < t ==> !entry_selectable(#[trigger] items[u])
}

/// Whether `t` is the nearest selectable row when stepping from `i` in
/// direction `forward`, wrapping around, with `i` itself reached last.
pub open spec fn is_next_selectable(items: Seq<ProviderMenuItem>, i: int, t: int, forward: bool) -> bool {
    let n = items.len() as int;
    &&& 0 <= t < n
    &&& entry_selectable(items[t])
    &&& forall|u: int|
        0 <= u < n && cyclic_distance(i, u, n, forward) < cyclic_distance(i, t, n, forward)
            ==> !entry_selectable(#[trigger] items[u])
}

/// Whether no row of `items` is selectable.
pub open spec fn none_selectable(items: Seq<ProviderMenuItem>) -> bool {
    forall|u: int| 0 <= u < items.len() ==> !entry_selectable(#[trigger] items[u])
}

pub fn first_selectable_provider_menu_index(items: &Vec<ProviderMenuItem>) -> (r: Option<usize>)
    ensures
        match r {
            Some(t) => is_first_selectable(items@, t as int),
            None => none_selectable(items@),
        },
{
    let mut i: usize = 0;
    while i < items.len()
        invariant
            0 <= i <= items@.len(),
            forall|u: int| 0 <= u < i ==> !entry_selectable(#[trigger] items@[u]),
        decreases items@.len() - i,
    {
        if items[i].is_selectable() {
            return Some(i);
        }
        i += 1;
    }
    None
}

/// The row one step from `p` among `n` rows, wrapping around.
fn step_row(p: usize, n: usize, forward: bool) -> (q: usize)
    requires
        p < n,
    ensures
        q < n,
        q == if forward {
            if p + 1 >= n {
                0
            } else {
                p + 1
            }
        } else {
            if p == 0 {
                (n - 1) as int
            } else {
                p - 1
            }
        },
{
    if forward {
        if p + 1 >= n {
            0
        } else {
            p + 1
        }
    } else {
        if p == 0 {
            n - 1
        } else {
            p - 1
        }
    }
}

/// The highlight after a step down (`delta` not negative) or up (`delta`
/// negative): with nothing highlighted, the first selectable row; else the
/// nearest selectable row in that direction from the highlighted one (held
/// to the last row), wrapping around; nothing when no row is selectable.
pub fn step_provider_menu_selection(items: &Vec<ProviderMenuItem>, selected: Option<usize>, delta: isize) -> (r:
    Option<usize>)
    ensures
        items@.len() == 0 ==> r is None,
        items@.len() > 0 && selected is None ==> match r {
            Some(t) => is_first_selectable(items@, t as int),
            None => none_selectable(items@),
        },
        items@.len() > 0 && selected is Some ==> {
            let i = if selected->0 < items@.len() {
                selected->0 as int
            } else {
                items@.len() - 1
            };
            match r {
                Some(t) => is_next_selectable(items@, i, t as int, delta >= 0),
                None => none_selectable(items@),
            }
        },
{
    let n = items.len();
    if n == 0 {
        return None;
    }
    let start = match selected {
        None => {
            return first_selectable_provider_menu_index(items);
        },
        Some(s) => if s < n {
            s
        } else {
            n - 1
        },
    };
    let forward = delta >= 0;
    let ghost ni = n as int;
    let mut p = start;
    let mut m: usize = 0;
    while m < n
        invariant
            n == items@.len(),
            ni == n,
            selected is Some,
            start as int == if selected->0 < n {
                selected->0 as int
            } else {
                n - 1
            },
            forward == (delta >= 0),
            start < n,
            p < n,
            m <= n,
            m == 0 ==> p == start,
            m > 0 ==> cyclic_distance(start as int, p as int, ni, forward) == m,
            forall|u: int|
                0 <= u < n && cyclic_distance(start as int, u, ni, forward) <= m
                    ==> !entry_selectable(#[trigger] items@[u]),
        decreases n - m,
    {
        p = step_row(p, n, forward);
        assert(cyclic_distance(start as int, p as int, ni, forward) == m + 1);
        if items[p].is_selectable() {
            return Some(p);
        }
        m += 1;
    }
    None
}

/// The highlight once the rows have changed: held to the last row (the
/// first when nothing was highlighted), or moved to the first selectable row
/// when it would rest on a section title; nothing when there are no rows.
pub fn clamp_provider_menu_selection(items: &Vec<ProviderMenuItem>, selected: Option<usize>) -> (r: Option<
    usize,
>)
    ensures
        items@.len() == 0 ==> r is None,
        items@.len() > 0 ==> {
            let s = match selected {
                Some(s) => s as int,
                None => 0,
            };
            let i = if s < items@.len() {
                s
            } else {
                items@.len() - 1
            };
            if entry_selectable(items@[i]) {
                r == Some(i as usize)
            } else {
                match r {
                    Some(t) => is_first_selectable(items@, t as int),
                    None => none_selectable(items@),
                }
            }
        },
{
    let n = items.len();
    if n == 0 {
        return None;
    }
    let s = match selected {
        Some(s) => s,
        None => 0,
    };
    let i = if s < n {
        s
    } else {
        n - 1
    };
    if items[i].is_selectable() {
        Some(i)
    } else {
        first_selectable_provider_menu_index(items)
    }
}

/// The other direction.
pub open spec fn opposite(forward: bool) -> bool {
    !forward
}

/// Stepping the highlight down and then up (or up and then down) from a
/// selectable row brings it back to that row.
pub proof fn law_menu_step_there_and_back(items: Seq<ProviderMenuItem>, i: int, t: int, forward: bool)
    requires
        0 <= i < items.len(),
        entry_selectable(items[i]),
        is_next_selectable(items, i, t, forward),
    ensures
        is_next_selectable(items, t, i, opposite(forward)),
        forall|r: int| #[trigger] is_next_selectable(items, t, r, opposite(forward)) ==> r == i,
{
    let n = items.len() as int;
    assert forall|r: int| #[trigger] is_next_selectable(items, t, r, opposite(forward)) implies r == i by {
        if r != i {
            assert(cyclic_distance(t, r, n, !forward) != cyclic_distance(t, i, n, !forward));
            if cyclic_distance(t, r, n, !forward) < cyclic_distance(t, i, n, !forward) {
                assert(cyclic_distance(i, r, n, forward) < cyclic_distance(i, t, n, forward));
            }
        }
    }
    assert forall|u: int|
        0 <= u < n && cyclic_distance(t, u, n, !forward) < cyclic_distance(t, i, n, !forward)
            implies !entry_selectable(#[trigger] items[u]) by {
        assert(cyclic_distance(i, u, n, forward) < cyclic_distance(i, t, n, forward));
    }
}

} // verus!
