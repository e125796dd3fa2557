//! The working status text split into runs that the sheen lights up and
//! runs that it does not.
use vstd::prelude::*;
use crate::status::{sheen_index, working_sheen_index};
use crate::text::{chars_of, string_from};

verus! {

broadcast use vstd::string::group_string_axioms;

/// How far on each side of its centre the sheen reaches (exclusive).
pub const WORKING_SHEEN_WIDTH: usize = 3;

/// Whether the character at `i` is within the sheen centred on `center`.
pub open spec fn in_sheen(i: int, center: int) -> bool {
    (if i >= center {
        i - center
    } else {
        center - i
    }) < WORKING_SHEEN_WIDTH
}

/// `text` cut into maximal runs of characters that are all in the sheen or
/// all out of it, in order, each with whether it is lit.
pub open spec fn sheen_runs(text: Seq<char>, center: int) -> Seq<(Seq<char>, bool)>
    decreases text.len(),
{
    if text.len() == 0 {
        seq![]
    } else {
        let prev = sheen_runs(text.drop_last(), center);
        let lit = in_sheen(text.len() - 1, center);
        let c = text.last();
        if prev.len() > 0 && prev.last().1 == lit {
            prev.update(prev.len() - 1, (prev.last().0.push(c), lit))
        } else {
            prev.push((seq![c], lit))
        }
    }
}

pub open spec fn run_views(runs: Seq<(String, bool)>) -> Seq<(Seq<char>, bool)> {
    runs.map_values(|r: (String, bool)| (r.0@, r.1))
}

/// `text` cut into its lit and unlit runs around `center`.
pub fn split_text_with_sheen(text: &str, center: usize) -> (r: Vec<(String, bool)>)
    ensures
        run_views(r@) == sheen_runs(text@, center as int),
{
    let v = chars_of(text);
    let n = v.len();
    let mut runs: Vec<(String, bool)> = Vec::new();
    let mut current = String::new();
    let mut current_lit = false;
    let mut i: usize = 0;
    while i < n
        invariant
            n == v@.len(),
            v@ == text@,
            0 <= i <= n,
            i == 0 ==> runs@.len() == 0 && current@.len() == 0,
            i > 0 ==> current@.len() > 0,
            i > 0 ==> sheen_runs(v@.subrange(0, i as int), center as int) == run_views(runs@).push(
                (current@, current_lit),
            ),
        decreases n - i,
    {
        let distance = if i >= center {
            i - center
        } else {
            center - i
        };
        let lit = distance < WORKING_SHEEN_WIDTH;
        let ghost prefix = v@.subrange(0, i + 1);
        proof {
            assert(prefix.drop_last() =~= v@.subrange(0, i as int));
            assert(prefix.last() == v@[i as int]);
            assert(lit == in_sheen(i as int, center as int));
        }
        if i > 0 && lit == current_lit {
            let ghost before = current@;
            current.push(v[i]);
            proof {
                let prev = sheen_runs(v@.subrange(0, i as int), center as int);
                assert(prev.last() == (before, current_lit));
                assert(sheen_runs(prefix, center as int) =~= run_views(runs@).push((current@, current_lit)));
            }
        } else {
            let ghost prev = sheen_runs(v@.subrange(0, i as int), center as int);
            proof {
                if i == 0 {
                    assert(v@.subrange(0, 0) =~= Seq::<char>::empty());
                    assert(prev =~= Seq::<(Seq<char>, bool)>::empty());
                } else {
                    assert(prev.last().1 == current_lit);
                    assert(prev.last().1 != lit);
                }
                assert(sheen_runs(prefix, center as int) == prev.push((seq![v@[i as int]], lit)));
            }
            if i > 0 {
                let ghost before_runs = runs@;
                let mut finished = String::new();
                std::mem::swap(&mut finished, &mut current);
                runs.push((finished, current_lit));
                proof {
                    assert(run_views(runs@) =~= run_views(before_runs).push((finished@, current_lit)));
                    assert(run_views(runs@) == prev);
                }
            } else {
                proof {
                    assert(run_views(runs@) =~= Seq::<(Seq<char>, bool)>::empty());
                }
            }
            current = String::new();
            current.push(v[i]);
            current_lit = lit;
            proof {
                assert(current@ =~= seq![v@[i as int]]);
                assert(sheen_runs(prefix, center as int) =~= run_views(runs@).push((current@, current_lit)));
            }
        }
        i += 1;
    }
    assert(v@.subrange(0, n as int) =~= v@);
    if n > 0 {
        let ghost before_runs = runs@;
        runs.push((current, current_lit));
        assert(run_views(runs@) =~= run_views(before_runs).push((current@, current_lit)));
    } else {
        assert(run_views(runs@) =~= Seq::<(Seq<char>, bool)>::empty());
    }
    runs
}


/// The runs' text put back together.
pub open spec fn joined_runs(runs: Seq<(Seq<char>, bool)>) -> Seq<char>
    decreases runs.len(),
{
    if runs.len() == 0 {
        seq![]
    } else {
        joined_runs(runs.drop_last()) + runs.last().0
    }
}

/// Splitting the status around the sheen loses and adds nothing: the runs
/// put back together are the text, no run is empty, and neighbouring runs
/// differ in whether they are lit.
pub proof fn law_sheen_runs_partition_text(text: Seq<char>, center: int)
    ensures
        joined_runs(sheen_runs(text, center)) == text,
        forall|k: int|
            0 <= k < sheen_runs(text, center).len() ==> (#[trigger] sheen_runs(text, center)[k]).0.len()
                > 0,
        forall|k: int|
            0 < k < sheen_runs(text, center).len() ==> (#[trigger] sheen_runs(text, center)[k]).1
                != sheen_runs(text, center)[k - 1].1,
    decreases text.len(),
{
    if text.len() > 0 {
        let init = text.drop_last();
        law_sheen_runs_partition_text(init, center);
        let prev = sheen_runs(init, center);
        let lit = in_sheen(text.len() - 1, center);
        let c = text.last();
        let r = sheen_runs(text, center);
        if prev.len() > 0 && prev.last().1 == lit {
            let last = (prev.last().0.push(c), lit);
            assert(r == prev.update(prev.len() - 1, last));
            assert(r.drop_last() =~= prev.drop_last());
            assert(joined_runs(prev) == joined_runs(prev.drop_last()) + prev.last().0);
            assert(joined_runs(r) == joined_runs(r.drop_last()) + r.last().0);
            assert(joined_runs(r) =~= joined_runs(prev).push(c));
            assert(text =~= init.push(c));
            assert forall|k: int| 0 <= k < r.len() implies (#[trigger] r[k]).0.len() > 0 by {
                if k < r.len() - 1 {
                    assert(r[k] == prev[k]);
                }
            }
            assert forall|k: int| 0 < k < r.len() implies (#[trigger] r[k]).1 != r[k - 1].1 by {
                assert(r[k - 1] == prev[k - 1]);
                if k < r.len() - 1 {
                    assert(r[k] == prev[k]);
                }
            }
        } else {
            assert(r == prev.push((seq![c], lit)));
            assert(r.drop_last() =~= prev);
            assert(joined_runs(r) =~= joined_runs(prev) + seq![c]);
            assert(text =~= init + seq![c]);
            assert forall|k: int| 0 <= k < r.len() implies (#[trigger] r[k]).0.len() > 0 by {
                if k < r.len() - 1 {
                    assert(r[k] == prev[k]);
                }
            }
            assert forall|k: int| 0 < k < r.len() implies (#[trigger] r[k]).1 != r[k - 1].1 by {
                assert(r[k - 1] == prev[k - 1]);
                if k < r.len() - 1 {
                    assert(r[k] == prev[k]);
                }
            }
        }
    }
}

/// The working status as runs: lit around the sheen while it sweeps, one
/// unlit run while it rests.
pub fn working_status_runs(status: &str, frame: u64) -> (r: Vec<(String, bool)>)
    ensures
        run_views(r@) == match sheen_index(status@.len(), frame) {
            Some(center) => sheen_runs(status@, center as int),
            None => seq![(status@, false)],
        },
{
    let v = chars_of(status);
    let count = v.len();
    assert(status@.len() == count);
    match working_sheen_index(status, frame) {
        Some(center) => split_text_with_sheen(status, center),
        None => {
            let mut runs: Vec<(String, bool)> = Vec::new();
            runs.push((string_from(status), false));
            assert(run_views(runs@) =~= seq![(status@, false)]);
            runs
        },
    }
}

} // verus!
