//! Where pasted text goes: nowhere while a modal or dialog is open, into
//! the provider popup's filter while it is open, else to the images or the
//! composer; and attaching pasted images once each.
use vstd::prelude::*;
use crate::paste::{attachment_paths, ImageAttachment};
use crate::popup::ProviderPopupScreen;
use crate::text::{chars_of, decimal, push_decimal, push_str, string_from};
use crate::plural_s;

verus! {

broadcast use vstd::string::group_string_axioms;

/// Where a paste goes.
#[derive(Debug, Clone, PartialEq, Eq)]
pub enum PasteRoute {
    /// A modal or a dialog is open: the paste is dropped.
    Ignore,
    /// Appended to the provider popup's filter; the highlight is then
    /// clamped unless an API key is being pasted.
    PopupFilter { text: String, clamp_selection: bool },
    /// Images when the text names only images, else the composer.
    ImagesOrComposer,
}

/// `text` with carriage returns and newlines turned into spaces.
pub open spec fn flattened(text: Seq<char>) -> Seq<char> {
    text.map_values(|c: char| if c == '\r' || c == '\n' { ' ' } else { c })
}

pub fn paste_route(
    modal_open: bool,
    dialog_open: bool,
    popup_open: bool,
    screen: ProviderPopupScreen,
    text: &str,
) -> (r: PasteRoute)
    ensures
        (modal_open || dialog_open) ==> r == PasteRoute::Ignore,
        !(modal_open || dialog_open) && popup_open ==> (r matches PasteRoute::PopupFilter {
            text: t,
            clamp_selection,
        } && t@ == flattened(text@) && clamp_selection == (screen != ProviderPopupScreen::ApiKey)),
        !(modal_open || dialog_open || popup_open) ==> r == PasteRoute::ImagesOrComposer,
{
    if modal_open || dialog_open {
        return PasteRoute::Ignore;
    }
    if popup_open {
        let v = chars_of(text);
        let mut out = String::new();
        let mut i: usize = 0;
        while i < v.len()
            invariant
                0 <= i <= v@.len(),
                v@ == text@,
                out@ == flattened(v@.subrange(0, i as int)),
            decreases v@.len() - i,
        {
            let c = v[i];
            out.push(if c == '\r' || c == '\n' { ' ' } else { c });
            assert(flattened(v@.subrange(0, i + 1)) =~= flattened(v@.subrange(0, i as int)).push(
                if c == '\r' || c == '\n' {
                    ' '
                } else {
                    c
                },
            ));
            i += 1;
        }
        assert(v@.subrange(0, v@.len() as int) =~= v@);
        return PasteRoute::PopupFilter {
            text: out,
            clamp_selection: screen != ProviderPopupScreen::ApiKey,
        };
    }
    PasteRoute::ImagesOrComposer
}

/// The paths of `pasted` that are new: not among `current`, and not equal
/// to an earlier pasted one.
pub open spec fn new_paths(current: Seq<Seq<char>>, pasted: Seq<Seq<char>>) -> Seq<Seq<char>>
    decreases pasted.len(),
{
    if pasted.len() == 0 {
        seq![]
    } else {
        let acc = new_paths(current, pasted.drop_last());
        if (current + acc).contains(pasted.last()) {
            acc
        } else {
            acc.push(pasted.last())
        }
    }
}

/// Attaches the pasted images that are not attached yet (by their exact
/// path), in order, and returns how many were added.
pub fn attach_pasted_images(attachments: &mut Vec<ImageAttachment>, pasted: Vec<ImageAttachment>) -> (r:
    usize)
    requires
        old(attachments)@.len() + pasted@.len() <= usize::MAX,
    ensures
        attachment_paths(final(attachments)@) == attachment_paths(old(attachments)@) + new_paths(
            attachment_paths(old(attachments)@),
            attachment_paths(pasted@),
        ),
        r == new_paths(attachment_paths(old(attachments)@), attachment_paths(pasted@)).len(),
{
    let ghost base = attachment_paths(attachments@);
    let ghost all = attachment_paths(pasted@);
    let mut added: usize = 0;
    let mut i: usize = 0;
    while i < pasted.len()
        invariant
            0 <= i <= pasted@.len(),
            base == attachment_paths(old(attachments)@),
            all == attachment_paths(pasted@),
            old(attachments)@.len() + pasted@.len() <= usize::MAX,
            attachment_paths(attachments@) == base + new_paths(base, all.subrange(0, i as int)),
            added == new_paths(base, all.subrange(0, i as int)).len(),
            added <= i,
        decreases pasted@.len() - i,
    {
        let candidate = &pasted[i];
        let mut seen = false;
        let mut j: usize = 0;
        while j < attachments.len()
            invariant
                0 <= j <= attachments@.len(),
                0 <= i < pasted@.len(),
                candidate == pasted@[i as int],
                seen <==> exists|k: int| 0 <= k < j && attachment_paths(attachments@)[k] == candidate.path@,
            decreases attachments@.len() - j,
        {
            if attachments[j].path == candidate.path {
                assert(attachment_paths(attachments@)[j as int] == candidate.path@);
                seen = true;
            }
            j += 1;
        }
        proof {
            let prefix = all.subrange(0, i + 1);
            assert(prefix.drop_last() =~= all.subrange(0, i as int));
            assert(prefix.last() == candidate.path@);
            let cur = attachment_paths(attachments@);
            if seen {
                let k = choose|k: int| 0 <= k < j && attachment_paths(attachments@)[k] == candidate.path@;
                assert(cur[k] == candidate.path@);
            } else {
                assert forall|k: int| 0 <= k < cur.len() implies cur[k] != candidate.path@ by {}
                assert(!cur.contains(candidate.path@));
            }
        }
        if !seen {
            let ghost before = attachments@;
            let path = candidate.path.clone();
            assert(path@ == candidate.path@);
            attachments.push(ImageAttachment { path });
            added += 1;
            proof {
                let prefix = all.subrange(0, i + 1);
                let acc = new_paths(base, all.subrange(0, i as int));
                assert(attachment_paths(before) == base + acc);
                assert(!(base + acc).contains(prefix.last()));
                assert(new_paths(base, prefix) == acc.push(prefix.last()));
                assert(attachment_paths(attachments@) =~= attachment_paths(before).push(candidate.path@));
                assert(attachment_paths(attachments@) =~= base + new_paths(base, prefix));
            }
        }
        i += 1;
    }
    assert(all.subrange(0, pasted@.len() as int) =~= all);
    added
}


proof fn lemma_pasted_are_attached(current: Seq<Seq<char>>, pasted: Seq<Seq<char>>)
    ensures
        forall|i: int|
            0 <= i < pasted.len() ==> (current + new_paths(current, pasted)).contains(#[trigger] pasted[i]),
    decreases pasted.len(),
{
    if pasted.len() > 0 {
        let init = pasted.drop_last();
        lemma_pasted_are_attached(current, init);
        let acc = new_paths(current, init);
        let all = current + new_paths(current, pasted);
        assert forall|i: int| 0 <= i < pasted.len() implies all.contains(#[trigger] pasted[i]) by {
            if i < pasted.len() - 1 {
                assert(init[i] == pasted[i]);
                assert((current + acc).contains(init[i]));
                let k = choose|k: int| 0 <= k < (current + acc).len() && (current + acc)[k] == init[i];
                assert(all[k] == (current + acc)[k]);
            } else {
                if (current + acc).contains(pasted.last()) {
                    assert(all == current + acc);
                } else {
                    assert(all[all.len() - 1] == pasted.last());
                }
            }
        }
    }
}

proof fn lemma_nothing_new(current: Seq<Seq<char>>, pasted: Seq<Seq<char>>)
    requires
        forall|i: int| 0 <= i < pasted.len() ==> current.contains(#[trigger] pasted[i]),
    ensures
        new_paths(current, pasted).len() == 0,
    decreases pasted.len(),
{
    if pasted.len() > 0 {
        let init = pasted.drop_last();
        assert forall|i: int| 0 <= i < init.len() implies current.contains(#[trigger] init[i]) by {
            assert(init[i] == pasted[i]);
        }
        lemma_nothing_new(current, init);
        assert(current + new_paths(current, init) =~= current);
        assert(current.contains(pasted[pasted.len() - 1]));
    }
}

/// Pasting the same images again attaches nothing more: every pasted image
/// is attached after the first paste.
pub proof fn law_repaste_adds_nothing(current: Seq<Seq<char>>, pasted: Seq<Seq<char>>)
    ensures
        new_paths(current + new_paths(current, pasted), pasted).len() == 0,
{
    lemma_pasted_are_attached(current, pasted);
    lemma_nothing_new(current + new_paths(current, pasted), pasted);
}

/// What the event log says once `added` images were attached.
pub fn attached_images_event(added: usize) -> (r: String)
    ensures
        r@ == "attached "@ + decimal(added as nat) + " image"@ + (if added == 1 {
            ""@
        } else {
            "s"@
        }),
{
    let mut s = string_from("attached ");
    push_decimal(&mut s, added as u64);
    push_str(&mut s, " image");
    push_str(&mut s, plural_s(added));
    s
}

} // verus!
