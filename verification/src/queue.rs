//! Prompts queued while a turn is running.
use vstd::prelude::*;
use crate::text::{decimal, push_decimal, push_str, string_from};

verus! {

broadcast use vstd::string::group_string_axioms;

/// An image sent with a prompt, as a data URL.
#[derive(Debug, Clone, PartialEq, Eq)]
pub struct InputImage {
    pub image_url: String,
}

/// A prompt waiting to be sent: the text shown in the queue, the message
/// sent to the model, and its images.
#[derive(Debug, Clone, PartialEq, Eq)]
pub struct PendingPrompt {
    pub display: String,
    pub message: String,
    pub images: Vec<InputImage>,
}

impl PendingPrompt {
    pub fn with_images(display: String, message: String, images: Vec<InputImage>) -> (r: Self)
        ensures
            r.display == display,
            r.message == message,
            r.images == images,
    {
        PendingPrompt { display, message, images }
    }
}

/// Prompts in the order they were queued.
#[derive(Debug)]
pub struct PromptQueue {
    items: Vec<PendingPrompt>,
}

impl View for PromptQueue {
    type V = Seq<PendingPrompt>;

    closed spec fn view(&self) -> Seq<PendingPrompt> {
        self.items@
    }
}

impl Default for PromptQueue {
    fn default() -> (r: Self)
        ensures
            r@ == Seq::<PendingPrompt>::empty(),
    {
        PromptQueue::new()
    }
}

impl PromptQueue {
    pub fn new() -> (r: Self)
        ensures
            r@ == Seq::<PendingPrompt>::empty(),
    {
        PromptQueue { items: Vec::new() }
    }

    /// Adds `prompt` at the back.
    pub fn push(&mut self, prompt: PendingPrompt)
        ensures
            final(self)@ == old(self)@.push(prompt),
    {
        self.items.push(prompt);
    }

    /// Takes the oldest prompt.
    pub fn pop_front(&mut self) -> (r: Option<PendingPrompt>)
        ensures
            old(self)@.len() == 0 ==> r is None && final(self)@ == old(self)@,
            old(self)@.len() > 0 ==> r == Some(old(self)@[0]) && final(self)@ == old(self)@.drop_first(),
    {
        if self.items.len() == 0 {
            return None;
        }
        let first = self.items.remove(0);
        assert(self.items@ =~= old(self)@.drop_first());
        Some(first)
    }

    /// Takes the newest prompt, so that the latest prompt can be edited first.
    pub fn pop_back(&mut self) -> (r: Option<PendingPrompt>)
        ensures
            old(self)@.len() == 0 ==> r is None && final(self)@ == old(self)@,
            old(self)@.len() > 0 ==> r == Some(old(self)@.last()) && final(self)@ == old(self)@.drop_last(),
    {
        let r = self.items.pop();
        proof {
            if old(self)@.len() > 0 {
                assert(self.items@ =~= old(self)@.drop_last());
            }
        }
        r
    }

    /// Removes every prompt, giving how many there were.
    pub fn clear(&mut self) -> (r: usize)
        ensures
            r == old(self)@.len(),
            final(self)@ == Seq::<PendingPrompt>::empty(),
    {
        let count = self.items.len();
        self.items.clear();
        count
    }

    pub fn is_empty(&self) -> (r: bool)
        ensures
            r == (self@.len() == 0),
    {
        self.items.len() == 0
    }

    pub fn len(&self) -> (r: usize)
        ensures
            r == self@.len(),
    {
        self.items.len()
    }

    /// The display text of each prompt, oldest first.
    pub fn displays(&self) -> (r: Vec<String>)
        ensures
            r@.len() == self@.len(),
            forall|i: int| 0 <= i < r@.len() ==> #[trigger] r@[i]@ == self@[i].display@,
    {
        let mut r: Vec<String> = Vec::new();
        let mut i: usize = 0;
        while i < self.items.len()
            invariant
                0 <= i <= self.items@.len(),
                r@.len() == i,
                forall|k: int| 0 <= k < i ==> #[trigger] r@[k]@ == self.items@[k].display@,
            decreases self.items@.len() - i,
        {
            r.push(string_from(self.items[i].display.as_str()));
            i += 1;
        }
        r
    }
}

/// The queue holds prompts first in, first out: whatever was queued before,
/// popping from the front gives back the prompts in the order they were
/// pushed.
pub proof fn law_queue_first_in_first_out(before: Seq<PendingPrompt>, a: PendingPrompt, b: PendingPrompt)
    ensures
        before.len() == 0 ==> before.push(a).push(b)[0] == a && before.push(a).push(b).drop_first()[0] == b,
        before.len() > 0 ==> before.push(a).push(b)[0] == before[0],
        before.push(a).push(b).last() == b,
        before.push(a).push(b).drop_last() == before.push(a),
{
    assert(before.push(a).push(b).drop_last() =~= before.push(a));
}

/// The status line for `count` queued prompts.
pub open spec fn queue_status_text(count: nat) -> Seq<char> {
    if count == 1 {
        "queued 1 prompt"@
    } else {
        "queued "@ + decimal(count) + " prompts"@
    }
}

pub fn queue_status(count: usize) -> (r: String)
    ensures
        r@ == queue_status_text(count as nat),
{
    if count == 1 {
        string_from("queued 1 prompt")
    } else {
        let mut out = string_from("queued ");
        push_decimal(&mut out, count as u64);
        push_str(&mut out, " prompts");
        out
    }
}

} // verus!
