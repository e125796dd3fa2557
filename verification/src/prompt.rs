//! The prompt that the composer's text and attached images make: what the
//! transcript shows and what is sent, and the agent-mode label beside the
//! policy mode.
use vstd::prelude::*;
use crate::paste::{transcript_message, transcript_message_with_image_attachments, ImageAttachment};
use crate::text::{trim, trimmed};

verus! {

broadcast use vstd::string::group_string_axioms;

/// A prompt ready to go: the transcript's text of it and the message sent.
#[derive(Debug, Clone, PartialEq, Eq)]
pub struct PreparedPrompt {
    pub display: String,
    pub message: String,
}

/// The prompt of the composer's text and the attached images: nothing when
/// the trimmed text is empty and no image is attached; else the trimmed
/// text is sent as typed (agent-swarm mode adds nothing here; the server
/// adds its reminder), and the transcript shows it with the images named.
pub fn prepared_prompt(composer_text: &str, attachments: &Vec<ImageAttachment>) -> (r: Option<PreparedPrompt>)
    ensures
        match r {
            Some(p) => {
                &&& !(trim(composer_text@).len() == 0 && attachments@.len() == 0)
                &&& p.message@ == trim(composer_text@)
                &&& p.display@ == transcript_message(trim(composer_text@), attachments@)
            },
            None => trim(composer_text@).len() == 0 && attachments@.len() == 0,
        },
{
    let text = trimmed(composer_text);
    if text.as_str().is_empty() && attachments.len() == 0 {
        return None;
    }
    let display = transcript_message_with_image_attachments(text.as_str(), attachments);
    Some(PreparedPrompt { display, message: text })
}

/// The label of the agent mode shown next to the policy mode: `Agent Swarm`
/// while agent-swarm mode is on, none otherwise.
pub fn active_agent_mode_label(swarm_mode: bool) -> (r: Option<&'static str>)
    ensures
        match r {
            Some(l) => swarm_mode && l@ == "Agent Swarm"@,
            None => !swarm_mode,
        },
{
    if swarm_mode {
        Some("Agent Swarm")
    } else {
        None
    }
}

} // verus!
