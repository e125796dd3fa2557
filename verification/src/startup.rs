//! How the interface starts and what it reports when it exits.
use vstd::prelude::*;

verus! {

/// What the interface opens with.
#[derive(Debug, Clone, Default, PartialEq, Eq)]
pub enum TuiStartup {
    /// A fresh thread.
    #[default]
    NewThread,
    /// The menu of threads to resume.
    ResumeMenu,
    /// The thread with this id.
    ResumeThread(String),
    /// Roadmapping mode, on the plan at `path` or the default one.
    RoadmapOpen { path: Option<String> },
    /// A member of an agent team.
    TeamAttach { team_id: String, member_id: String },
}

/// What is printed about the thread when the interface exits.
#[derive(Debug, Clone, PartialEq, Eq)]
pub struct TuiExitSummary {
    pub thread_id: String,
    pub title: String,
    pub model: String,
    pub message_count: usize,
    pub resume_command: String,
}

} // verus!
