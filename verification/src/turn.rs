//! The state of the running turn that the screen keeps: its token counts,
//! and the watchdog that clears a turn whose completion event was lost.
use vstd::prelude::*;

verus! {

/// How long a turn that missed events may stay quiet before the screen
/// stops waiting for it, in nanoseconds (thirty seconds).
pub const STUCK_TURN_RECOVERY_TIMEOUT: u64 = 30_000_000_000;

/// The running turn as the screen tracks it.
#[derive(Debug, Clone, PartialEq, Eq)]
pub struct TurnState {
    pub active_turn_id: Option<String>,
    /// Whether events were dropped while this turn ran.
    pub lagged_during_active_turn: bool,
    /// When the last event arrived (nanoseconds on the screen's clock).
    pub last_event_at: u64,
    pub input_tokens: u32,
    pub output_tokens: u32,
    pub reasoning_tokens: Option<u32>,
    pub total_tokens: u32,
    pub compaction_active: bool,
    pub working_status_override: Option<String>,
}

/// Whether the turn is taken for stuck at `now`: one is running, events
/// were dropped while it ran, and none has come for the timeout.
pub open spec fn turn_is_stuck(s: TurnState, now: u64) -> bool {
    &&& s.active_turn_id is Some
    &&& s.lagged_during_active_turn
    &&& (if now >= s.last_event_at {
        now - s.last_event_at
    } else {
        0
    }) >= STUCK_TURN_RECOVERY_TIMEOUT
}

/// The turn state once the screen stops waiting: no turn, no counts, no
/// compaction and no status override; when the last event came stays.
pub open spec fn idle_turn(s: TurnState) -> TurnState {
    TurnState {
        active_turn_id: None,
        lagged_during_active_turn: false,
        input_tokens: 0,
        output_tokens: 0,
        reasoning_tokens: None,
        total_tokens: 0,
        compaction_active: false,
        working_status_override: None,
        ..s
    }
}

impl TurnState {
    /// Clears a stuck turn (the server's turn may still be running; only the
    /// screen stops waiting). Says whether it did, so that the caller resets
    /// its timers and shows `recovered_turn_notice`.
    pub fn recover_stuck_turn_if_needed(&mut self, now: u64) -> (recovered: bool)
        ensures
            recovered == turn_is_stuck(*old(self), now),
            recovered ==> *final(self) == idle_turn(*old(self)),
            !recovered ==> *final(self) == *old(self),
    {
        if self.active_turn_id.is_none() || !self.lagged_during_active_turn {
            return false;
        }
        if now.saturating_sub(self.last_event_at) < STUCK_TURN_RECOVERY_TIMEOUT {
            return false;
        }
        self.active_turn_id = None;
        self.lagged_during_active_turn = false;
        self.input_tokens = 0;
        self.output_tokens = 0;
        self.reasoning_tokens = None;
        self.total_tokens = 0;
        self.compaction_active = false;
        self.working_status_override = None;
        true
    }
}

/// The system note shown after a stuck turn was cleared.
pub fn recovered_turn_notice() -> (r: &'static str)
    ensures
        r@ == "recovered UI after a dropped turn-completion event (the backend turn may still be running)"@,
{
    "recovered UI after a dropped turn-completion event (the backend turn may still be running)"
}

pub open spec fn sat_u32(n: int) -> u32 {
    if n > u32::MAX {
        u32::MAX
    } else {
        n as u32
    }
}

pub open spec fn sat_u64(n: int) -> u64 {
    if n > u64::MAX {
        u64::MAX
    } else {
        n as u64
    }
}

/// A usage report's total: the reported total, or prompt plus completion
/// (saturating) where that is more.
pub open spec fn usage_total(prompt: u32, completion: u32, total: u32) -> u32 {
    let sum = sat_u32(prompt + completion);
    if total >= sum {
        total
    } else {
        sum
    }
}

/// Records a usage report of the running turn. The turn's input, output
/// and total counts only grow; the thread's count grows by what the turn's
/// total grew (saturating); the context window holds the latest nonzero
/// total.
pub fn record_usage_counters(
    turn_input: &mut u32,
    turn_output: &mut u32,
    turn_total: &mut u32,
    thread_tokens: &mut u64,
    context_window_tokens: &mut u64,
    prompt_tokens: u32,
    completion_tokens: u32,
    total_tokens: u32,
)
    ensures
        *final(turn_input) == (if prompt_tokens > *old(turn_input) {
            prompt_tokens
        } else {
            *old(turn_input)
        }),
        *final(turn_output) == (if completion_tokens > *old(turn_output) {
            completion_tokens
        } else {
            *old(turn_output)
        }),
        ({
            let t = usage_total(prompt_tokens, completion_tokens, total_tokens);
            &&& t > *old(turn_total) ==> *final(turn_total) == t && *final(thread_tokens) == sat_u64(
                *old(thread_tokens) + (t - *old(turn_total)),
            )
            &&& t <= *old(turn_total) ==> *final(turn_total) == *old(turn_total)
                && *final(thread_tokens) == *old(thread_tokens)
            &&& *final(context_window_tokens) == (if t > 0 {
                t as u64
            } else {
                *old(context_window_tokens)
            })
        }),
{
    let sum = prompt_tokens.saturating_add(completion_tokens);
    let total = if total_tokens >= sum {
        total_tokens
    } else {
        sum
    };
    if prompt_tokens > *turn_input {
        *turn_input = prompt_tokens;
    }
    if completion_tokens > *turn_output {
        *turn_output = completion_tokens;
    }
    if total > *turn_total {
        let delta = total - *turn_total;
        *thread_tokens = thread_tokens.saturating_add(delta as u64);
        *turn_total = total;
    }
    if total > 0 {
        *context_window_tokens = total as u64;
    }
}

/// Reporting the same usage twice counts it once: the thread's count grows
/// only by what the turn's total grew.
pub proof fn law_usage_report_idempotent(turn_total: u32, thread: u64, prompt: u32, completion: u32, total: u32)
    ensures
        ({
            let t = usage_total(prompt, completion, total);
            let (total1, thread1) = if t > turn_total {
                (t, sat_u64(thread + (t - turn_total)))
            } else {
                (turn_total, thread)
            };
            let (total2, thread2) = if t > total1 {
                (t, sat_u64(thread1 + (t - total1)))
            } else {
                (total1, thread1)
            };
            total2 == total1 && thread2 == thread1
        }),
{
}

} // verus!
