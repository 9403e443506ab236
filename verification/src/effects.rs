//! What the automation asks its driver to do. The automation performs no
//! request itself: it hands them out as data, in the order in which they are
//! to be carried out.

use vstd::prelude::*;
use crate::session::ActionKind;

verus! {

/// Something worth telling the user. The driver turns it into text.
#[derive(Clone, Copy, Debug, PartialEq, Eq)]
pub enum LogEvent {
    /// The ban preset is wanted by a teammate; this character is banned
    /// instead.
    BanSubstituted { champion_id: i32 },
    /// A commit was scheduled `wait_ms` from now, `margin_s` seconds before
    /// the phase ends.
    CommitScheduled { kind: ActionKind, wait_ms: u64, margin_s: u64 },
    /// The first preview of an action during its owner's turn.
    Previewing { kind: ActionKind, champion_id: i32 },
    /// The first preview of a pick before its owner's turn.
    IntentShown { champion_id: i32 },
    /// A commit is being sent.
    Committing { kind: ActionKind, champion_id: i32 },
    /// A character is being claimed from the bench.
    Claimed { champion_id: i32 },
}

/// One thing for the driver to do.
#[derive(Clone, Copy, Debug, PartialEq, Eq)]
pub enum Effect {
    /// Propose `champion_id` for the action without committing.
    Preview { action_id: i64, champion_id: i32 },
    /// Lock `champion_id` for the action.
    Commit { action_id: i64, champion_id: i32 },
    /// Claim `champion_id` from the bench.
    Claim { champion_id: i32 },
    /// The bench holds other characters than before; the remembered bench
    /// has been replaced by the new one.
    BenchChanged,
    /// Tell the user.
    Log(LogEvent),
}

impl Effect {
    /// Whether this is a request concerning the action `id`.
    pub open spec fn is_request_for(self, id: i64) -> bool {
        match self {
            Effect::Preview { action_id, .. } => action_id == id,
            Effect::Commit { action_id, .. } => action_id == id,
            _ => false,
        }
    }

    /// Whether this is something that a step on the action `id` may ask
    /// for: a request for that action, or a word to the user.
    pub open spec fn belongs_to(self, id: i64) -> bool {
        match self {
            Effect::Preview { action_id, .. } => action_id == id,
            Effect::Commit { action_id, .. } => action_id == id,
            Effect::Log(_) => true,
            Effect::Claim { .. } => false,
            Effect::BenchChanged => false,
        }
    }
}

} // verus!
