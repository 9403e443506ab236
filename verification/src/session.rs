//! The typed facts of one polled negotiation session.

use vstd::prelude::*;
use crate::models::{Position, NO_CHAMPION};

verus! {

/// The local participant's cell id when the session does not name one.
pub const NO_LOCAL_CELL: i64 = -1;

/// The cell id of a roster entry that carries none. It differs from
/// `NO_LOCAL_CELL`, so such an entry is never taken for the local participant.
pub const NO_MEMBER_CELL: i64 = -2;

/// The owner of an action that names none; again no participant's id.
pub const NO_ACTOR_CELL: i64 = -9;

/// The time left in the phase when the session does not say: large enough
/// that nothing is committed early on missing data.
pub const UNKNOWN_TIME_LEFT_MS: i64 = 99999;

/// What an action asks of its owner.
#[derive(Clone, Copy, Debug, PartialEq, Eq, Structural)]
pub enum ActionKind {
    Ban,
    Pick,
    /// Any other kind; such actions are tracked but never automated.
    Other,
}

/// The sub-phase of the negotiation, as far as the automation tells them
/// apart.
#[derive(Clone, Copy, Debug, PartialEq, Eq, Structural)]
pub enum TimerPhase {
    /// All participants declare intentions at once; nothing can be committed.
    Planning,
    /// Every other sub-phase, known or not.
    Other,
}

/// One entry of the local team's roster.
#[derive(Clone, Copy, Debug, PartialEq, Eq)]
pub struct TeamMember {
    pub cell_id: i64,
    pub position: Position,
    /// The character this member declared to want; `NO_CHAMPION` for none.
    pub pick_intent: i32,
    /// The character this member holds; `NO_CHAMPION` for none.
    pub champion_id: i32,
}

/// One ban or pick slot of the negotiation.
#[derive(Clone, Copy, Debug, PartialEq, Eq)]
pub struct PendingAction {
    pub id: i64,
    pub actor_cell_id: i64,
    pub kind: ActionKind,
    /// It is the owner's turn.
    pub is_in_progress: bool,
    /// The session reports the action as final.
    pub completed: bool,
    /// The character associated with the action; `NO_CHAMPION` for none.
    pub champion_id: i32,
}

/// Everything the automation reads from one poll.
#[derive(Clone, Debug)]
pub struct SessionSnapshot {
    pub local_cell_id: i64,
    /// The session runs in bench mode.
    pub bench_enabled: bool,
    pub phase: TimerPhase,
    pub time_left_ms: i64,
    pub team: Vec<TeamMember>,
    /// The characters on the bench; `None` when the session carries no bench.
    pub bench: Option<Vec<i32>>,
    /// The pending actions, in session order.
    pub actions: Vec<PendingAction>,
}

/// The position of the local participant: that of the last roster entry
/// with the local cell id, `Unassigned` when there is none.
pub open spec fn spec_local_position(team: Seq<TeamMember>, local: i64) -> Position
    decreases team.len(),
{
    if team.len() == 0 {
        Position::Unassigned
    } else if team.last().cell_id == local {
        team.last().position
    } else {
        spec_local_position(team.drop_last(), local)
    }
}

/// Whether a roster entry declares an intention that counts against a ban:
/// it is a teammate's, and it names a character.
pub open spec fn declares_intent(m: TeamMember, local: i64) -> bool {
    m.cell_id != local && m.pick_intent != NO_CHAMPION
}

/// The characters that teammates declared to want, in roster order.
pub open spec fn spec_teammate_intents(team: Seq<TeamMember>, local: i64) -> Seq<i32> {
    team.filter(|m: TeamMember| declares_intent(m, local)).map_values(|m: TeamMember| m.pick_intent)
}

/// The character held by the local participant: that of the first roster
/// entry with the local cell id, `NO_CHAMPION` when there is none.
pub open spec fn spec_held_champion(team: Seq<TeamMember>, local: i64) -> i32
    decreases team.len(),
{
    if team.len() == 0 {
        NO_CHAMPION
    } else if team.first().cell_id == local {
        team.first().champion_id
    } else {
        spec_held_champion(team.drop_first(), local)
    }
}

/// The position of the local participant.
pub fn local_position(team: &Vec<TeamMember>, local: i64) -> (r: Position)
    ensures
        r == spec_local_position(team@, local),
{
    let mut pos = Position::Unassigned;
    let mut i: usize = 0;
    while i < team.len()
        invariant
            i <= team.len(),
            pos == spec_local_position(team@.take(i as int), local),
        decreases team.len() - i,
    {
        assert(team@.take(i + 1).drop_last() =~= team@.take(i as int));
        if team[i].cell_id == local {
            pos = team[i].position;
        }
        i = i + 1;
    }
    assert(team@.take(i as int) =~= team@);
    pos
}

/// The characters that teammates declared to want.
pub fn teammate_intents(team: &Vec<TeamMember>, local: i64) -> (r: Vec<i32>)
    ensures
        r@ == spec_teammate_intents(team@, local),
        forall|id: i32| r@.contains(id) <==> exists|i: int|
            0 <= i < team.len() && #[trigger] team[i].pick_intent == id && declares_intent(team[i], local),
{
    let mut out: Vec<i32> = Vec::new();
    let mut i: usize = 0;
    let ghost keep = |m: TeamMember| declares_intent(m, local);
    let ghost pick = |m: TeamMember| m.pick_intent;
    while i < team.len()
        invariant
            i <= team.len(),
            keep == |m: TeamMember| declares_intent(m, local),
            pick == |m: TeamMember| m.pick_intent,
            out@ == team@.take(i as int).filter(keep).map_values(pick),
        decreases team.len() - i,
    {
        assert(team@.take(i + 1).drop_last() =~= team@.take(i as int));
        proof {
            reveal(Seq::filter);
        }
        let m = team[i];
        if m.cell_id != local && m.pick_intent != NO_CHAMPION {
            out.push(m.pick_intent);
            assert(out@ =~= team@.take(i + 1).filter(keep).map_values(pick));
        }
        i = i + 1;
    }
    assert(team@.take(i as int) =~= team@);
    proof {
        lemma_intents_membership(team@, local);
    }
    out
}

/// A character is among the teammates' intentions exactly when some
/// teammate's roster entry declares it.
pub proof fn lemma_intents_membership(team: Seq<TeamMember>, local: i64)
    ensures
        forall|id: i32| spec_teammate_intents(team, local).contains(id) <==> exists|i: int|
            0 <= i < team.len() && #[trigger] team[i].pick_intent == id && declares_intent(team[i], local),
{
    let keep = |m: TeamMember| declares_intent(m, local);
    let kept = team.filter(keep);
    let intents = spec_teammate_intents(team, local);
    assert forall|id: i32| intents.contains(id) implies exists|i: int|
        0 <= i < team.len() && #[trigger] team[i].pick_intent == id && declares_intent(team[i], local) by {
        let k = choose|k: int| 0 <= k < intents.len() && intents[k] == id;
        let m = kept[k];
        team.lemma_filter_pred(keep, k);
        assert(kept.contains(m));
        team.lemma_filter_contains_rev(keep, m);
        let i = choose|i: int| 0 <= i < team.len() && team[i] == m;
        assert(team[i].pick_intent == id && declares_intent(team[i], local));
    }
    assert forall|id: i32| (exists|i: int|
        0 <= i < team.len() && #[trigger] team[i].pick_intent == id && declares_intent(team[i], local))
        implies intents.contains(id) by {
        let i = choose|i: int| 0 <= i < team.len() && #[trigger] team[i].pick_intent == id && declares_intent(team[i], local);
        team.lemma_filter_contains(keep, i);
        let k = choose|k: int| 0 <= k < kept.len() && kept[k] == team[i];
        assert(intents[k] == id);
    }
}

/// The character held by the local participant.
pub fn held_champion(team: &Vec<TeamMember>, local: i64) -> (r: i32)
    ensures
        r == spec_held_champion(team@, local),
{
    let mut i: usize = 0;
    assert(team@.skip(0) =~= team@);
    while i < team.len()
        invariant
            i <= team.len(),
            spec_held_champion(team@, local) == spec_held_champion(team@.skip(i as int), local),
        decreases team.len() - i,
    {
        assert(team@.skip(i as int).drop_first() =~= team@.skip(i + 1));
        if team[i].cell_id == local {
            return team[i].champion_id;
        }
        i = i + 1;
    }
    NO_CHAMPION
}

} // verus!
