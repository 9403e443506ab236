//! One poll of the negotiation session: the owned actions are taken through
//! the commit scheduler, or, in bench mode, the bench is looked at.

use std::collections::HashMap;
use vstd::prelude::*;
use vstd::std_specs::hash::group_hash_axioms;
use crate::bench::{handle_aram_bench, spec_aram_bench, spec_bench_of};
use crate::effects::Effect;
use crate::models::{ActionState, Position, Settings};
use crate::scheduler::{
    handle_owned_action, lemma_finished_is_terminal, lemma_requests_concern_the_action,
    lemma_schedule_only_while_committable, spec_owned_action, Clock,
};
use crate::session::{
    local_position, spec_held_champion, spec_local_position, spec_teammate_intents,
    teammate_intents, PendingAction, SessionSnapshot, NO_LOCAL_CELL,
};

verus! {

/// The store after a poll, and what the poll asks for.
pub struct TickOutcome {
    pub store: Map<i64, ActionState>,
    pub effects: Seq<Effect>,
}

/// The state that the store holds for an action; that of an action never
/// seen is fresh.
pub open spec fn spec_state_of(store: Map<i64, ActionState>, id: i64) -> ActionState {
    if store.contains_key(id) {
        store[id]
    } else {
        ActionState::fresh()
    }
}

/// The actions of one poll, taken in session order. An action of another
/// participant is passed over: it gets no state and causes nothing.
pub open spec fn spec_actions(
    store: Map<i64, ActionState>,
    actions: Seq<PendingAction>,
    local: i64,
    settings: Settings,
    position: Position,
    intents: Seq<i32>,
    clock: Clock,
) -> TickOutcome
    decreases actions.len(),
{
    if actions.len() == 0 {
        TickOutcome { store, effects: Seq::empty() }
    } else {
        let before = spec_actions(store, actions.drop_last(), local, settings, position, intents, clock);
        let action = actions.last();
        if action.actor_cell_id != local {
            before
        } else {
            let step = spec_owned_action(
                spec_state_of(before.store, action.id),
                action,
                settings,
                position,
                intents,
                clock,
            );
            TickOutcome {
                store: before.store.insert(action.id, step.state),
                effects: before.effects + step.effects,
            }
        }
    }
}

/// The clock of a poll at `now_ms`.
pub open spec fn spec_clock(snapshot: SessionSnapshot, now_ms: u64) -> Clock {
    Clock { now_ms, time_left_ms: snapshot.time_left_ms, phase: snapshot.phase }
}

/// One poll outside bench mode.
pub open spec fn spec_sr_pick_ban(
    store: Map<i64, ActionState>,
    snapshot: SessionSnapshot,
    settings: Settings,
    now_ms: u64,
) -> TickOutcome {
    spec_actions(
        store,
        snapshot.actions@,
        snapshot.local_cell_id,
        settings,
        spec_local_position(snapshot.team@, snapshot.local_cell_id),
        spec_teammate_intents(snapshot.team@, snapshot.local_cell_id),
        spec_clock(snapshot, now_ms),
    )
}

/// Everything that one poll leaves behind.
pub struct PollOutcome {
    pub store: Map<i64, ActionState>,
    pub remembered_bench: Seq<i32>,
    pub effects: Seq<Effect>,
}

/// One poll. A session that does not name the local participant is left
/// alone. In bench mode only the bench is looked at, otherwise only the
/// actions.
pub open spec fn spec_champ_select(
    store: Map<i64, ActionState>,
    remembered_bench: Seq<i32>,
    snapshot: SessionSnapshot,
    settings: Settings,
    now_ms: u64,
) -> PollOutcome {
    if snapshot.local_cell_id == NO_LOCAL_CELL {
        PollOutcome { store, remembered_bench, effects: Seq::empty() }
    } else if snapshot.bench_enabled {
        let bench = spec_aram_bench(
            remembered_bench,
            spec_bench_of(snapshot.bench),
            spec_held_champion(snapshot.team@, snapshot.local_cell_id),
            settings,
        );
        PollOutcome { store, remembered_bench: bench.remembered, effects: bench.effects }
    } else {
        let tick = spec_sr_pick_ban(store, snapshot, settings, now_ms);
        PollOutcome { store: tick.store, remembered_bench, effects: tick.effects }
    }
}

/// The state that the store holds for the action `id`.
pub fn state_of(store: &HashMap<i64, ActionState>, id: i64) -> (r: ActionState)
    ensures
        r == spec_state_of(store@, id),
{
    broadcast use group_hash_axioms;

    match store.get(&id) {
        Some(state) => *state,
        None => ActionState::default(),
    }
}

/// One poll outside bench mode: takes every owned action through the
/// scheduler, keeps their states in `handled_actions`, and returns what is
/// to be done, in order.
pub fn handle_sr_pick_ban(
    snapshot: &SessionSnapshot,
    settings: &Settings,
    now_ms: u64,
    handled_actions: &mut HashMap<i64, ActionState>,
) -> (effects: Vec<Effect>)
    requires
        spec_clock(*snapshot, now_ms).has_room(),
    ensures
        final(handled_actions)@ == spec_sr_pick_ban(old(handled_actions)@, *snapshot, *settings, now_ms).store,
        effects@ == spec_sr_pick_ban(old(handled_actions)@, *snapshot, *settings, now_ms).effects,
{
    broadcast use group_hash_axioms;

    let local = snapshot.local_cell_id;
    let position = local_position(&snapshot.team, local);
    let intents = teammate_intents(&snapshot.team, local);
    let clock = Clock { now_ms, time_left_ms: snapshot.time_left_ms, phase: snapshot.phase };
    let ghost start = handled_actions@;
    let mut effects: Vec<Effect> = Vec::new();
    let mut i: usize = 0;
    while i < snapshot.actions.len()
        invariant
            i <= snapshot.actions.len(),
            clock.has_room(),
            handled_actions@ == spec_actions(
                start,
                snapshot.actions@.take(i as int),
                local,
                *settings,
                position,
                intents@,
                clock,
            ).store,
            effects@ == spec_actions(
                start,
                snapshot.actions@.take(i as int),
                local,
                *settings,
                position,
                intents@,
                clock,
            ).effects,
        decreases snapshot.actions.len() - i,
    {
        assert(snapshot.actions@.take(i + 1).drop_last() =~= snapshot.actions@.take(i as int));
        let action = snapshot.actions[i];
        if action.actor_cell_id == local {
            let mut state = state_of(handled_actions, action.id);
            handle_owned_action(&mut state, &mut effects, &action, settings, position, &intents, clock);
            handled_actions.insert(action.id, state);
        }
        i = i + 1;
    }
    assert(snapshot.actions@.take(i as int) =~= snapshot.actions@);
    effects
}

/// One poll of the negotiation session at `now_ms` on the driver's clock.
/// `handled_actions` holds the automation's state of each action seen, and
/// `last_bench_ids` the bench as last announced. Returns what the driver is
/// to do, in order.
pub fn handle_champ_select(
    snapshot: &SessionSnapshot,
    settings: &Settings,
    now_ms: u64,
    last_bench_ids: &mut Vec<i32>,
    handled_actions: &mut HashMap<i64, ActionState>,
) -> (effects: Vec<Effect>)
    requires
        spec_clock(*snapshot, now_ms).has_room(),
    ensures
        final(handled_actions)@ == spec_champ_select(
            old(handled_actions)@,
            old(last_bench_ids)@,
            *snapshot,
            *settings,
            now_ms,
        ).store,
        final(last_bench_ids)@ == spec_champ_select(
            old(handled_actions)@,
            old(last_bench_ids)@,
            *snapshot,
            *settings,
            now_ms,
        ).remembered_bench,
        effects@ == spec_champ_select(
            old(handled_actions)@,
            old(last_bench_ids)@,
            *snapshot,
            *settings,
            now_ms,
        ).effects,
{
    if snapshot.local_cell_id == NO_LOCAL_CELL {
        Vec::new()
    } else if snapshot.bench_enabled {
        handle_aram_bench(snapshot, settings, last_bench_ids)
    } else {
        handle_sr_pick_ban(snapshot, settings, now_ms, handled_actions)
    }
}

/// Whether the session holds an action with this id that belongs to the
/// participant `local`.
pub open spec fn spec_owns(actions: Seq<PendingAction>, local: i64, id: i64) -> bool {
    exists|i: int| 0 <= i < actions.len() && (#[trigger] actions[i]).id == id && actions[i].actor_cell_id == local
}

/// The actions of other participants make no difference at all: a poll
/// gives the same store and the same effects as a poll of the owned actions
/// alone.
pub proof fn lemma_foreign_actions_are_ignored(
    store: Map<i64, ActionState>,
    actions: Seq<PendingAction>,
    local: i64,
    settings: Settings,
    position: Position,
    intents: Seq<i32>,
    clock: Clock,
)
    ensures
        spec_actions(store, actions, local, settings, position, intents, clock) == spec_actions(
            store,
            actions.filter(|a: PendingAction| a.actor_cell_id == local),
            local,
            settings,
            position,
            intents,
            clock,
        ),
    decreases actions.len(),
{
    let owned = |a: PendingAction| a.actor_cell_id == local;
    reveal(Seq::filter);
    if actions.len() > 0 {
        let rest = actions.drop_last();
        lemma_foreign_actions_are_ignored(store, rest, local, settings, position, intents, clock);
        if owned(actions.last()) {
            let kept = rest.filter(owned).push(actions.last());
            assert(kept.drop_last() =~= rest.filter(owned));
            assert(kept.last() == actions.last());
        }
    }
}

proof fn lemma_owns_step(actions: Seq<PendingAction>, local: i64, id: i64)
    requires
        actions.len() > 0,
    ensures
        spec_owns(actions, local, id) <==> spec_owns(actions.drop_last(), local, id) || (actions.last().id == id
            && actions.last().actor_cell_id == local),
{
    let rest = actions.drop_last();
    if spec_owns(rest, local, id) {
        let i = choose|i: int| 0 <= i < rest.len() && (#[trigger] rest[i]).id == id && rest[i].actor_cell_id == local;
        assert(actions[i] == rest[i]);
    }
    if actions.last().id == id && actions.last().actor_cell_id == local {
        assert(actions[actions.len() - 1] == actions.last());
    }
    if spec_owns(actions, local, id) {
        let i = choose|i: int|
            0 <= i < actions.len() && (#[trigger] actions[i]).id == id && actions[i].actor_cell_id == local;
        if i < rest.len() {
            assert(rest[i] == actions[i]);
        }
    }
}

/// Whether an effect belongs to some action that the participant `local`
/// owns.
pub open spec fn spec_is_for_owned_action(effect: Effect, actions: Seq<PendingAction>, local: i64) -> bool {
    exists|id: i64| spec_owns(actions, local, id) && #[trigger] effect.belongs_to(id)
}

/// Every effect of a poll belongs to an action that the local participant
/// owns: nothing is requested for any other action.
pub proof fn lemma_requests_are_for_owned_actions(
    store: Map<i64, ActionState>,
    actions: Seq<PendingAction>,
    local: i64,
    settings: Settings,
    position: Position,
    intents: Seq<i32>,
    clock: Clock,
)
    ensures
        ({
            let after = spec_actions(store, actions, local, settings, position, intents, clock);
            forall|k: int|
                0 <= k < after.effects.len() ==> spec_is_for_owned_action(
                    #[trigger] after.effects[k],
                    actions,
                    local,
                )
        }),
    decreases actions.len(),
{
    let after = spec_actions(store, actions, local, settings, position, intents, clock);
    if actions.len() > 0 {
        let rest = actions.drop_last();
        let action = actions.last();
        let before = spec_actions(store, rest, local, settings, position, intents, clock);
        lemma_requests_are_for_owned_actions(store, rest, local, settings, position, intents, clock);
        let state = spec_state_of(before.store, action.id);
        let step = spec_owned_action(state, action, settings, position, intents, clock);
        lemma_requests_concern_the_action(state, action, settings, position, intents, clock);
        assert forall|k: int| 0 <= k < after.effects.len() implies spec_is_for_owned_action(
            #[trigger] after.effects[k],
            actions,
            local,
        ) by {
            if k < before.effects.len() {
                assert(after.effects[k] == before.effects[k]);
                assert(spec_is_for_owned_action(before.effects[k], rest, local));
                let id = choose|id: i64| spec_owns(rest, local, id) && #[trigger] before.effects[k].belongs_to(id);
                lemma_owns_step(actions, local, id);
                assert(spec_owns(actions, local, id) && after.effects[k].belongs_to(id));
            } else {
                assert(action.actor_cell_id == local);
                assert(after.effects[k] == step.effects[k - before.effects.len()]);
                lemma_owns_step(actions, local, action.id);
                assert(spec_owns(actions, local, action.id) && after.effects[k].belongs_to(action.id));
            }
        }
    }
}

/// A poll stores a state for each owned action, and touches the state of
/// no other action.
pub proof fn lemma_store_changes_only_for_owned_actions(
    store: Map<i64, ActionState>,
    actions: Seq<PendingAction>,
    local: i64,
    settings: Settings,
    position: Position,
    intents: Seq<i32>,
    clock: Clock,
    id: i64,
)
    ensures
        ({
            let after = spec_actions(store, actions, local, settings, position, intents, clock);
            if spec_owns(actions, local, id) {
                after.store.contains_key(id)
            } else {
                &&& after.store.contains_key(id) == store.contains_key(id)
                &&& spec_state_of(after.store, id) == spec_state_of(store, id)
            }
        }),
    decreases actions.len(),
{
    if actions.len() > 0 {
        lemma_store_changes_only_for_owned_actions(
            store,
            actions.drop_last(),
            local,
            settings,
            position,
            intents,
            clock,
            id,
        );
        lemma_owns_step(actions, local, id);
    }
}

/// Once an action is finished, a poll leaves it finished and requests
/// nothing for it, whatever the session holds.
pub proof fn lemma_finished_stays_silent(
    store: Map<i64, ActionState>,
    actions: Seq<PendingAction>,
    local: i64,
    settings: Settings,
    position: Position,
    intents: Seq<i32>,
    clock: Clock,
    id: i64,
)
    requires
        store.contains_key(id),
        store[id].completed,
    ensures
        ({
            let after = spec_actions(store, actions, local, settings, position, intents, clock);
            &&& after.store.contains_key(id)
            &&& after.store[id].completed
            &&& forall|k: int| 0 <= k < after.effects.len() ==> !(#[trigger] after.effects[k]).is_request_for(id)
        }),
    decreases actions.len(),
{
    let after = spec_actions(store, actions, local, settings, position, intents, clock);
    if actions.len() > 0 {
        let rest = actions.drop_last();
        let action = actions.last();
        let before = spec_actions(store, rest, local, settings, position, intents, clock);
        lemma_finished_stays_silent(store, rest, local, settings, position, intents, clock, id);
        if action.actor_cell_id == local {
            let state = spec_state_of(before.store, action.id);
            let step = spec_owned_action(state, action, settings, position, intents, clock);
            lemma_requests_concern_the_action(state, action, settings, position, intents, clock);
            if action.id == id {
                lemma_finished_is_terminal(state, action, settings, position, intents, clock);
            }
            assert forall|k: int| 0 <= k < after.effects.len() implies !(#[trigger] after.effects[k]).is_request_for(
                id,
            ) by {
                if k >= before.effects.len() {
                    assert(after.effects[k] == step.effects[k - before.effects.len()]);
                    assert(step.effects[k - before.effects.len()].belongs_to(action.id));
                }
            }
        }
    }
}

/// An owned action that the session reports as final is finished after the
/// poll, wherever it stands among the actions.
pub proof fn lemma_reported_final_is_remembered(
    store: Map<i64, ActionState>,
    actions: Seq<PendingAction>,
    local: i64,
    settings: Settings,
    position: Position,
    intents: Seq<i32>,
    clock: Clock,
    i: int,
)
    requires
        0 <= i < actions.len(),
        actions[i].actor_cell_id == local,
        actions[i].completed,
    ensures
        ({
            let after = spec_actions(store, actions, local, settings, position, intents, clock);
            &&& after.store.contains_key(actions[i].id)
            &&& after.store[actions[i].id].completed
        }),
    decreases actions.len(),
{
    let rest = actions.drop_last();
    let action = actions.last();
    let before = spec_actions(store, rest, local, settings, position, intents, clock);
    if i < rest.len() {
        assert(rest[i] == actions[i]);
        lemma_reported_final_is_remembered(store, rest, local, settings, position, intents, clock, i);
        if action.actor_cell_id == local && action.id == actions[i].id {
            lemma_finished_is_terminal(
                spec_state_of(before.store, action.id),
                action,
                settings,
                position,
                intents,
                clock,
            );
        }
    }
}

/// Whether every state in the store is well formed.
pub open spec fn spec_store_wf(store: Map<i64, ActionState>) -> bool {
    forall|id: i64| store.contains_key(id) ==> (#[trigger] store[id]).wf()
}

/// A poll keeps the store well formed: no finished action carries a
/// schedule.
pub proof fn lemma_store_stays_well_formed(
    store: Map<i64, ActionState>,
    actions: Seq<PendingAction>,
    local: i64,
    settings: Settings,
    position: Position,
    intents: Seq<i32>,
    clock: Clock,
)
    requires
        spec_store_wf(store),
    ensures
        spec_store_wf(spec_actions(store, actions, local, settings, position, intents, clock).store),
    decreases actions.len(),
{
    if actions.len() > 0 {
        let rest = actions.drop_last();
        let action = actions.last();
        let before = spec_actions(store, rest, local, settings, position, intents, clock);
        lemma_store_stays_well_formed(store, rest, local, settings, position, intents, clock);
        if action.actor_cell_id == local {
            let state = spec_state_of(before.store, action.id);
            lemma_schedule_only_while_committable(state, action, settings, position, intents, clock);
        }
    }
}

/// Whatever mode the session is in, a poll requests previews and commits
/// only for actions that the local participant owns.
pub proof fn lemma_poll_requests_are_for_owned_actions(
    store: Map<i64, ActionState>,
    remembered_bench: Seq<i32>,
    snapshot: SessionSnapshot,
    settings: Settings,
    now_ms: u64,
)
    ensures
        ({
            let after = spec_champ_select(store, remembered_bench, snapshot, settings, now_ms);
            forall|k: int, id: i64|
                0 <= k < after.effects.len() && (#[trigger] after.effects[k].is_request_for(id)) ==> spec_owns(
                    snapshot.actions@,
                    snapshot.local_cell_id,
                    id,
                )
        }),
{
    let after = spec_champ_select(store, remembered_bench, snapshot, settings, now_ms);
    let local = snapshot.local_cell_id;
    lemma_requests_are_for_owned_actions(
        store,
        snapshot.actions@,
        local,
        settings,
        spec_local_position(snapshot.team@, local),
        spec_teammate_intents(snapshot.team@, local),
        spec_clock(snapshot, now_ms),
    );
    assert forall|k: int, id: i64|
        0 <= k < after.effects.len() && (#[trigger] after.effects[k].is_request_for(id)) implies spec_owns(
        snapshot.actions@,
        local,
        id,
    ) by {
        if local != NO_LOCAL_CELL && !snapshot.bench_enabled {
            assert(spec_is_for_owned_action(after.effects[k], snapshot.actions@, local));
            let owner = choose|owner: i64|
                spec_owns(snapshot.actions@, local, owner) && #[trigger] after.effects[k].belongs_to(owner);
            assert(owner == id);
        }
    }
}

/// Whatever mode the session is in, a poll leaves a finished action
/// finished and requests nothing for it. So from the poll in which an
/// action is first seen finished, no later poll requests anything for it
/// while the store lives.
pub proof fn lemma_poll_keeps_finished_silent(
    store: Map<i64, ActionState>,
    remembered_bench: Seq<i32>,
    snapshot: SessionSnapshot,
    settings: Settings,
    now_ms: u64,
    id: i64,
)
    requires
        store.contains_key(id),
        store[id].completed,
    ensures
        ({
            let after = spec_champ_select(store, remembered_bench, snapshot, settings, now_ms);
            &&& after.store.contains_key(id)
            &&& after.store[id].completed
            &&& forall|k: int| 0 <= k < after.effects.len() ==> !(#[trigger] after.effects[k]).is_request_for(id)
        }),
{
    lemma_finished_stays_silent(
        store,
        snapshot.actions@,
        snapshot.local_cell_id,
        settings,
        spec_local_position(snapshot.team@, snapshot.local_cell_id),
        spec_teammate_intents(snapshot.team@, snapshot.local_cell_id),
        spec_clock(snapshot, now_ms),
        id,
    );
}

/// What one poll is given: the session as read, the settings in force, and
/// the driver's clock.
pub struct Poll {
    pub snapshot: SessionSnapshot,
    pub settings: Settings,
    pub now_ms: u64,
}

/// A run of polls, one after the other, each on what the one before left
/// behind. The effects are those of all polls, in order.
pub open spec fn spec_polls(store: Map<i64, ActionState>, remembered_bench: Seq<i32>, polls: Seq<Poll>) -> PollOutcome
    decreases polls.len(),
{
    if polls.len() == 0 {
        PollOutcome { store, remembered_bench, effects: Seq::empty() }
    } else {
        let before = spec_polls(store, remembered_bench, polls.drop_last());
        let poll = polls.last();
        let step = spec_champ_select(
            before.store,
            before.remembered_bench,
            poll.snapshot,
            poll.settings,
            poll.now_ms,
        );
        PollOutcome {
            store: step.store,
            remembered_bench: step.remembered_bench,
            effects: before.effects + step.effects,
        }
    }
}

/// Once an action is finished, no later poll requests anything for it, for
/// as long as the store lives: whatever the sessions hold, whatever the
/// settings become and however the clock runs.
pub proof fn lemma_finished_stays_silent_for_good(
    store: Map<i64, ActionState>,
    remembered_bench: Seq<i32>,
    polls: Seq<Poll>,
    id: i64,
)
    requires
        store.contains_key(id),
        store[id].completed,
    ensures
        ({
            let after = spec_polls(store, remembered_bench, polls);
            &&& after.store.contains_key(id)
            &&& after.store[id].completed
            &&& forall|k: int| 0 <= k < after.effects.len() ==> !(#[trigger] after.effects[k]).is_request_for(id)
        }),
    decreases polls.len(),
{
    if polls.len() > 0 {
        let before = spec_polls(store, remembered_bench, polls.drop_last());
        let poll = polls.last();
        lemma_finished_stays_silent_for_good(store, remembered_bench, polls.drop_last(), id);
        lemma_poll_keeps_finished_silent(
            before.store,
            before.remembered_bench,
            poll.snapshot,
            poll.settings,
            poll.now_ms,
            id,
        );
        let step = spec_champ_select(
            before.store,
            before.remembered_bench,
            poll.snapshot,
            poll.settings,
            poll.now_ms,
        );
        let after = spec_polls(store, remembered_bench, polls);
        assert forall|k: int| 0 <= k < after.effects.len() implies !(#[trigger] after.effects[k]).is_request_for(
            id,
        ) by {
            if k >= before.effects.len() {
                assert(after.effects[k] == step.effects[k - before.effects.len()]);
            }
        }
    }
}

/// No run of polls ever requests anything for an action that the local
/// participant does not own in the session of the poll that asks for it.
pub proof fn lemma_polls_request_only_for_owned_actions(
    store: Map<i64, ActionState>,
    remembered_bench: Seq<i32>,
    polls: Seq<Poll>,
)
    ensures
        ({
            let after = spec_polls(store, remembered_bench, polls);
            forall|k: int, id: i64|
                0 <= k < after.effects.len() && (#[trigger] after.effects[k].is_request_for(id)) ==> exists|
                    p: int,
                |
                    0 <= p < polls.len() && spec_owns(
                        (#[trigger] polls[p]).snapshot.actions@,
                        polls[p].snapshot.local_cell_id,
                        id,
                    )
        }),
    decreases polls.len(),
{
    if polls.len() > 0 {
        let rest = polls.drop_last();
        let before = spec_polls(store, remembered_bench, rest);
        let poll = polls.last();
        lemma_polls_request_only_for_owned_actions(store, remembered_bench, rest);
        lemma_poll_requests_are_for_owned_actions(
            before.store,
            before.remembered_bench,
            poll.snapshot,
            poll.settings,
            poll.now_ms,
        );
        let step = spec_champ_select(
            before.store,
            before.remembered_bench,
            poll.snapshot,
            poll.settings,
            poll.now_ms,
        );
        let after = spec_polls(store, remembered_bench, polls);
        assert forall|k: int, id: i64|
            0 <= k < after.effects.len() && (#[trigger] after.effects[k].is_request_for(id)) implies exists|p: int|
            0 <= p < polls.len() && spec_owns(
                (#[trigger] polls[p]).snapshot.actions@,
                polls[p].snapshot.local_cell_id,
                id,
            ) by {
            if k < before.effects.len() {
                assert(after.effects[k] == before.effects[k]);
                let p = choose|p: int|
                    0 <= p < rest.len() && spec_owns(
                        (#[trigger] rest[p]).snapshot.actions@,
                        rest[p].snapshot.local_cell_id,
                        id,
                    );
                assert(polls[p] == rest[p]);
            } else {
                assert(after.effects[k] == step.effects[k - before.effects.len()]);
                assert(polls[polls.len() - 1] == poll);
            }
        }
    }
}

} // verus!
