//! The commit scheduler: for one owned action and one poll, whether to
//! preview, when to commit, and what to remember.

use vstd::prelude::*;
use crate::effects::{Effect, LogEvent};
use crate::models::{ActionState, Position, Settings, NO_CHAMPION};
use crate::resolver::{resolve_ban_target, resolve_pick_target, spec_ban_target, spec_pick_target};
use crate::session::{ActionKind, PendingAction, TimerPhase};

verus! {

/// The least time between two previews of one action.
pub const PREVIEW_INTERVAL_MS: u64 = 500;

/// What one poll knows of time: the driver's clock, and the session's phase
/// and the time left in it.
#[derive(Clone, Copy, Debug, PartialEq, Eq)]
pub struct Clock {
    pub now_ms: u64,
    pub time_left_ms: i64,
    pub phase: TimerPhase,
}

impl Clock {
    /// The instant at which the phase ends can be written down.
    pub open spec fn has_room(self) -> bool {
        self.now_ms + self.time_left_ms <= u64::MAX
    }

    /// Whether the instant at which the phase ends can be written down.
    pub fn check_room(&self) -> (r: bool)
        ensures
            r == self.has_room(),
    {
        self.time_left_ms <= 0 || self.now_ms <= u64::MAX - (self.time_left_ms as u64)
    }
}

/// The state of an action after a step, and what the step asks for.
pub struct Outcome {
    pub state: ActionState,
    pub effects: Seq<Effect>,
}

impl Outcome {
    /// A step that asks for nothing.
    pub open spec fn still(state: ActionState) -> Outcome {
        Outcome { state, effects: Seq::empty() }
    }

    /// The same step, its effects following `earlier` ones.
    pub open spec fn after(self, earlier: Seq<Effect>) -> Outcome {
        Outcome { state: self.state, effects: earlier + self.effects }
    }
}

/// How long to wait before committing: until `margin_s` seconds before the
/// phase ends, and not at all when that moment has passed.
pub open spec fn spec_wait_ms(time_left_ms: i64, margin_s: u64) -> int {
    if time_left_ms - 1000 * margin_s > 0 {
        time_left_ms - 1000 * margin_s
    } else {
        0
    }
}

/// Whether the sub-phase forbids committing an action of this kind: bans
/// cannot be committed while everybody declares intentions.
pub open spec fn spec_forbids_commit(kind: ActionKind, phase: TimerPhase) -> bool {
    kind == ActionKind::Ban && phase == TimerPhase::Planning
}

/// Whether commits of this kind are scheduled at all.
pub open spec fn spec_auto_commit(kind: ActionKind, settings: Settings) -> bool {
    match kind {
        ActionKind::Ban => settings.auto_ban_lock,
        ActionKind::Pick => settings.auto_lock,
        ActionKind::Other => false,
    }
}

/// The configured margin of this kind, in seconds.
pub open spec fn spec_margin_s(kind: ActionKind, settings: Settings) -> u64 {
    match kind {
        ActionKind::Ban => settings.ban_time,
        ActionKind::Pick => settings.lock_time,
        ActionKind::Other => 0,
    }
}

/// Whether enough time has passed since the last preview of the action.
pub open spec fn spec_preview_allowed(state: ActionState, now_ms: u64) -> bool {
    match state.last_act_time {
        None => true,
        Some(at) => now_ms - at >= PREVIEW_INTERVAL_MS,
    }
}

/// The schedule is dropped whenever the action is not in its owner's turn or
/// the sub-phase forbids committing it.
pub open spec fn spec_clear(state: ActionState, action: PendingAction, phase: TimerPhase) -> ActionState {
    if !action.is_in_progress || spec_forbids_commit(action.kind, phase) {
        ActionState { lock_scheduled_at: None, ..state }
    } else {
        state
    }
}

/// Schedules the commit when the turn has arrived, committing is enabled
/// and allowed, and nothing is scheduled yet.
pub open spec fn spec_schedule(
    state: ActionState,
    action: PendingAction,
    settings: Settings,
    clock: Clock,
) -> Outcome {
    if action.is_in_progress && !spec_forbids_commit(action.kind, clock.phase) && spec_auto_commit(
        action.kind,
        settings,
    ) && state.lock_scheduled_at is None {
        let margin_s = spec_margin_s(action.kind, settings);
        let wait = spec_wait_ms(clock.time_left_ms, margin_s);
        Outcome {
            state: ActionState { lock_scheduled_at: Some((clock.now_ms + wait) as u64), ..state },
            effects: seq![
                Effect::Log(
                    LogEvent::CommitScheduled { kind: action.kind, wait_ms: wait as u64, margin_s },
                ),
            ],
        }
    } else {
        Outcome::still(state)
    }
}

/// Sends a preview of `target` when previews are enabled, no character is
/// associated with the action yet, there is a target, and the last preview
/// is long enough ago. The first preview of an action is also announced,
/// with `first`.
pub open spec fn spec_preview(
    state: ActionState,
    action: PendingAction,
    target: i32,
    enabled: bool,
    first: LogEvent,
    now_ms: u64,
) -> Outcome {
    if enabled && action.champion_id == NO_CHAMPION && target != NO_CHAMPION && spec_preview_allowed(
        state,
        now_ms,
    ) {
        let request = Effect::Preview { action_id: action.id, champion_id: target };
        Outcome {
            state: ActionState { hovered: true, last_act_time: Some(now_ms), ..state },
            effects: if state.hovered {
                seq![request]
            } else {
                seq![request, Effect::Log(first)]
            },
        }
    } else {
        Outcome::still(state)
    }
}

/// The character that a due commit locks: the one associated with the
/// action, else the target.
pub open spec fn spec_lock_target(action: PendingAction, target: i32) -> i32 {
    if action.champion_id != NO_CHAMPION {
        action.champion_id
    } else {
        target
    }
}

/// Whether the schedule is due.
pub open spec fn spec_due(state: ActionState, now_ms: u64) -> bool {
    match state.lock_scheduled_at {
        Some(at) => now_ms >= at,
        None => false,
    }
}

/// Commits when the schedule is due and there is a character to lock. With
/// none, nothing is sent and the schedule stays, to be looked at again at
/// the next poll.
pub open spec fn spec_commit(state: ActionState, action: PendingAction, target: i32, now_ms: u64) -> Outcome {
    let locked = spec_lock_target(action, target);
    if spec_due(state, now_ms) && locked != NO_CHAMPION {
        Outcome {
            state: ActionState { completed: true, lock_scheduled_at: None, ..state },
            effects: seq![
                Effect::Log(LogEvent::Committing { kind: action.kind, champion_id: locked }),
                Effect::Commit { action_id: action.id, champion_id: locked },
            ],
        }
    } else {
        Outcome::still(state)
    }
}

/// The owner's turn: schedule, preview, commit, in this order and all in
/// one poll where each applies.
pub open spec fn spec_turn(
    state: ActionState,
    action: PendingAction,
    target: i32,
    preview_enabled: bool,
    settings: Settings,
    clock: Clock,
) -> Outcome {
    let scheduled = spec_schedule(state, action, settings, clock);
    let previewed = spec_preview(
        scheduled.state,
        action,
        target,
        preview_enabled,
        LogEvent::Previewing { kind: action.kind, champion_id: target },
        clock.now_ms,
    );
    let committed = spec_commit(previewed.state, action, target, clock.now_ms);
    Outcome {
        state: committed.state,
        effects: scheduled.effects + previewed.effects + committed.effects,
    }
}

/// What is said when a ban target had to be substituted.
pub open spec fn spec_substitution_note(preset: i32, target: i32) -> Seq<Effect> {
    if target != preset && target != NO_CHAMPION {
        seq![Effect::Log(LogEvent::BanSubstituted { champion_id: target })]
    } else {
        Seq::empty()
    }
}

/// One poll of a ban action that neither the session nor the automation
/// has finished.
pub open spec fn spec_ban_action(
    state: ActionState,
    action: PendingAction,
    settings: Settings,
    position: Position,
    intents: Seq<i32>,
    clock: Clock,
) -> Outcome {
    let cleared = spec_clear(state, action, clock.phase);
    if !settings.sr_ban_enable {
        Outcome::still(cleared)
    } else {
        let preset = settings.sr_bans.spec_get(position);
        let target = spec_ban_target(position, settings.sr_bans, intents, action.id);
        let note = spec_substitution_note(preset, target);
        if action.is_in_progress {
            spec_turn(cleared, action, target, true, settings, clock).after(note)
        } else {
            Outcome { state: cleared, effects: note }
        }
    }
}

/// One poll of a pick action that neither the session nor the automation
/// has finished.
pub open spec fn spec_pick_action(
    state: ActionState,
    action: PendingAction,
    settings: Settings,
    position: Position,
    clock: Clock,
) -> Outcome {
    let cleared = spec_clear(state, action, clock.phase);
    let target = spec_pick_target(position, settings.sr_picks);
    if action.is_in_progress {
        spec_turn(cleared, action, target, settings.sr_enable, settings, clock)
    } else {
        spec_preview(
            cleared,
            action,
            target,
            settings.sr_enable,
            LogEvent::IntentShown { champion_id: target },
            clock.now_ms,
        )
    }
}

/// One poll of one owned action. An action that the session reports as
/// final is recorded as finished; one that the automation has finished is
/// left alone; any other is handled by its kind, and an action of another
/// kind only loses a schedule that can no longer hold.
pub open spec fn spec_owned_action(
    state: ActionState,
    action: PendingAction,
    settings: Settings,
    position: Position,
    intents: Seq<i32>,
    clock: Clock,
) -> Outcome {
    if action.completed {
        Outcome::still(ActionState { completed: true, lock_scheduled_at: None, ..state })
    } else if state.completed {
        Outcome::still(state)
    } else {
        match action.kind {
            ActionKind::Ban => spec_ban_action(state, action, settings, position, intents, clock),
            ActionKind::Pick => spec_pick_action(state, action, settings, position, clock),
            ActionKind::Other => Outcome::still(spec_clear(state, action, clock.phase)),
        }
    }
}

/// How long to wait before committing, in milliseconds.
pub fn wait_ms(time_left_ms: i64, margin_s: u64) -> (r: u64)
    ensures
        r == spec_wait_ms(time_left_ms, margin_s),
{
    if time_left_ms <= 0 {
        0
    } else {
        let left = time_left_ms as u64;
        if margin_s > left / 1000 {
            0
        } else {
            left - margin_s * 1000
        }
    }
}

/// Whether enough time has passed since the last preview of the action.
pub fn preview_allowed(state: &ActionState, now_ms: u64) -> (r: bool)
    ensures
        r == spec_preview_allowed(*state, now_ms),
{
    match state.last_act_time {
        None => true,
        Some(at) => now_ms >= at && now_ms - at >= PREVIEW_INTERVAL_MS,
    }
}

/// Whether the sub-phase forbids committing an action of this kind.
pub fn forbids_commit(kind: ActionKind, phase: TimerPhase) -> (r: bool)
    ensures
        r == spec_forbids_commit(kind, phase),
{
    kind == ActionKind::Ban && phase == TimerPhase::Planning
}

fn clear(state: &mut ActionState, action: &PendingAction, phase: TimerPhase)
    ensures
        *final(state) == spec_clear(*old(state), *action, phase),
{
    if !action.is_in_progress || forbids_commit(action.kind, phase) {
        state.lock_scheduled_at = None;
    }
}

fn schedule(
    state: &mut ActionState,
    effects: &mut Vec<Effect>,
    action: &PendingAction,
    settings: &Settings,
    clock: Clock,
)
    requires
        clock.has_room(),
    ensures
        *final(state) == spec_schedule(*old(state), *action, *settings, clock).state,
        final(effects)@ == old(effects)@ + spec_schedule(*old(state), *action, *settings, clock).effects,
{
    let enabled = match action.kind {
        ActionKind::Ban => settings.auto_ban_lock,
        ActionKind::Pick => settings.auto_lock,
        ActionKind::Other => false,
    };
    if action.is_in_progress && !forbids_commit(action.kind, clock.phase) && enabled
        && state.lock_scheduled_at.is_none() {
        let margin_s = match action.kind {
            ActionKind::Ban => settings.ban_time,
            ActionKind::Pick => settings.lock_time,
            ActionKind::Other => 0,
        };
        let wait = wait_ms(clock.time_left_ms, margin_s);
        state.lock_scheduled_at = Some(clock.now_ms + wait);
        effects.push(Effect::Log(LogEvent::CommitScheduled { kind: action.kind, wait_ms: wait, margin_s }));
    }
}

fn preview(
    state: &mut ActionState,
    effects: &mut Vec<Effect>,
    action: &PendingAction,
    target: i32,
    enabled: bool,
    first: LogEvent,
    now_ms: u64,
)
    ensures
        *final(state) == spec_preview(*old(state), *action, target, enabled, first, now_ms).state,
        final(effects)@ == old(effects)@ + spec_preview(
            *old(state),
            *action,
            target,
            enabled,
            first,
            now_ms,
        ).effects,
{
    if enabled && action.champion_id == NO_CHAMPION && target != NO_CHAMPION && preview_allowed(
        state,
        now_ms,
    ) {
        effects.push(Effect::Preview { action_id: action.id, champion_id: target });
        state.last_act_time = Some(now_ms);
        if !state.hovered {
            effects.push(Effect::Log(first));
            state.hovered = true;
        }
    }
}

fn commit(
    state: &mut ActionState,
    effects: &mut Vec<Effect>,
    action: &PendingAction,
    target: i32,
    now_ms: u64,
)
    ensures
        *final(state) == spec_commit(*old(state), *action, target, now_ms).state,
        final(effects)@ == old(effects)@ + spec_commit(*old(state), *action, target, now_ms).effects,
{
    if let Some(at) = state.lock_scheduled_at {
        if now_ms >= at {
            let locked = if action.champion_id != NO_CHAMPION {
                action.champion_id
            } else {
                target
            };
            if locked != NO_CHAMPION {
                effects.push(Effect::Log(LogEvent::Committing { kind: action.kind, champion_id: locked }));
                effects.push(Effect::Commit { action_id: action.id, champion_id: locked });
                state.completed = true;
                state.lock_scheduled_at = None;
            }
        }
    }
}

fn turn(
    state: &mut ActionState,
    effects: &mut Vec<Effect>,
    action: &PendingAction,
    target: i32,
    preview_enabled: bool,
    settings: &Settings,
    clock: Clock,
)
    requires
        clock.has_room(),
    ensures
        *final(state) == spec_turn(*old(state), *action, target, preview_enabled, *settings, clock).state,
        final(effects)@ == old(effects)@ + spec_turn(
            *old(state),
            *action,
            target,
            preview_enabled,
            *settings,
            clock,
        ).effects,
{
    schedule(state, effects, action, settings, clock);
    preview(
        state,
        effects,
        action,
        target,
        preview_enabled,
        LogEvent::Previewing { kind: action.kind, champion_id: target },
        clock.now_ms,
    );
    commit(state, effects, action, target, clock.now_ms);
}

/// One poll of an unfinished ban action: updates its state and appends what
/// is to be done.
pub fn handle_ban_action(
    state: &mut ActionState,
    effects: &mut Vec<Effect>,
    action: &PendingAction,
    settings: &Settings,
    position: Position,
    intents: &Vec<i32>,
    clock: Clock,
)
    requires
        clock.has_room(),
    ensures
        *final(state) == spec_ban_action(*old(state), *action, *settings, position, intents@, clock).state,
        final(effects)@ == old(effects)@ + spec_ban_action(
            *old(state),
            *action,
            *settings,
            position,
            intents@,
            clock,
        ).effects,
{
    clear(state, action, clock.phase);
    if settings.sr_ban_enable {
        let preset = settings.sr_bans.get(position);
        let target = resolve_ban_target(position, &settings.sr_bans, intents, action.id);
        if target != preset && target != NO_CHAMPION {
            effects.push(Effect::Log(LogEvent::BanSubstituted { champion_id: target }));
        }
        if action.is_in_progress {
            turn(state, effects, action, target, true, settings, clock);
        }
    }
}

/// One poll of an unfinished pick action: updates its state and appends
/// what is to be done.
pub fn handle_pick_action(
    state: &mut ActionState,
    effects: &mut Vec<Effect>,
    action: &PendingAction,
    settings: &Settings,
    position: Position,
    clock: Clock,
)
    requires
        clock.has_room(),
    ensures
        *final(state) == spec_pick_action(*old(state), *action, *settings, position, clock).state,
        final(effects)@ == old(effects)@ + spec_pick_action(
            *old(state),
            *action,
            *settings,
            position,
            clock,
        ).effects,
{
    clear(state, action, clock.phase);
    let target = resolve_pick_target(position, &settings.sr_picks);
    if action.is_in_progress {
        turn(state, effects, action, target, settings.sr_enable, settings, clock);
    } else {
        preview(
            state,
            effects,
            action,
            target,
            settings.sr_enable,
            LogEvent::IntentShown { champion_id: target },
            clock.now_ms,
        );
    }
}

/// One poll of one owned action, whatever its kind and state.
pub fn handle_owned_action(
    state: &mut ActionState,
    effects: &mut Vec<Effect>,
    action: &PendingAction,
    settings: &Settings,
    position: Position,
    intents: &Vec<i32>,
    clock: Clock,
)
    requires
        clock.has_room(),
    ensures
        *final(state) == spec_owned_action(*old(state), *action, *settings, position, intents@, clock).state,
        final(effects)@ == old(effects)@ + spec_owned_action(
            *old(state),
            *action,
            *settings,
            position,
            intents@,
            clock,
        ).effects,
{
    if action.completed {
        state.completed = true;
        state.lock_scheduled_at = None;
    } else if !state.completed {
        match action.kind {
            ActionKind::Ban => handle_ban_action(state, effects, action, settings, position, intents, clock),
            ActionKind::Pick => handle_pick_action(state, effects, action, settings, position, clock),
            ActionKind::Other => clear(state, action, clock.phase),
        }
    }
}

/// An action that is finished stays finished and causes nothing, whatever
/// the session reports and whatever is configured.
pub proof fn lemma_finished_is_terminal(
    state: ActionState,
    action: PendingAction,
    settings: Settings,
    position: Position,
    intents: Seq<i32>,
    clock: Clock,
)
    requires
        state.completed,
    ensures
        ({
            let after = spec_owned_action(state, action, settings, position, intents, clock);
            &&& after.state.completed
            &&& after.effects.len() == 0
        }),
{
}

/// An action that the session reports as final is finished from then on,
/// without a schedule.
pub proof fn lemma_reported_final_is_recorded(
    state: ActionState,
    action: PendingAction,
    settings: Settings,
    position: Position,
    intents: Seq<i32>,
    clock: Clock,
)
    requires
        action.completed,
    ensures
        ({
            let after = spec_owned_action(state, action, settings, position, intents, clock);
            &&& after.state.completed
            &&& after.state.lock_scheduled_at is None
            &&& after.effects.len() == 0
        }),
{
}

/// After every step the state is well formed, and no schedule stands while
/// the action is out of its owner's turn or the sub-phase forbids
/// committing it.
pub proof fn lemma_schedule_only_while_committable(
    state: ActionState,
    action: PendingAction,
    settings: Settings,
    position: Position,
    intents: Seq<i32>,
    clock: Clock,
)
    requires
        state.wf(),
    ensures
        ({
            let after = spec_owned_action(state, action, settings, position, intents, clock);
            &&& after.state.wf()
            &&& !action.is_in_progress ==> after.state.lock_scheduled_at is None
            &&& spec_forbids_commit(action.kind, clock.phase) ==> after.state.lock_scheduled_at is None
        }),
{
}

/// Whether a step on this action schedules at all: it is unfinished, its
/// owner's turn, of a kind that is committed automatically, and the
/// sub-phase allows committing it.
pub open spec fn spec_schedules(action: PendingAction, settings: Settings, clock: Clock) -> bool {
    &&& !action.completed
    &&& action.is_in_progress
    &&& !spec_forbids_commit(action.kind, clock.phase)
    &&& spec_auto_commit(action.kind, settings)
    &&& action.kind == ActionKind::Ban ==> settings.sr_ban_enable
}

/// When the turn arrives with nothing scheduled, the commit is scheduled
/// for `margin` seconds before the phase ends, counted from the time left
/// at this very poll: at `now + max(0, time_left - 1000 * margin)`. The
/// step ends with that schedule, unless it is due at once and there is a
/// character to lock: then the commit is sent in the same step.
pub proof fn lemma_turn_arrival_schedules(
    state: ActionState,
    action: PendingAction,
    settings: Settings,
    position: Position,
    intents: Seq<i32>,
    clock: Clock,
)
    requires
        !state.completed,
        state.lock_scheduled_at is None,
        spec_schedules(action, settings, clock),
        clock.has_room(),
    ensures
        ({
            let after = spec_owned_action(state, action, settings, position, intents, clock);
            let wait = spec_wait_ms(clock.time_left_ms, spec_margin_s(action.kind, settings));
            let margin_s = spec_margin_s(action.kind, settings);
            &&& wait == if clock.time_left_ms - 1000 * margin_s > 0 {
                clock.time_left_ms - 1000 * margin_s
            } else {
                0
            }
            &&& after.effects.contains(
                Effect::Log(LogEvent::CommitScheduled { kind: action.kind, wait_ms: wait as u64, margin_s }),
            )
            &&& !after.state.completed ==> {
                &&& after.state.lock_scheduled_at is Some
                &&& after.state.lock_scheduled_at->0 == clock.now_ms + wait
            }
            &&& after.state.completed ==> wait == 0 && after.state.lock_scheduled_at is None
        }),
{
    let after = spec_owned_action(state, action, settings, position, intents, clock);
    let wait = spec_wait_ms(clock.time_left_ms, spec_margin_s(action.kind, settings));
    let margin_s = spec_margin_s(action.kind, settings);
    let event = Effect::Log(LogEvent::CommitScheduled { kind: action.kind, wait_ms: wait as u64, margin_s });
    let cleared = spec_clear(state, action, clock.phase);
    let scheduled = spec_schedule(cleared, action, settings, clock);
    assert(scheduled.effects[0] == event);
    match action.kind {
        ActionKind::Ban => {
            let preset = settings.sr_bans.spec_get(position);
            let target = spec_ban_target(position, settings.sr_bans, intents, action.id);
            let note = spec_substitution_note(preset, target);
            assert(after.effects[note.len() as int] == event);
        },
        ActionKind::Pick => {
            assert(after.effects[0] == event);
        },
        ActionKind::Other => {},
    }
}

/// A schedule that stands is not moved while the turn lasts: a step in the
/// same turn either keeps it as it is, or commits and drops it.
pub proof fn lemma_schedule_is_kept_during_turn(
    state: ActionState,
    action: PendingAction,
    settings: Settings,
    position: Position,
    intents: Seq<i32>,
    clock: Clock,
)
    requires
        !state.completed,
        state.lock_scheduled_at is Some,
        !action.completed,
        action.is_in_progress,
        !spec_forbids_commit(action.kind, clock.phase),
    ensures
        ({
            let after = spec_owned_action(state, action, settings, position, intents, clock);
            &&& !after.state.completed ==> after.state.lock_scheduled_at == state.lock_scheduled_at
            &&& after.state.completed ==> after.state.lock_scheduled_at is None
        }),
{
}

/// When the turn departs, the schedule is dropped, so that the next
/// arrival computes a new one from the time left then.
pub proof fn lemma_turn_departure_drops_schedule(
    state: ActionState,
    action: PendingAction,
    settings: Settings,
    position: Position,
    intents: Seq<i32>,
    clock: Clock,
)
    requires
        !state.completed,
        !action.is_in_progress,
    ensures
        spec_owned_action(state, action, settings, position, intents, clock).state.lock_scheduled_at is None,
{
}

/// Each turn gets a schedule of its own: when the turn has departed and
/// arrives again, the commit is scheduled from the clock and the time left
/// at the arrival, whatever was scheduled in the turn before.
pub proof fn lemma_new_turn_schedules_anew(
    state: ActionState,
    departed: PendingAction,
    arrived: PendingAction,
    settings: Settings,
    position: Position,
    intents: Seq<i32>,
    at_departure: Clock,
    at_arrival: Clock,
)
    requires
        !state.completed,
        !departed.completed,
        !departed.is_in_progress,
        spec_schedules(arrived, settings, at_arrival),
        at_arrival.has_room(),
    ensures
        ({
            let between = spec_owned_action(state, departed, settings, position, intents, at_departure);
            let after = spec_owned_action(between.state, arrived, settings, position, intents, at_arrival);
            let wait = spec_wait_ms(at_arrival.time_left_ms, spec_margin_s(arrived.kind, settings));
            &&& between.state.lock_scheduled_at is None
            &&& !between.state.completed
            &&& !after.state.completed ==> {
                &&& after.state.lock_scheduled_at is Some
                &&& after.state.lock_scheduled_at->0 == at_arrival.now_ms + wait
            }
        }),
{
    let between = spec_owned_action(state, departed, settings, position, intents, at_departure);
    lemma_turn_departure_drops_schedule(state, departed, settings, position, intents, at_departure);
    assert(!between.state.completed);
    lemma_turn_arrival_schedules(between.state, arrived, settings, position, intents, at_arrival);
}

/// Whether every effect in `effects` belongs to the action `id`.
pub open spec fn spec_all_belong_to(effects: Seq<Effect>, id: i64) -> bool {
    forall|k: int| 0 <= k < effects.len() ==> (#[trigger] effects[k]).belongs_to(id)
}

proof fn lemma_turn_belongs(
    state: ActionState,
    action: PendingAction,
    target: i32,
    preview_enabled: bool,
    settings: Settings,
    clock: Clock,
)
    ensures
        spec_all_belong_to(
            spec_turn(state, action, target, preview_enabled, settings, clock).effects,
            action.id,
        ),
{
    let scheduled = spec_schedule(state, action, settings, clock);
    let previewed = spec_preview(
        scheduled.state,
        action,
        target,
        preview_enabled,
        LogEvent::Previewing { kind: action.kind, champion_id: target },
        clock.now_ms,
    );
    let committed = spec_commit(previewed.state, action, target, clock.now_ms);
    assert(spec_all_belong_to(scheduled.effects, action.id));
    assert(spec_all_belong_to(previewed.effects, action.id));
    assert(spec_all_belong_to(committed.effects, action.id));
}

/// A step asks only for what belongs to its action: requests for that
/// action, and words to the user.
pub proof fn lemma_requests_concern_the_action(
    state: ActionState,
    action: PendingAction,
    settings: Settings,
    position: Position,
    intents: Seq<i32>,
    clock: Clock,
)
    ensures
        spec_all_belong_to(
            spec_owned_action(state, action, settings, position, intents, clock).effects,
            action.id,
        ),
{
    let cleared = spec_clear(state, action, clock.phase);
    let ban_target = spec_ban_target(position, settings.sr_bans, intents, action.id);
    let pick_target = spec_pick_target(position, settings.sr_picks);
    lemma_turn_belongs(cleared, action, ban_target, true, settings, clock);
    lemma_turn_belongs(cleared, action, pick_target, settings.sr_enable, settings, clock);
    let note = spec_substitution_note(settings.sr_bans.spec_get(position), ban_target);
    assert(spec_all_belong_to(note, action.id));
    let shown = spec_preview(
        cleared,
        action,
        pick_target,
        settings.sr_enable,
        LogEvent::IntentShown { champion_id: pick_target },
        clock.now_ms,
    );
    assert(spec_all_belong_to(shown.effects, action.id));
}

/// Nothing is ever committed for a ban while everybody declares
/// intentions, though previews go on.
pub proof fn lemma_no_ban_commit_while_planning(
    state: ActionState,
    action: PendingAction,
    settings: Settings,
    position: Position,
    intents: Seq<i32>,
    clock: Clock,
)
    requires
        state.wf(),
        action.kind == ActionKind::Ban,
        clock.phase == TimerPhase::Planning,
    ensures
        ({
            let after = spec_owned_action(state, action, settings, position, intents, clock);
            &&& after.state.lock_scheduled_at is None
            &&& forall|k: int| 0 <= k < after.effects.len() ==> !(#[trigger] after.effects[k] is Commit)
            &&& after.state.completed ==> state.completed || action.completed
        }),
{
}

/// Two previews of one action are never less than `PREVIEW_INTERVAL_MS`
/// apart: a step that comes sooner after a preview sends none, and leaves
/// the time of the last preview as it is.
pub proof fn lemma_previews_keep_their_distance(
    state: ActionState,
    action: PendingAction,
    settings: Settings,
    position: Position,
    intents: Seq<i32>,
    clock: Clock,
)
    requires
        state.last_act_time is Some,
        clock.now_ms - state.last_act_time->0 < PREVIEW_INTERVAL_MS,
    ensures
        ({
            let after = spec_owned_action(state, action, settings, position, intents, clock);
            &&& after.state.last_act_time == state.last_act_time
            &&& after.state.hovered == state.hovered
            &&& forall|k: int| 0 <= k < after.effects.len() ==> !(#[trigger] after.effects[k] is Preview)
        }),
{
}

/// Whether an effect is one that a step on `action` may rightly ask for:
/// a preview only where no character is associated with the action, and
/// no request that names no character.
pub open spec fn spec_fits(effect: Effect, action: PendingAction) -> bool {
    match effect {
        Effect::Preview { champion_id, .. } => action.champion_id == NO_CHAMPION && champion_id != NO_CHAMPION,
        Effect::Commit { champion_id, .. } => champion_id != NO_CHAMPION,
        _ => true,
    }
}

/// Whether every effect in `effects` fits `action`.
pub open spec fn spec_all_fit(effects: Seq<Effect>, action: PendingAction) -> bool {
    forall|k: int| 0 <= k < effects.len() ==> spec_fits(#[trigger] effects[k], action)
}

proof fn lemma_turn_fits(
    state: ActionState,
    action: PendingAction,
    target: i32,
    preview_enabled: bool,
    settings: Settings,
    clock: Clock,
)
    ensures
        spec_all_fit(spec_turn(state, action, target, preview_enabled, settings, clock).effects, action),
{
    let scheduled = spec_schedule(state, action, settings, clock);
    let previewed = spec_preview(
        scheduled.state,
        action,
        target,
        preview_enabled,
        LogEvent::Previewing { kind: action.kind, champion_id: target },
        clock.now_ms,
    );
    let committed = spec_commit(previewed.state, action, target, clock.now_ms);
    assert(spec_all_fit(scheduled.effects, action));
    assert(spec_all_fit(previewed.effects, action));
    assert(spec_all_fit(committed.effects, action));
}

/// A preview is never sent for an action that has a character associated
/// with it, and no request ever names no character.
pub proof fn lemma_requests_fit_the_action(
    state: ActionState,
    action: PendingAction,
    settings: Settings,
    position: Position,
    intents: Seq<i32>,
    clock: Clock,
)
    ensures
        spec_all_fit(spec_owned_action(state, action, settings, position, intents, clock).effects, action),
{
    let cleared = spec_clear(state, action, clock.phase);
    let ban_target = spec_ban_target(position, settings.sr_bans, intents, action.id);
    let pick_target = spec_pick_target(position, settings.sr_picks);
    lemma_turn_fits(cleared, action, ban_target, true, settings, clock);
    lemma_turn_fits(cleared, action, pick_target, settings.sr_enable, settings, clock);
    let note = spec_substitution_note(settings.sr_bans.spec_get(position), ban_target);
    assert(spec_all_fit(note, action));
    let shown = spec_preview(
        cleared,
        action,
        pick_target,
        settings.sr_enable,
        LogEvent::IntentShown { champion_id: pick_target },
        clock.now_ms,
    );
    assert(spec_all_fit(shown.effects, action));
}

} // verus!
