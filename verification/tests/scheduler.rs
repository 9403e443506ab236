use hex_connector::effects::{Effect, LogEvent};
use hex_connector::models::{ActionState, Position, Settings};
use hex_connector::scheduler::{
    forbids_commit, handle_ban_action, handle_owned_action, handle_pick_action, preview_allowed, wait_ms, Clock,
};
use hex_connector::session::{ActionKind, PendingAction, TimerPhase};

fn ban_settings(preset: i32) -> Settings {
    let mut settings = Settings::default();
    settings.sr_bans.set(Position::Top, preset);
    settings
}

fn pick_settings(preset: i32) -> Settings {
    let mut settings = Settings::default();
    settings.auto_lock = true;
    settings.sr_picks.set(Position::Middle, preset);
    settings
}

fn action(id: i64, kind: ActionKind, in_turn: bool, champion_id: i32) -> PendingAction {
    PendingAction { id, actor_cell_id: 3, kind, is_in_progress: in_turn, completed: false, champion_id }
}

fn clock(now_ms: u64, time_left_ms: i64, phase: TimerPhase) -> Clock {
    Clock { now_ms, time_left_ms, phase }
}

#[test]
fn wait_is_time_left_minus_margin() {
    assert_eq!(wait_ms(5000, 2), 3000);
    assert_eq!(wait_ms(99999, 3), 96999);
    assert_eq!(wait_ms(2000, 2), 0);
    assert_eq!(wait_ms(1999, 2), 0);
    assert_eq!(wait_ms(2001, 2), 1);
    assert_eq!(wait_ms(0, 0), 0);
    assert_eq!(wait_ms(-500, 0), 0);
    assert_eq!(wait_ms(i64::MAX, 0), i64::MAX as u64);
    assert_eq!(wait_ms(i64::MAX, u64::MAX), 0);
    assert_eq!(wait_ms(i64::MIN, 5), 0);
}

#[test]
fn preview_needs_half_a_second() {
    let mut state = ActionState::default();
    assert!(preview_allowed(&state, 0));
    state.last_act_time = Some(1000);
    assert!(!preview_allowed(&state, 1000));
    assert!(!preview_allowed(&state, 1499));
    assert!(preview_allowed(&state, 1500));
    assert!(preview_allowed(&state, 9000));
    assert!(!preview_allowed(&state, 10));
}

#[test]
fn only_bans_are_forbidden_while_planning() {
    assert!(forbids_commit(ActionKind::Ban, TimerPhase::Planning));
    assert!(!forbids_commit(ActionKind::Ban, TimerPhase::Other));
    assert!(!forbids_commit(ActionKind::Pick, TimerPhase::Planning));
    assert!(!forbids_commit(ActionKind::Other, TimerPhase::Planning));
}

#[test]
fn ban_is_scheduled_previewed_and_committed() {
    let settings = ban_settings(64);
    let intents: Vec<i32> = Vec::new();
    let mut state = ActionState::default();
    let mut effects: Vec<Effect> = Vec::new();
    let now = 10_000;
    handle_ban_action(
        &mut state,
        &mut effects,
        &action(7, ActionKind::Ban, true, 0),
        &settings,
        Position::Top,
        &intents,
        clock(now, 5000, TimerPhase::Other),
    );
    assert_eq!(
        effects,
        vec![
            Effect::Log(LogEvent::CommitScheduled { kind: ActionKind::Ban, wait_ms: 3000, margin_s: 2 }),
            Effect::Preview { action_id: 7, champion_id: 64 },
            Effect::Log(LogEvent::Previewing { kind: ActionKind::Ban, champion_id: 64 }),
        ]
    );
    assert_eq!(
        state,
        ActionState {
            hovered: true,
            completed: false,
            last_act_time: Some(now),
            lock_scheduled_at: Some(now + 3000),
        }
    );

    // A poll before the due time, with the preview in place, does nothing.
    let mut quiet: Vec<Effect> = Vec::new();
    handle_ban_action(
        &mut state,
        &mut quiet,
        &action(7, ActionKind::Ban, true, 64),
        &settings,
        Position::Top,
        &intents,
        clock(now + 2999, 2001, TimerPhase::Other),
    );
    assert!(quiet.is_empty());
    assert_eq!(state.lock_scheduled_at, Some(now + 3000));
    assert!(!state.completed);

    let mut due: Vec<Effect> = Vec::new();
    handle_ban_action(
        &mut state,
        &mut due,
        &action(7, ActionKind::Ban, true, 64),
        &settings,
        Position::Top,
        &intents,
        clock(now + 3000, 2000, TimerPhase::Other),
    );
    assert_eq!(
        due,
        vec![
            Effect::Log(LogEvent::Committing { kind: ActionKind::Ban, champion_id: 64 }),
            Effect::Commit { action_id: 7, champion_id: 64 },
        ]
    );
    assert!(state.completed);
    assert_eq!(state.lock_scheduled_at, None);
}

#[test]
fn ban_is_never_scheduled_while_planning() {
    let settings = ban_settings(64);
    let intents: Vec<i32> = Vec::new();
    let mut state = ActionState::default();
    let mut now = 1000;
    let mut previews = 0;
    while now < 20_000 {
        let mut effects: Vec<Effect> = Vec::new();
        handle_ban_action(
            &mut state,
            &mut effects,
            &action(7, ActionKind::Ban, true, 0),
            &settings,
            Position::Top,
            &intents,
            clock(now, 0, TimerPhase::Planning),
        );
        assert_eq!(state.lock_scheduled_at, None);
        assert!(!state.completed);
        for effect in effects {
            match effect {
                Effect::Preview { action_id, champion_id } => {
                    assert_eq!((action_id, champion_id), (7, 64));
                    previews += 1;
                }
                Effect::Log(LogEvent::Previewing { .. }) => {}
                other => panic!("unexpected {:?}", other),
            }
        }
        now += 200;
    }
    assert!(previews > 1);
}

#[test]
fn first_poll_while_planning_previews() {
    let settings = ban_settings(64);
    let intents: Vec<i32> = Vec::new();
    let mut state = ActionState::default();
    let mut effects: Vec<Effect> = Vec::new();
    handle_ban_action(
        &mut state,
        &mut effects,
        &action(7, ActionKind::Ban, true, 0),
        &settings,
        Position::Top,
        &intents,
        clock(50, 5000, TimerPhase::Planning),
    );
    assert_eq!(
        effects,
        vec![
            Effect::Preview { action_id: 7, champion_id: 64 },
            Effect::Log(LogEvent::Previewing { kind: ActionKind::Ban, champion_id: 64 }),
        ]
    );
    assert_eq!(state.lock_scheduled_at, None);
}

#[test]
fn planning_drops_a_standing_schedule() {
    let settings = ban_settings(64);
    let intents: Vec<i32> = Vec::new();
    let mut state = ActionState { hovered: true, completed: false, last_act_time: Some(0), lock_scheduled_at: Some(10) };
    let mut effects: Vec<Effect> = Vec::new();
    handle_ban_action(
        &mut state,
        &mut effects,
        &action(7, ActionKind::Ban, true, 64),
        &settings,
        Position::Top,
        &intents,
        clock(5000, 5000, TimerPhase::Planning),
    );
    assert!(effects.is_empty());
    assert_eq!(state.lock_scheduled_at, None);
    assert!(!state.completed);
}

#[test]
fn previews_are_rate_limited() {
    let settings = ban_settings(64);
    let intents: Vec<i32> = Vec::new();
    let mut state = ActionState::default();
    let mut sent_at: Vec<u64> = Vec::new();
    let mut now = 0;
    while now <= 1200 {
        let mut effects: Vec<Effect> = Vec::new();
        handle_ban_action(
            &mut state,
            &mut effects,
            &action(7, ActionKind::Ban, true, 0),
            &settings,
            Position::Top,
            &intents,
            clock(now, 60_000, TimerPhase::Other),
        );
        if effects.contains(&Effect::Preview { action_id: 7, champion_id: 64 }) {
            sent_at.push(now);
        }
        now += 100;
    }
    assert_eq!(sent_at, vec![0, 500, 1000]);
}

#[test]
fn first_preview_is_announced_once() {
    let settings = ban_settings(64);
    let intents: Vec<i32> = Vec::new();
    let mut state = ActionState::default();
    let mut announcements = 0;
    for now in [0u64, 600, 1200, 1800] {
        let mut effects: Vec<Effect> = Vec::new();
        handle_ban_action(
            &mut state,
            &mut effects,
            &action(7, ActionKind::Ban, true, 0),
            &settings,
            Position::Top,
            &intents,
            clock(now, 60_000, TimerPhase::Other),
        );
        for effect in effects {
            if let Effect::Log(LogEvent::Previewing { .. }) = effect {
                announcements += 1;
            }
        }
    }
    assert_eq!(announcements, 1);
}

#[test]
fn no_preview_when_a_character_is_associated() {
    let settings = ban_settings(64);
    let intents: Vec<i32> = Vec::new();
    let mut state = ActionState::default();
    let mut effects: Vec<Effect> = Vec::new();
    handle_ban_action(
        &mut state,
        &mut effects,
        &action(7, ActionKind::Ban, true, 11),
        &settings,
        Position::Top,
        &intents,
        clock(0, 60_000, TimerPhase::Other),
    );
    assert_eq!(
        effects,
        vec![Effect::Log(LogEvent::CommitScheduled { kind: ActionKind::Ban, wait_ms: 58_000, margin_s: 2 })]
    );
    assert!(!state.hovered);
}

#[test]
fn commit_locks_the_associated_character_first() {
    let settings = ban_settings(64);
    let intents: Vec<i32> = Vec::new();
    let mut state = ActionState { hovered: false, completed: false, last_act_time: None, lock_scheduled_at: Some(100) };
    let mut effects: Vec<Effect> = Vec::new();
    handle_ban_action(
        &mut state,
        &mut effects,
        &action(7, ActionKind::Ban, true, 11),
        &settings,
        Position::Top,
        &intents,
        clock(100, 0, TimerPhase::Other),
    );
    assert_eq!(
        effects,
        vec![
            Effect::Log(LogEvent::Committing { kind: ActionKind::Ban, champion_id: 11 }),
            Effect::Commit { action_id: 7, champion_id: 11 },
        ]
    );
    assert!(state.completed);
}

#[test]
fn due_commit_without_target_waits_for_a_late_selection() {
    let settings = ban_settings(0);
    let intents: Vec<i32> = Vec::new();
    let mut state = ActionState::default();
    let mut effects: Vec<Effect> = Vec::new();
    handle_ban_action(
        &mut state,
        &mut effects,
        &action(7, ActionKind::Ban, true, 0),
        &settings,
        Position::Top,
        &intents,
        clock(1000, 1000, TimerPhase::Other),
    );
    assert_eq!(
        effects,
        vec![Effect::Log(LogEvent::CommitScheduled { kind: ActionKind::Ban, wait_ms: 0, margin_s: 2 })]
    );
    assert_eq!(state.lock_scheduled_at, Some(1000));
    assert!(!state.completed);

    // The user selects by hand at the last moment: the next poll commits it.
    let mut late: Vec<Effect> = Vec::new();
    handle_ban_action(
        &mut state,
        &mut late,
        &action(7, ActionKind::Ban, true, 23),
        &settings,
        Position::Top,
        &intents,
        clock(1200, 800, TimerPhase::Other),
    );
    assert_eq!(
        late,
        vec![
            Effect::Log(LogEvent::Committing { kind: ActionKind::Ban, champion_id: 23 }),
            Effect::Commit { action_id: 7, champion_id: 23 },
        ]
    );
    assert!(state.completed);
    assert_eq!(state.lock_scheduled_at, None);
}

#[test]
fn schedule_preview_and_commit_in_one_poll() {
    let settings = ban_settings(64);
    let intents: Vec<i32> = Vec::new();
    let mut state = ActionState::default();
    let mut effects: Vec<Effect> = Vec::new();
    handle_ban_action(
        &mut state,
        &mut effects,
        &action(7, ActionKind::Ban, true, 0),
        &settings,
        Position::Top,
        &intents,
        clock(400, 1500, TimerPhase::Other),
    );
    assert_eq!(
        effects,
        vec![
            Effect::Log(LogEvent::CommitScheduled { kind: ActionKind::Ban, wait_ms: 0, margin_s: 2 }),
            Effect::Preview { action_id: 7, champion_id: 64 },
            Effect::Log(LogEvent::Previewing { kind: ActionKind::Ban, champion_id: 64 }),
            Effect::Log(LogEvent::Committing { kind: ActionKind::Ban, champion_id: 64 }),
            Effect::Commit { action_id: 7, champion_id: 64 },
        ]
    );
    assert!(state.completed);
    assert_eq!(state.lock_scheduled_at, None);
}

#[test]
fn schedule_is_recomputed_on_each_turn() {
    let settings = ban_settings(64);
    let intents: Vec<i32> = Vec::new();
    let mut state = ActionState::default();
    let mut effects: Vec<Effect> = Vec::new();
    let in_turn = action(7, ActionKind::Ban, true, 64);
    let out_of_turn = action(7, ActionKind::Ban, false, 64);
    handle_ban_action(&mut state, &mut effects, &in_turn, &settings, Position::Top, &intents, clock(0, 30_000, TimerPhase::Other));
    assert_eq!(state.lock_scheduled_at, Some(28_000));
    // Within the turn the schedule stays, though the time left jumps.
    handle_ban_action(&mut state, &mut effects, &in_turn, &settings, Position::Top, &intents, clock(200, 9_000, TimerPhase::Other));
    assert_eq!(state.lock_scheduled_at, Some(28_000));
    handle_ban_action(&mut state, &mut effects, &in_turn, &settings, Position::Top, &intents, clock(400, 50_000, TimerPhase::Other));
    assert_eq!(state.lock_scheduled_at, Some(28_000));
    // The turn departs: the schedule goes.
    handle_ban_action(&mut state, &mut effects, &out_of_turn, &settings, Position::Top, &intents, clock(600, 29_000, TimerPhase::Other));
    assert_eq!(state.lock_scheduled_at, None);
    // The turn comes back: a new schedule from the time left then.
    handle_ban_action(&mut state, &mut effects, &in_turn, &settings, Position::Top, &intents, clock(800, 10_000, TimerPhase::Other));
    assert_eq!(state.lock_scheduled_at, Some(8_800));
    assert!(!state.completed);
}

#[test]
fn ban_out_of_turn_sends_nothing() {
    let settings = ban_settings(64);
    let intents: Vec<i32> = Vec::new();
    let mut state = ActionState::default();
    let mut effects: Vec<Effect> = Vec::new();
    handle_ban_action(
        &mut state,
        &mut effects,
        &action(7, ActionKind::Ban, false, 0),
        &settings,
        Position::Top,
        &intents,
        clock(0, 5000, TimerPhase::Other),
    );
    assert!(effects.is_empty());
    assert_eq!(state, ActionState::default());
}

#[test]
fn disabled_ban_automation_does_nothing() {
    let mut settings = ban_settings(64);
    settings.sr_ban_enable = false;
    let intents: Vec<i32> = Vec::new();
    let mut state = ActionState::default();
    let mut effects: Vec<Effect> = Vec::new();
    handle_ban_action(
        &mut state,
        &mut effects,
        &action(7, ActionKind::Ban, true, 0),
        &settings,
        Position::Top,
        &intents,
        clock(0, 0, TimerPhase::Other),
    );
    assert!(effects.is_empty());
    assert_eq!(state, ActionState::default());
}

#[test]
fn ban_without_auto_commit_only_previews() {
    let mut settings = ban_settings(64);
    settings.auto_ban_lock = false;
    let intents: Vec<i32> = Vec::new();
    let mut state = ActionState::default();
    let mut effects: Vec<Effect> = Vec::new();
    handle_ban_action(
        &mut state,
        &mut effects,
        &action(7, ActionKind::Ban, true, 0),
        &settings,
        Position::Top,
        &intents,
        clock(0, 0, TimerPhase::Other),
    );
    assert_eq!(
        effects,
        vec![
            Effect::Preview { action_id: 7, champion_id: 64 },
            Effect::Log(LogEvent::Previewing { kind: ActionKind::Ban, champion_id: 64 }),
        ]
    );
    assert_eq!(state.lock_scheduled_at, None);
}

#[test]
fn conflicting_ban_is_substituted_and_announced() {
    let mut settings = ban_settings(64);
    settings.sr_bans.set(Position::Jungle, 99);
    let intents = vec![64];
    let mut state = ActionState::default();
    let mut effects: Vec<Effect> = Vec::new();
    handle_ban_action(
        &mut state,
        &mut effects,
        &action(7, ActionKind::Ban, true, 0),
        &settings,
        Position::Top,
        &intents,
        clock(0, 5000, TimerPhase::Other),
    );
    assert_eq!(
        effects,
        vec![
            Effect::Log(LogEvent::BanSubstituted { champion_id: 99 }),
            Effect::Log(LogEvent::CommitScheduled { kind: ActionKind::Ban, wait_ms: 3000, margin_s: 2 }),
            Effect::Preview { action_id: 7, champion_id: 99 },
            Effect::Log(LogEvent::Previewing { kind: ActionKind::Ban, champion_id: 99 }),
        ]
    );
}

#[test]
fn conflicting_ban_without_substitute_bans_nothing() {
    let settings = ban_settings(64);
    let intents = vec![64];
    let mut state = ActionState::default();
    let mut effects: Vec<Effect> = Vec::new();
    handle_ban_action(
        &mut state,
        &mut effects,
        &action(7, ActionKind::Ban, true, 0),
        &settings,
        Position::Top,
        &intents,
        clock(0, 0, TimerPhase::Other),
    );
    assert_eq!(
        effects,
        vec![Effect::Log(LogEvent::CommitScheduled { kind: ActionKind::Ban, wait_ms: 0, margin_s: 2 })]
    );
    assert!(!state.completed);
    assert_eq!(state.lock_scheduled_at, Some(0));
}

#[test]
fn pick_is_scheduled_with_its_own_margin() {
    let settings = pick_settings(103);
    let mut state = ActionState::default();
    let mut effects: Vec<Effect> = Vec::new();
    handle_pick_action(
        &mut state,
        &mut effects,
        &action(12, ActionKind::Pick, true, 0),
        &settings,
        Position::Middle,
        clock(1000, 30_000, TimerPhase::Other),
    );
    assert_eq!(
        effects,
        vec![
            Effect::Log(LogEvent::CommitScheduled { kind: ActionKind::Pick, wait_ms: 27_000, margin_s: 3 }),
            Effect::Preview { action_id: 12, champion_id: 103 },
            Effect::Log(LogEvent::Previewing { kind: ActionKind::Pick, champion_id: 103 }),
        ]
    );
    assert_eq!(state.lock_scheduled_at, Some(28_000));
}

#[test]
fn pick_is_scheduled_while_planning_too() {
    let settings = pick_settings(103);
    let mut state = ActionState::default();
    let mut effects: Vec<Effect> = Vec::new();
    handle_pick_action(
        &mut state,
        &mut effects,
        &action(12, ActionKind::Pick, true, 103),
        &settings,
        Position::Middle,
        clock(1000, 30_000, TimerPhase::Planning),
    );
    assert_eq!(state.lock_scheduled_at, Some(28_000));
}

#[test]
fn pick_shows_intent_before_its_turn() {
    let settings = pick_settings(103);
    let mut state = ActionState::default();
    let mut effects: Vec<Effect> = Vec::new();
    handle_pick_action(
        &mut state,
        &mut effects,
        &action(12, ActionKind::Pick, false, 0),
        &settings,
        Position::Middle,
        clock(1000, 30_000, TimerPhase::Planning),
    );
    assert_eq!(
        effects,
        vec![
            Effect::Preview { action_id: 12, champion_id: 103 },
            Effect::Log(LogEvent::IntentShown { champion_id: 103 }),
        ]
    );
    assert_eq!(
        state,
        ActionState { hovered: true, completed: false, last_act_time: Some(1000), lock_scheduled_at: None }
    );
}

#[test]
fn pick_preview_can_be_switched_off() {
    let mut settings = pick_settings(103);
    settings.sr_enable = false;
    let mut state = ActionState::default();
    let mut effects: Vec<Effect> = Vec::new();
    handle_pick_action(
        &mut state,
        &mut effects,
        &action(12, ActionKind::Pick, false, 0),
        &settings,
        Position::Middle,
        clock(1000, 30_000, TimerPhase::Other),
    );
    assert!(effects.is_empty());
    handle_pick_action(
        &mut state,
        &mut effects,
        &action(12, ActionKind::Pick, true, 0),
        &settings,
        Position::Middle,
        clock(1200, 2000, TimerPhase::Other),
    );
    assert_eq!(
        effects,
        vec![
            Effect::Log(LogEvent::CommitScheduled { kind: ActionKind::Pick, wait_ms: 0, margin_s: 3 }),
            Effect::Log(LogEvent::Committing { kind: ActionKind::Pick, champion_id: 103 }),
            Effect::Commit { action_id: 12, champion_id: 103 },
        ]
    );
    assert!(state.completed);
}

#[test]
fn pick_without_auto_commit_is_not_scheduled() {
    let mut settings = pick_settings(103);
    settings.auto_lock = false;
    let mut state = ActionState::default();
    let mut effects: Vec<Effect> = Vec::new();
    handle_pick_action(
        &mut state,
        &mut effects,
        &action(12, ActionKind::Pick, true, 103),
        &settings,
        Position::Middle,
        clock(1000, 0, TimerPhase::Other),
    );
    assert!(effects.is_empty());
    assert_eq!(state.lock_scheduled_at, None);
}

#[test]
fn unassigned_position_has_no_target() {
    let settings = pick_settings(103);
    let mut state = ActionState::default();
    let mut effects: Vec<Effect> = Vec::new();
    handle_pick_action(
        &mut state,
        &mut effects,
        &action(12, ActionKind::Pick, true, 0),
        &settings,
        Position::Unassigned,
        clock(1000, 0, TimerPhase::Other),
    );
    assert_eq!(
        effects,
        vec![Effect::Log(LogEvent::CommitScheduled { kind: ActionKind::Pick, wait_ms: 0, margin_s: 3 })]
    );
    assert!(!state.completed);
}

#[test]
fn reported_final_is_recorded() {
    let settings = ban_settings(64);
    let intents: Vec<i32> = Vec::new();
    let mut state = ActionState { hovered: true, completed: false, last_act_time: Some(5), lock_scheduled_at: Some(900) };
    let mut effects: Vec<Effect> = Vec::new();
    let mut done = action(7, ActionKind::Ban, true, 64);
    done.completed = true;
    handle_owned_action(&mut state, &mut effects, &done, &settings, Position::Top, &intents, clock(1000, 0, TimerPhase::Other));
    assert!(effects.is_empty());
    assert_eq!(
        state,
        ActionState { hovered: true, completed: true, last_act_time: Some(5), lock_scheduled_at: None }
    );
}

#[test]
fn finished_action_is_left_alone() {
    let settings = ban_settings(64);
    let intents: Vec<i32> = Vec::new();
    let finished = ActionState { hovered: true, completed: true, last_act_time: Some(5), lock_scheduled_at: None };
    for kind in [ActionKind::Ban, ActionKind::Pick, ActionKind::Other] {
        for in_turn in [true, false] {
            for phase in [TimerPhase::Planning, TimerPhase::Other] {
                let mut state = finished;
                let mut effects: Vec<Effect> = Vec::new();
                handle_owned_action(
                    &mut state,
                    &mut effects,
                    &action(7, kind, in_turn, 0),
                    &settings,
                    Position::Top,
                    &intents,
                    clock(100_000, 0, phase),
                );
                assert!(effects.is_empty());
                assert_eq!(state, finished);
            }
        }
    }
}

#[test]
fn other_kinds_are_not_automated() {
    let settings = ban_settings(64);
    let intents: Vec<i32> = Vec::new();
    let mut state = ActionState::default();
    let mut effects: Vec<Effect> = Vec::new();
    handle_owned_action(
        &mut state,
        &mut effects,
        &action(7, ActionKind::Other, true, 0),
        &settings,
        Position::Top,
        &intents,
        clock(0, 0, TimerPhase::Other),
    );
    assert!(effects.is_empty());
    assert_eq!(state, ActionState::default());
}

#[test]
fn effects_are_appended_to_earlier_ones() {
    let settings = ban_settings(64);
    let intents: Vec<i32> = Vec::new();
    let mut state = ActionState::default();
    let mut effects = vec![Effect::BenchChanged];
    handle_owned_action(
        &mut state,
        &mut effects,
        &action(7, ActionKind::Ban, true, 0),
        &settings,
        Position::Top,
        &intents,
        clock(0, 60_000, TimerPhase::Planning),
    );
    assert_eq!(effects.len(), 3);
    assert_eq!(effects[0], Effect::BenchChanged);
    assert_eq!(effects[1], Effect::Preview { action_id: 7, champion_id: 64 });
}

#[test]
fn clock_has_room_unless_the_end_of_the_phase_overflows() {
    assert!(clock(0, 0, TimerPhase::Other).check_room());
    assert!(clock(u64::MAX, 0, TimerPhase::Other).check_room());
    assert!(clock(u64::MAX, -1, TimerPhase::Other).check_room());
    assert!(clock(u64::MAX, i64::MIN, TimerPhase::Other).check_room());
    assert!(clock(u64::MAX - 5000, 5000, TimerPhase::Other).check_room());
    assert!(!clock(u64::MAX - 4999, 5000, TimerPhase::Other).check_room());
    assert!(!clock(u64::MAX, 1, TimerPhase::Other).check_room());
    assert!(clock(0, i64::MAX, TimerPhase::Planning).check_room());
}
