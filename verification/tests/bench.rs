use hex_connector::bench::{claim_target, count_of, handle_aram_bench, same_members};
use hex_connector::effects::{Effect, LogEvent};
use hex_connector::models::{Position, Settings};
use hex_connector::session::{SessionSnapshot, TeamMember, TimerPhase};

fn session(bench: Option<Vec<i32>>, held: i32) -> SessionSnapshot {
    SessionSnapshot {
        local_cell_id: 2,
        bench_enabled: true,
        phase: TimerPhase::Other,
        time_left_ms: 0,
        team: vec![
            TeamMember { cell_id: 1, position: Position::Unassigned, pick_intent: 0, champion_id: 64 },
            TeamMember { cell_id: 2, position: Position::Unassigned, pick_intent: 0, champion_id: held },
        ],
        bench,
        actions: Vec::new(),
    }
}

fn settings(wanted: Vec<i32>) -> Settings {
    let mut settings = Settings::default();
    settings.snipe_list = wanted;
    settings
}

#[test]
fn count_counts_occurrences() {
    assert_eq!(count_of(&vec![3, 64, 3, 99, 3], 3), 3);
    assert_eq!(count_of(&vec![3, 64, 3, 99, 3], 64), 1);
    assert_eq!(count_of(&vec![3, 64, 3, 99, 3], 5), 0);
    assert_eq!(count_of(&Vec::new(), 5), 0);
}

#[test]
fn same_members_ignores_order() {
    assert!(same_members(&vec![3, 64, 99], &vec![64, 99, 3]));
    assert!(same_members(&vec![3, 64, 99], &vec![3, 64, 99]));
    assert!(same_members(&Vec::new(), &Vec::new()));
    assert!(!same_members(&vec![3, 64, 99], &vec![3, 99]));
    assert!(!same_members(&vec![3, 99], &vec![3, 64, 99]));
    assert!(!same_members(&vec![3, 64, 99], &vec![3, 64, 98]));
    assert!(!same_members(&Vec::new(), &vec![1]));
}

#[test]
fn same_members_counts_repetitions() {
    assert!(same_members(&vec![3, 3, 64], &vec![3, 64, 3]));
    assert!(!same_members(&vec![3, 3, 64], &vec![3, 64, 64]));
    assert!(!same_members(&vec![3, 3], &vec![3]));
}

#[test]
fn scenario_reordered_bench_is_not_announced() {
    let settings = settings(Vec::new());
    let mut remembered = vec![3, 64, 99];
    let effects = handle_aram_bench(&session(Some(vec![64, 99, 3]), 0), &settings, &mut remembered);
    assert!(effects.is_empty());
    assert_eq!(remembered, vec![3, 64, 99]);
}

#[test]
fn scenario_changed_bench_is_announced_once() {
    let settings = settings(Vec::new());
    let mut remembered = vec![3, 64, 99];
    let effects = handle_aram_bench(&session(Some(vec![3, 99]), 0), &settings, &mut remembered);
    assert_eq!(effects, vec![Effect::BenchChanged]);
    assert_eq!(remembered, vec![3, 99]);
    let effects = handle_aram_bench(&session(Some(vec![99, 3]), 0), &settings, &mut remembered);
    assert!(effects.is_empty());
    assert_eq!(remembered, vec![3, 99]);
}

#[test]
fn session_without_bench_changes_nothing() {
    let settings = settings(vec![3]);
    let mut remembered = vec![3, 64];
    let effects = handle_aram_bench(&session(None, 0), &settings, &mut remembered);
    assert!(effects.is_empty());
    assert_eq!(remembered, vec![3, 64]);
}

#[test]
fn claim_takes_the_most_wanted_on_the_bench() {
    assert_eq!(claim_target(0, &vec![5, 6, 7], &vec![7, 6]), Some(6));
    assert_eq!(claim_target(0, &vec![5, 6, 7], &vec![7]), Some(7));
    assert_eq!(claim_target(0, &vec![5, 6, 7], &vec![5, 6, 7]), Some(5));
    assert_eq!(claim_target(0, &vec![5, 6, 7], &vec![1, 2]), None);
    assert_eq!(claim_target(0, &vec![5, 6, 7], &Vec::new()), None);
    assert_eq!(claim_target(0, &Vec::new(), &vec![5]), None);
}

#[test]
fn claim_stops_at_the_character_held() {
    assert_eq!(claim_target(5, &vec![5, 6, 7], &vec![6, 7]), None);
    assert_eq!(claim_target(6, &vec![5, 6, 7], &vec![7]), None);
    assert_eq!(claim_target(6, &vec![5, 6, 7], &vec![5, 7]), Some(5));
    assert_eq!(claim_target(7, &vec![5, 6, 7], &vec![6]), Some(6));
    assert_eq!(claim_target(5, &vec![5], &vec![5]), None);
}

#[test]
fn one_claim_per_poll() {
    let settings = settings(vec![5, 6, 7]);
    let mut remembered = vec![6, 7];
    let effects = handle_aram_bench(&session(Some(vec![7, 6]), 1), &settings, &mut remembered);
    assert_eq!(
        effects,
        vec![Effect::Claim { champion_id: 6 }, Effect::Log(LogEvent::Claimed { champion_id: 6 })]
    );
}

#[test]
fn claims_can_be_switched_off() {
    let mut settings = settings(vec![5, 6, 7]);
    settings.aram_snipe = false;
    let mut remembered = Vec::new();
    let effects = handle_aram_bench(&session(Some(vec![7, 6]), 1), &settings, &mut remembered);
    assert_eq!(effects, vec![Effect::BenchChanged]);
    assert_eq!(remembered, vec![7, 6]);
}

#[test]
fn satisfied_top_wish_claims_nothing() {
    let settings = settings(vec![5, 6, 7]);
    let mut remembered = vec![6, 7];
    let effects = handle_aram_bench(&session(Some(vec![6, 7]), 5), &settings, &mut remembered);
    assert!(effects.is_empty());
}
