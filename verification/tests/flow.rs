use hex_connector::flow::{
    command_action, game_phase_of, handle_end_of_game, handle_lobby, handle_ready_check, poll_interval_ms,
    wants_ballot, wants_search, BackendState, CommandAction, EndOfGameStep, GamePhase, LobbyStep, PhaseChange,
};
use hex_connector::models::{ActionState, BackendMsg, Settings};

#[test]
fn default_settings() {
    let settings = Settings::default();
    assert!(settings.auto_accept);
    assert!(settings.auto_honor);
    assert!(settings.play_again);
    assert!(!settings.auto_queue);
    assert_eq!(settings.queue_delay, 3);
    assert!(!settings.spoof_rank);
    assert_eq!(settings.spoof_tier, "CHALLENGER");
    assert_eq!(settings.spoof_div, "I");
    assert!(settings.aram_snipe);
    assert!(settings.snipe_list.is_empty());
    assert!(settings.sr_enable);
    assert!(settings.sr_ban_enable);
    assert!(!settings.auto_lock);
    assert!(settings.auto_ban_lock);
    assert_eq!(settings.lock_time, 3);
    assert_eq!(settings.ban_time, 2);
    assert_eq!(settings.sr_picks.values(), vec![0, 0, 0, 0, 0]);
    assert_eq!(settings.sr_bans.values(), vec![0, 0, 0, 0, 0]);
}

#[test]
fn default_action_state_is_fresh() {
    assert_eq!(
        ActionState::default(),
        ActionState { hovered: false, completed: false, last_act_time: None, lock_scheduled_at: None }
    );
}

#[test]
fn game_phase_labels() {
    assert_eq!(game_phase_of("Lobby"), GamePhase::Lobby);
    assert_eq!(game_phase_of("ReadyCheck"), GamePhase::ReadyCheck);
    assert_eq!(game_phase_of("ChampSelect"), GamePhase::ChampSelect);
    assert_eq!(game_phase_of("PreEndOfGame"), GamePhase::PreEndOfGame);
    assert_eq!(game_phase_of("EndOfGame"), GamePhase::EndOfGame);
    assert_eq!(game_phase_of("WaitingForStats"), GamePhase::WaitingForStats);
    assert_eq!(game_phase_of("InProgress"), GamePhase::Other);
    assert_eq!(game_phase_of("None"), GamePhase::Other);
    assert_eq!(game_phase_of("champselect"), GamePhase::Other);
    assert_eq!(game_phase_of(""), GamePhase::Other);
}

#[test]
fn poll_intervals() {
    assert_eq!(poll_interval_ms(GamePhase::ChampSelect), 200);
    assert_eq!(poll_interval_ms(GamePhase::ReadyCheck), 500);
    assert_eq!(poll_interval_ms(GamePhase::Lobby), 2000);
    assert_eq!(poll_interval_ms(GamePhase::EndOfGame), 2000);
    assert_eq!(poll_interval_ms(GamePhase::Other), 2000);
}

#[test]
fn ready_check_follows_the_setting() {
    let mut settings = Settings::default();
    assert!(handle_ready_check(&settings));
    settings.auto_accept = false;
    assert!(!handle_ready_check(&settings));
}

fn seen_state() -> BackendState {
    let mut state = BackendState::new();
    state.honored = true;
    state.played_again = true;
    state.queue_timer = Some(5);
    state.last_bench_ids = vec![1, 2];
    state.handled_actions.insert(7, ActionState { hovered: true, completed: true, last_act_time: None, lock_scheduled_at: None });
    state
}

#[test]
fn new_state_is_empty() {
    let state = BackendState::new();
    assert_eq!(state.last_phase, "");
    assert!(!state.honored);
    assert!(!state.played_again);
    assert_eq!(state.queue_timer, None);
    assert!(state.last_bench_ids.is_empty());
    assert!(state.handled_actions.is_empty());
}

#[test]
fn connecting_forgets_the_actions() {
    let mut state = seen_state();
    state.on_connected();
    assert_eq!(state.last_phase, "None");
    assert!(state.handled_actions.is_empty());
    assert!(state.honored);
    assert_eq!(state.queue_timer, Some(5));
    assert_eq!(state.last_bench_ids, vec![1, 2]);
}

#[test]
fn entering_the_negotiation_forgets_the_actions() {
    let settings = Settings::default();
    let mut state = seen_state();
    state.last_phase = "ReadyCheck".to_string();
    assert_eq!(state.on_phase("ChampSelect", &settings), PhaseChange { changed: true, refresh_rank: false });
    assert_eq!(state.last_phase, "ChampSelect");
    assert!(state.handled_actions.is_empty());
    assert!(state.honored);
    assert!(state.played_again);
    assert_eq!(state.queue_timer, Some(5));
}

#[test]
fn polls_within_the_negotiation_keep_the_actions() {
    let settings = Settings::default();
    let mut state = seen_state();
    state.last_phase = "ChampSelect".to_string();
    for _ in 0..3 {
        assert_eq!(state.on_phase("ChampSelect", &settings), PhaseChange { changed: false, refresh_rank: false });
        assert_eq!(state.handled_actions.len(), 1);
    }
}

#[test]
fn other_phases_keep_the_actions() {
    let settings = Settings::default();
    let mut state = seen_state();
    state.last_phase = "ChampSelect".to_string();
    assert_eq!(state.on_phase("InProgress", &settings), PhaseChange { changed: true, refresh_rank: false });
    assert_eq!(state.handled_actions.len(), 1);
    assert_eq!(state.last_phase, "InProgress");
}

#[test]
fn entering_the_lobby_resets_the_match() {
    let mut settings = Settings::default();
    let mut state = seen_state();
    state.last_phase = "EndOfGame".to_string();
    assert_eq!(state.on_phase("Lobby", &settings), PhaseChange { changed: true, refresh_rank: false });
    assert!(!state.honored);
    assert!(!state.played_again);
    assert_eq!(state.queue_timer, None);
    assert_eq!(state.handled_actions.len(), 1);

    settings.spoof_rank = true;
    assert_eq!(state.on_phase("Lobby", &settings), PhaseChange { changed: false, refresh_rank: false });
    state.last_phase = "None".to_string();
    assert_eq!(state.on_phase("Lobby", &settings), PhaseChange { changed: true, refresh_rank: true });
}

#[test]
fn ballot_is_wanted_until_the_vote_is_skipped() {
    let mut settings = Settings::default();
    assert!(wants_ballot(&settings, false));
    assert!(!wants_ballot(&settings, true));
    settings.auto_honor = false;
    assert!(!wants_ballot(&settings, false));
}

#[test]
fn end_of_game_acts_once_per_match() {
    let settings = Settings::default();
    let mut honored = false;
    let mut played_again = false;
    assert_eq!(
        handle_end_of_game(&settings, false, &mut honored, &mut played_again),
        EndOfGameStep { skip_honor: false, play_again: true }
    );
    assert!(!honored);
    assert!(played_again);
    assert_eq!(
        handle_end_of_game(&settings, true, &mut honored, &mut played_again),
        EndOfGameStep { skip_honor: true, play_again: false }
    );
    assert!(honored);
    assert_eq!(
        handle_end_of_game(&settings, true, &mut honored, &mut played_again),
        EndOfGameStep { skip_honor: false, play_again: false }
    );
}

#[test]
fn end_of_game_follows_the_settings() {
    let mut settings = Settings::default();
    settings.auto_honor = false;
    settings.play_again = false;
    let mut honored = false;
    let mut played_again = false;
    assert_eq!(
        handle_end_of_game(&settings, true, &mut honored, &mut played_again),
        EndOfGameStep { skip_honor: false, play_again: false }
    );
    assert!(!honored);
    assert!(!played_again);
}

#[test]
fn lobby_waits_then_looks_at_the_search() {
    let mut settings = Settings::default();
    settings.auto_queue = true;
    let mut timer = None;
    assert_eq!(handle_lobby(&settings, &mut timer, 10_000), LobbyStep { announce: true, look_at_search: false });
    assert_eq!(timer, Some(10_000));
    assert_eq!(handle_lobby(&settings, &mut timer, 12_999), LobbyStep { announce: false, look_at_search: false });
    assert_eq!(timer, Some(10_000));
    assert_eq!(handle_lobby(&settings, &mut timer, 13_000), LobbyStep { announce: false, look_at_search: true });
    assert_eq!(timer, Some(13_000 + 9_999_000));
    assert_eq!(handle_lobby(&settings, &mut timer, 15_000), LobbyStep { announce: false, look_at_search: false });
    assert_eq!(timer, Some(13_000 + 9_999_000));
}

#[test]
fn lobby_without_delay_looks_at_once() {
    let mut settings = Settings::default();
    settings.auto_queue = true;
    settings.queue_delay = 0;
    let mut timer = None;
    assert_eq!(handle_lobby(&settings, &mut timer, 500), LobbyStep { announce: true, look_at_search: true });
    assert_eq!(timer, Some(500 + 9_999_000));
    assert_eq!(handle_lobby(&settings, &mut timer, 700), LobbyStep { announce: false, look_at_search: true });
}

#[test]
fn lobby_without_queueing_does_nothing() {
    let settings = Settings::default();
    let mut timer = None;
    assert_eq!(handle_lobby(&settings, &mut timer, 10_000), LobbyStep { announce: false, look_at_search: false });
    assert_eq!(timer, None);
    let mut set = Some(3);
    assert_eq!(handle_lobby(&settings, &mut set, 10_000_000), LobbyStep { announce: false, look_at_search: false });
    assert_eq!(set, Some(3));
}

#[test]
fn search_is_started_unless_running() {
    assert!(!wants_search("Searching"));
    assert!(wants_search("Invalid"));
    assert!(wants_search(""));
    assert!(wants_search("searching"));
}

#[test]
fn commands_need_a_connection_where_they_send() {
    assert_eq!(command_action(&BackendMsg::SwapChamp(5), true), CommandAction::Swap { champion_id: 5 });
    assert_eq!(command_action(&BackendMsg::SwapChamp(5), false), CommandAction::Nothing);
    assert_eq!(command_action(&BackendMsg::UpdateRank, true), CommandAction::RefreshRank);
    assert_eq!(command_action(&BackendMsg::UpdateRank, false), CommandAction::Nothing);
    assert_eq!(command_action(&BackendMsg::ForceReconnect, true), CommandAction::Reconnect);
    assert_eq!(command_action(&BackendMsg::ForceReconnect, false), CommandAction::Reconnect);
    let save = BackendMsg::SaveSettings(Settings::default());
    assert_eq!(command_action(&save, true), CommandAction::SaveSettings);
    assert_eq!(command_action(&save, false), CommandAction::SaveSettings);
}
