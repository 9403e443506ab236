//! The decisions of the polling loop around the negotiation: what each
//! phase of the game flow asks for, what a change of phase resets, and how
//! long to wait before the next poll.

use std::collections::HashMap;
use vstd::prelude::*;
use crate::models::{ActionState, BackendMsg, Settings};
use crate::text::str_eq;

verus! {

/// The phases of the game flow that the automation tells apart.
#[derive(Clone, Copy, Debug, PartialEq, Eq, Structural)]
pub enum GamePhase {
    Lobby,
    ReadyCheck,
    ChampSelect,
    PreEndOfGame,
    EndOfGame,
    WaitingForStats,
    /// Every other phase, known or not; nothing is automated in it.
    Other,
}

/// The wait between polls while a match is being accepted.
pub const READY_CHECK_INTERVAL_MS: u64 = 500;

/// The wait between polls during the negotiation: short, because a commit
/// is sent at the first poll at or after its due time.
pub const CHAMP_SELECT_INTERVAL_MS: u64 = 200;

/// The wait between polls otherwise.
pub const IDLE_INTERVAL_MS: u64 = 2000;

/// How long the queue timer is parked after a search was looked at.
pub const QUEUE_PARK_MS: u64 = 9_999_000;

/// The phase that a label names.
pub open spec fn spec_game_phase(label: Seq<char>) -> GamePhase {
    if label == "Lobby"@ {
        GamePhase::Lobby
    } else if label == "ReadyCheck"@ {
        GamePhase::ReadyCheck
    } else if label == "ChampSelect"@ {
        GamePhase::ChampSelect
    } else if label == "PreEndOfGame"@ {
        GamePhase::PreEndOfGame
    } else if label == "EndOfGame"@ {
        GamePhase::EndOfGame
    } else if label == "WaitingForStats"@ {
        GamePhase::WaitingForStats
    } else {
        GamePhase::Other
    }
}

/// The wait before the next poll, by phase.
pub open spec fn spec_poll_interval_ms(phase: GamePhase) -> u64 {
    match phase {
        GamePhase::ReadyCheck => READY_CHECK_INTERVAL_MS,
        GamePhase::ChampSelect => CHAMP_SELECT_INTERVAL_MS,
        _ => IDLE_INTERVAL_MS,
    }
}

/// The phase that the label `label` names.
pub fn game_phase_of(label: &str) -> (r: GamePhase)
    ensures
        r == spec_game_phase(label@),
{
    if str_eq(label, "Lobby") {
        GamePhase::Lobby
    } else if str_eq(label, "ReadyCheck") {
        GamePhase::ReadyCheck
    } else if str_eq(label, "ChampSelect") {
        GamePhase::ChampSelect
    } else if str_eq(label, "PreEndOfGame") {
        GamePhase::PreEndOfGame
    } else if str_eq(label, "EndOfGame") {
        GamePhase::EndOfGame
    } else if str_eq(label, "WaitingForStats") {
        GamePhase::WaitingForStats
    } else {
        GamePhase::Other
    }
}

/// The wait before the next poll in the phase `phase`.
pub fn poll_interval_ms(phase: GamePhase) -> (r: u64)
    ensures
        r == spec_poll_interval_ms(phase),
{
    match phase {
        GamePhase::ReadyCheck => READY_CHECK_INTERVAL_MS,
        GamePhase::ChampSelect => CHAMP_SELECT_INTERVAL_MS,
        _ => IDLE_INTERVAL_MS,
    }
}

/// What the loop remembers between polls.
pub struct BackendState {
    /// The label of the phase at the last poll.
    pub last_phase: String,
    /// The courtesy vote of this match has been dealt with.
    pub honored: bool,
    /// The return to the lobby has been asked for.
    pub played_again: bool,
    /// Since when the lobby waits for the queue, on the driver's clock.
    pub queue_timer: Option<u64>,
    /// The bench as last announced.
    pub last_bench_ids: Vec<i32>,
    /// The automation's state of each action seen in this negotiation.
    pub handled_actions: HashMap<i64, ActionState>,
}

/// What a change of phase asks of the driver.
#[derive(Clone, Copy, Debug, PartialEq, Eq)]
pub struct PhaseChange {
    /// The phase differs from that of the last poll; the driver announces
    /// it.
    pub changed: bool,
    /// The displayed rank is to be set anew.
    pub refresh_rank: bool,
}

impl BackendState {
    /// The state at start: nothing seen, nothing done.
    pub fn new() -> (r: BackendState)
        ensures
            r.last_phase@ == Seq::<char>::empty(),
            !r.honored,
            !r.played_again,
            r.queue_timer is None,
            r.last_bench_ids@ == Seq::<i32>::empty(),
            r.handled_actions@ == Map::<i64, ActionState>::empty(),
    {
        BackendState {
            last_phase: String::new(),
            honored: false,
            played_again: false,
            queue_timer: None,
            last_bench_ids: Vec::new(),
            handled_actions: HashMap::new(),
        }
    }

    /// A connection to the client was made: no phase has been seen on it,
    /// and nothing is remembered of earlier actions.
    pub fn on_connected(&mut self)
        ensures
            final(self).last_phase@ == "None"@,
            final(self).handled_actions@ == Map::<i64, ActionState>::empty(),
            final(self).honored == old(self).honored,
            final(self).played_again == old(self).played_again,
            final(self).queue_timer == old(self).queue_timer,
            final(self).last_bench_ids == old(self).last_bench_ids,
    {
        self.last_phase = "None".to_string();
        self.handled_actions.clear();
    }

    /// The phase `label` was read. Where it differs from that of the last
    /// poll it is remembered; entering the negotiation forgets all actions,
    /// and entering the lobby forgets what was done after the last match.
    /// A poll within a phase changes nothing.
    pub fn on_phase(&mut self, label: &str, settings: &Settings) -> (r: PhaseChange)
        ensures
            r.changed == (label@ != old(self).last_phase@),
            r.refresh_rank == (r.changed && spec_game_phase(label@) == GamePhase::Lobby && settings.spoof_rank),
            final(self).last_phase@ == label@,
            final(self).last_bench_ids == old(self).last_bench_ids,
            final(self).handled_actions@ == if r.changed && spec_game_phase(label@) == GamePhase::ChampSelect {
                Map::<i64, ActionState>::empty()
            } else {
                old(self).handled_actions@
            },
            r.changed && spec_game_phase(label@) == GamePhase::Lobby ==> {
                &&& !final(self).honored
                &&& !final(self).played_again
                &&& final(self).queue_timer is None
            },
            !(r.changed && spec_game_phase(label@) == GamePhase::Lobby) ==> {
                &&& final(self).honored == old(self).honored
                &&& final(self).played_again == old(self).played_again
                &&& final(self).queue_timer == old(self).queue_timer
            },
    {
        if str_eq(label, self.last_phase.as_str()) {
            return PhaseChange { changed: false, refresh_rank: false };
        }
        self.last_phase = label.to_string();
        let phase = game_phase_of(label);
        let mut refresh_rank = false;
        match phase {
            GamePhase::ChampSelect => {
                self.handled_actions.clear();
            },
            GamePhase::Lobby => {
                self.honored = false;
                self.played_again = false;
                self.queue_timer = None;
                refresh_rank = settings.spoof_rank;
            },
            _ => {},
        }
        PhaseChange { changed: true, refresh_rank }
    }
}

/// Whether the ballot of the match is to be read: while the vote is to be
/// skipped and has not been dealt with.
pub fn wants_ballot(settings: &Settings, honored: bool) -> (r: bool)
    ensures
        r == (settings.auto_honor && !honored),
{
    settings.auto_honor && !honored
}

/// What one poll after a match asks for.
#[derive(Clone, Copy, Debug, PartialEq, Eq)]
pub struct EndOfGameStep {
    /// Skip the courtesy vote.
    pub skip_honor: bool,
    /// Return to the lobby.
    pub play_again: bool,
}

/// One poll after a match. `ballot_names_game` says whether the ballot was
/// read and names a game. The vote is skipped once per match, and the
/// return to the lobby is asked for once per match.
pub fn handle_end_of_game(
    settings: &Settings,
    ballot_names_game: bool,
    honored: &mut bool,
    played_again: &mut bool,
) -> (r: EndOfGameStep)
    ensures
        r.skip_honor == (settings.auto_honor && !*old(honored) && ballot_names_game),
        r.play_again == (settings.play_again && !*old(played_again)),
        *final(honored) == (*old(honored) || r.skip_honor),
        *final(played_again) == (*old(played_again) || r.play_again),
{
    let skip_honor = settings.auto_honor && !*honored && ballot_names_game;
    if skip_honor {
        *honored = true;
    }
    let play_again = settings.play_again && !*played_again;
    if play_again {
        *played_again = true;
    }
    EndOfGameStep { skip_honor, play_again }
}

/// Whether a match that was found is accepted.
pub fn handle_ready_check(settings: &Settings) -> (accept: bool)
    ensures
        accept == settings.auto_accept,
{
    settings.auto_accept
}

/// What one poll in the lobby asks for.
#[derive(Clone, Copy, Debug, PartialEq, Eq)]
pub struct LobbyStep {
    /// The wait for the queue has just begun; the driver announces it.
    pub announce: bool,
    /// The wait is over: the driver reads the search state and starts the
    /// search unless one is running.
    pub look_at_search: bool,
}

/// The whole seconds from `since` to `now`; none when `since` is still to
/// come.
pub open spec fn spec_elapsed_s(since: u64, now_ms: u64) -> int {
    if now_ms >= since {
        (now_ms - since) / 1000
    } else {
        0
    }
}

/// The timer while the lobby waits: as it is, or started now.
pub open spec fn spec_running_timer(timer: Option<u64>, now_ms: u64) -> u64 {
    match timer {
        Some(since) => since,
        None => now_ms,
    }
}

/// One poll in the lobby. With queueing enabled, the wait begins at the
/// first poll; when it has lasted the configured delay, the search is
/// looked at and the timer is parked far in the future.
pub open spec fn spec_lobby(settings: Settings, timer: Option<u64>, now_ms: u64) -> (LobbyStep, Option<u64>) {
    if !settings.auto_queue {
        (LobbyStep { announce: false, look_at_search: false }, timer)
    } else {
        let since = spec_running_timer(timer, now_ms);
        let due = spec_elapsed_s(since, now_ms) >= settings.queue_delay;
        (
            LobbyStep { announce: timer is None, look_at_search: due },
            if due {
                Some((now_ms + QUEUE_PARK_MS) as u64)
            } else {
                Some(since)
            },
        )
    }
}

/// One poll in the lobby at `now_ms` on the driver's clock.
pub fn handle_lobby(settings: &Settings, queue_timer: &mut Option<u64>, now_ms: u64) -> (r: LobbyStep)
    requires
        now_ms + QUEUE_PARK_MS <= u64::MAX,
    ensures
        (r, *final(queue_timer)) == spec_lobby(*settings, *old(queue_timer), now_ms),
{
    if !settings.auto_queue {
        return LobbyStep { announce: false, look_at_search: false };
    }
    let announce = queue_timer.is_none();
    let since = match *queue_timer {
        Some(since) => since,
        None => now_ms,
    };
    let elapsed_s = if now_ms >= since {
        (now_ms - since) / 1000
    } else {
        0
    };
    let due = elapsed_s >= settings.queue_delay;
    if due {
        *queue_timer = Some(now_ms + QUEUE_PARK_MS);
    } else {
        *queue_timer = Some(since);
    }
    LobbyStep { announce, look_at_search: due }
}

/// Whether a search is to be started, given the search state that was
/// read: unless one is running.
pub fn wants_search(search_state: &str) -> (r: bool)
    ensures
        r == (search_state@ != "Searching"@),
{
    !str_eq(search_state, "Searching")
}

/// What a message from the presentation surface asks of the loop.
#[derive(Clone, Copy, Debug, PartialEq, Eq)]
pub enum CommandAction {
    /// Take the new settings and store them.
    SaveSettings,
    /// Claim this character from the bench.
    Swap { champion_id: i32 },
    /// Set the displayed rank.
    RefreshRank,
    /// Drop the connection and look for the client again.
    Reconnect,
    /// Nothing: the message needs a connection and there is none.
    Nothing,
}

/// What a message asks of the loop; a message that sends something asks
/// for nothing while there is no connection.
pub open spec fn spec_command(message: BackendMsg, connected: bool) -> CommandAction {
    match message {
        BackendMsg::SaveSettings(_) => CommandAction::SaveSettings,
        BackendMsg::SwapChamp(id) => if connected {
            CommandAction::Swap { champion_id: id }
        } else {
            CommandAction::Nothing
        },
        BackendMsg::UpdateRank => if connected {
            CommandAction::RefreshRank
        } else {
            CommandAction::Nothing
        },
        BackendMsg::ForceReconnect => CommandAction::Reconnect,
    }
}

/// What the message `message` asks of the loop.
pub fn command_action(message: &BackendMsg, connected: bool) -> (r: CommandAction)
    ensures
        r == spec_command(*message, connected),
{
    match message {
        BackendMsg::SaveSettings(_) => CommandAction::SaveSettings,
        BackendMsg::SwapChamp(id) => if connected {
            CommandAction::Swap { champion_id: *id }
        } else {
            CommandAction::Nothing
        },
        BackendMsg::UpdateRank => if connected {
            CommandAction::RefreshRank
        } else {
            CommandAction::Nothing
        },
        BackendMsg::ForceReconnect => CommandAction::Reconnect,
    }
}

} // verus!
