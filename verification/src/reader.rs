//! The session snapshot reader: turns one polled session document into
//! typed facts. Nothing that is missing or malformed makes it fail; each
//! such field gets its default.

use vstd::prelude::*;
use crate::json::{as_array, as_bool, as_i64, as_str, as_truncated, json_of, member, spec_values, Json};
use crate::models::{Position, NO_CHAMPION};
use crate::session::{
    ActionKind, PendingAction, SessionSnapshot, TeamMember, TimerPhase, NO_ACTOR_CELL, NO_LOCAL_CELL,
    NO_MEMBER_CELL, UNKNOWN_TIME_LEFT_MS,
};
use crate::text::{spec_lowercase, str_eq, to_lowercase};

verus! {

/// The integer in `field`, or `default`.
pub open spec fn spec_i64_or(field: Option<Json>, default: i64) -> i64 {
    match field {
        Some(value) => match value.as_i64() {
            Some(number) => number,
            None => default,
        },
        None => default,
    }
}

/// The truth value in `field`, or `false`.
pub open spec fn spec_flag(field: Option<Json>) -> bool {
    match field {
        Some(value) => match value.as_bool() {
            Some(flag) => flag,
            None => false,
        },
        None => false,
    }
}

/// The text in `field`, or the empty text.
pub open spec fn spec_text(field: Option<Json>) -> Seq<char> {
    match field {
        Some(value) => match value.as_text() {
            Some(text) => text,
            None => Seq::empty(),
        },
        None => Seq::empty(),
    }
}

/// A character id as the session writes it; one that is no `i32` names no
/// character.
pub open spec fn spec_champion(number: i64) -> i32 {
    if i32::MIN <= number <= i32::MAX {
        number as i32
    } else {
        NO_CHAMPION
    }
}

/// The position that a label names, whatever the case of its letters.
pub open spec fn spec_position(label: Seq<char>) -> Position {
    spec_position_of_key(spec_lowercase(label))
}

/// The position of a position key.
pub open spec fn spec_position_of_key(key: Seq<char>) -> Position {
    if key == "top"@ {
        Position::Top
    } else if key == "jungle"@ {
        Position::Jungle
    } else if key == "middle"@ {
        Position::Middle
    } else if key == "bottom"@ {
        Position::Bottom
    } else if key == "utility"@ {
        Position::Utility
    } else {
        Position::Unassigned
    }
}

/// The kind that an action's type label names.
pub open spec fn spec_kind(label: Seq<char>) -> ActionKind {
    if label == "ban"@ {
        ActionKind::Ban
    } else if label == "pick"@ {
        ActionKind::Pick
    } else {
        ActionKind::Other
    }
}

/// The sub-phase that a timer's phase label names.
pub open spec fn spec_phase(label: Seq<char>) -> TimerPhase {
    if label == "PLANNING"@ {
        TimerPhase::Planning
    } else {
        TimerPhase::Other
    }
}

/// A roster entry.
pub open spec fn spec_read_member(entry: Json) -> TeamMember {
    TeamMember {
        cell_id: spec_i64_or(entry.member("cellId"@), NO_MEMBER_CELL),
        position: spec_position(spec_text(entry.member("assignedPosition"@))),
        pick_intent: spec_champion(spec_i64_or(entry.member("championPickIntent"@), 0)),
        champion_id: spec_champion(spec_i64_or(entry.member("championId"@), 0)),
    }
}

/// An action.
pub open spec fn spec_read_action(entry: Json) -> PendingAction {
    PendingAction {
        id: spec_i64_or(entry.member("id"@), 0),
        actor_cell_id: spec_i64_or(entry.member("actorCellId"@), NO_ACTOR_CELL),
        kind: spec_kind(spec_text(entry.member("type"@))),
        is_in_progress: spec_flag(entry.member("isInProgress"@)),
        completed: spec_flag(entry.member("completed"@)),
        champion_id: spec_champion(spec_i64_or(entry.member("championId"@), 0)),
    }
}

/// The items of `field` where it is an array, none otherwise.
pub open spec fn spec_items(field: Option<Json>) -> Seq<Json> {
    match field {
        Some(value) => match value.as_array() {
            Some(items) => items,
            None => Seq::empty(),
        },
        None => Seq::empty(),
    }
}

/// The roster: the entries of `myTeam`, in order.
pub open spec fn spec_read_team(session: Json) -> Seq<TeamMember> {
    spec_items(session.member("myTeam"@)).map_values(|entry: Json| spec_read_member(entry))
}

/// The actions of one group; a group that is no array has none.
pub open spec fn spec_read_group(group: Json) -> Seq<PendingAction> {
    spec_items(Some(group)).map_values(|entry: Json| spec_read_action(entry))
}

/// The actions of the groups, one group after the other.
pub open spec fn spec_read_groups(groups: Seq<Json>) -> Seq<PendingAction>
    decreases groups.len(),
{
    if groups.len() == 0 {
        Seq::empty()
    } else {
        spec_read_groups(groups.drop_last()) + spec_read_group(groups.last())
    }
}

/// The pending actions: those of all groups of `actions`, in order.
pub open spec fn spec_read_actions(session: Json) -> Seq<PendingAction> {
    spec_read_groups(spec_items(session.member("actions"@)))
}

/// The character of a bench entry, where it carries one.
pub open spec fn spec_read_bench_entry(entry: Json) -> Option<i32> {
    match entry.member("championId"@) {
        Some(value) => match value.as_i64() {
            Some(number) => if i32::MIN <= number <= i32::MAX {
                Some(number as i32)
            } else {
                None
            },
            None => None,
        },
        None => None,
    }
}

/// The characters of the bench entries that carry one, in order.
pub open spec fn spec_read_bench_entries(entries: Seq<Json>) -> Seq<i32>
    decreases entries.len(),
{
    if entries.len() == 0 {
        Seq::empty()
    } else {
        let before = spec_read_bench_entries(entries.drop_last());
        match spec_read_bench_entry(entries.last()) {
            Some(id) => before.push(id),
            None => before,
        }
    }
}

/// The bench: `None` where `benchChampions` is missing or no array.
pub open spec fn spec_read_bench(session: Json) -> Option<Seq<i32>> {
    match session.member("benchChampions"@) {
        Some(value) => match value.as_array() {
            Some(entries) => Some(spec_read_bench_entries(entries)),
            None => None,
        },
        None => None,
    }
}

/// The time left in the phase, in milliseconds.
pub open spec fn spec_read_time_left(session: Json) -> i64 {
    match session.member("timer"@) {
        Some(timer) => match timer.member("adjustedTimeLeftInPhase"@) {
            Some(value) => match value.as_truncated() {
                Some(ms) => ms,
                None => UNKNOWN_TIME_LEFT_MS,
            },
            None => UNKNOWN_TIME_LEFT_MS,
        },
        None => UNKNOWN_TIME_LEFT_MS,
    }
}

/// The sub-phase.
pub open spec fn spec_read_phase(session: Json) -> TimerPhase {
    match session.member("timer"@) {
        Some(timer) => spec_phase(spec_text(timer.member("phase"@))),
        None => spec_phase(Seq::empty()),
    }
}

/// Whether `snapshot` holds the facts of the session document `session`.
pub open spec fn spec_is_snapshot_of(snapshot: SessionSnapshot, session: Json) -> bool {
    &&& snapshot.local_cell_id == spec_i64_or(session.member("localPlayerCellId"@), NO_LOCAL_CELL)
    &&& snapshot.bench_enabled == spec_flag(session.member("benchEnabled"@))
    &&& snapshot.phase == spec_read_phase(session)
    &&& snapshot.time_left_ms == spec_read_time_left(session)
    &&& snapshot.team@ == spec_read_team(session)
    &&& snapshot.actions@ == spec_read_actions(session)
    &&& match snapshot.bench {
        Some(bench) => spec_read_bench(session) == Some(bench@),
        None => spec_read_bench(session) is None,
    }
}

/// A character id as the session writes it.
pub fn champion_of(number: i64) -> (r: i32)
    ensures
        r == spec_champion(number),
{
    if number >= i32::MIN as i64 && number <= i32::MAX as i64 {
        number as i32
    } else {
        NO_CHAMPION
    }
}

/// The position of a position key.
pub fn position_of_key(key: &str) -> (r: Position)
    ensures
        r == spec_position_of_key(key@),
{
    if str_eq(key, "top") {
        Position::Top
    } else if str_eq(key, "jungle") {
        Position::Jungle
    } else if str_eq(key, "middle") {
        Position::Middle
    } else if str_eq(key, "bottom") {
        Position::Bottom
    } else if str_eq(key, "utility") {
        Position::Utility
    } else {
        Position::Unassigned
    }
}

/// The position that a label names, whatever the case of its letters.
pub fn position_of_label(label: &str) -> (r: Position)
    ensures
        r == spec_position(label@),
{
    let key = to_lowercase(label);
    position_of_key(key.as_str())
}

/// The kind that an action's type label names.
pub fn kind_of_label(label: &str) -> (r: ActionKind)
    ensures
        r == spec_kind(label@),
{
    if str_eq(label, "ban") {
        ActionKind::Ban
    } else if str_eq(label, "pick") {
        ActionKind::Pick
    } else {
        ActionKind::Other
    }
}

/// The sub-phase that a timer's phase label names.
pub fn phase_of_label(label: &str) -> (r: TimerPhase)
    ensures
        r == spec_phase(label@),
{
    if str_eq(label, "PLANNING") {
        TimerPhase::Planning
    } else {
        TimerPhase::Other
    }
}

/// The integer member `key` of `v`, or `default`.
pub fn read_i64(v: &serde_json::Value, key: &str, default: i64) -> (r: i64)
    ensures
        r == spec_i64_or(json_of(*v).member(key@), default),
{
    match member(v, key) {
        Some(value) => match as_i64(value) {
            Some(number) => number,
            None => default,
        },
        None => default,
    }
}

/// The truth value member `key` of `v`, or `false`.
pub fn read_flag(v: &serde_json::Value, key: &str) -> (r: bool)
    ensures
        r == spec_flag(json_of(*v).member(key@)),
{
    match member(v, key) {
        Some(value) => match as_bool(value) {
            Some(flag) => flag,
            None => false,
        },
        None => false,
    }
}

/// The text member `key` of `v`, or the empty text.
pub fn read_text<'a>(v: &'a serde_json::Value, key: &str) -> (r: &'a str)
    ensures
        r@ == spec_text(json_of(*v).member(key@)),
{
    proof {
        reveal_strlit("");
    }
    match member(v, key) {
        Some(value) => match as_str(value) {
            Some(text) => text,
            None => "",
        },
        None => "",
    }
}

/// Reads one roster entry.
pub fn read_member(entry: &serde_json::Value) -> (r: TeamMember)
    ensures
        r == spec_read_member(json_of(*entry)),
{
    TeamMember {
        cell_id: read_i64(entry, "cellId", NO_MEMBER_CELL),
        position: position_of_label(read_text(entry, "assignedPosition")),
        pick_intent: champion_of(read_i64(entry, "championPickIntent", 0)),
        champion_id: champion_of(read_i64(entry, "championId", 0)),
    }
}

/// Reads one action.
pub fn read_action(entry: &serde_json::Value) -> (r: PendingAction)
    ensures
        r == spec_read_action(json_of(*entry)),
{
    PendingAction {
        id: read_i64(entry, "id", 0),
        actor_cell_id: read_i64(entry, "actorCellId", NO_ACTOR_CELL),
        kind: kind_of_label(read_text(entry, "type")),
        is_in_progress: read_flag(entry, "isInProgress"),
        completed: read_flag(entry, "completed"),
        champion_id: champion_of(read_i64(entry, "championId", 0)),
    }
}

/// Reads the roster.
pub fn read_team(session: &serde_json::Value) -> (r: Vec<TeamMember>)
    ensures
        r@ == spec_read_team(json_of(*session)),
{
    let mut team: Vec<TeamMember> = Vec::new();
    if let Some(field) = member(session, "myTeam") {
        if let Some(entries) = as_array(field) {
            let mut i: usize = 0;
            while i < entries.len()
                invariant
                    i <= entries.len(),
                    spec_items(json_of(*session).member("myTeam"@)) == spec_values(entries@),
                    team@ == spec_values(entries@).map_values(|entry: Json| spec_read_member(entry)).take(
                        i as int,
                    ),
                decreases entries.len() - i,
            {
                team.push(read_member(&entries[i]));
                i = i + 1;
            }
        }
    }
    team
}

/// Appends the actions of one group.
fn read_group(group: &serde_json::Value, actions: &mut Vec<PendingAction>)
    ensures
        final(actions)@ == old(actions)@ + spec_read_group(json_of(*group)),
{
    if let Some(entries) = as_array(group) {
        let mut i: usize = 0;
        while i < entries.len()
            invariant
                i <= entries.len(),
                spec_items(Some(json_of(*group))) == spec_values(entries@),
                actions@ == old(actions)@ + spec_values(entries@).map_values(
                    |entry: Json| spec_read_action(entry),
                ).take(i as int),
            decreases entries.len() - i,
        {
            actions.push(read_action(&entries[i]));
            i = i + 1;
        }
    }
}

/// Reads the pending actions.
pub fn read_actions(session: &serde_json::Value) -> (r: Vec<PendingAction>)
    ensures
        r@ == spec_read_actions(json_of(*session)),
{
    let mut actions: Vec<PendingAction> = Vec::new();
    if let Some(field) = member(session, "actions") {
        if let Some(groups) = as_array(field) {
            let mut i: usize = 0;
            while i < groups.len()
                invariant
                    i <= groups.len(),
                    spec_items(json_of(*session).member("actions"@)) == spec_values(groups@),
                    actions@ == spec_read_groups(spec_values(groups@).take(i as int)),
                decreases groups.len() - i,
            {
                assert(spec_values(groups@).take(i + 1).drop_last() =~= spec_values(groups@).take(i as int));
                read_group(&groups[i], &mut actions);
                i = i + 1;
            }
            assert(spec_values(groups@).take(i as int) =~= spec_values(groups@));
        }
    }
    actions
}

/// Reads the bench.
pub fn read_bench(session: &serde_json::Value) -> (r: Option<Vec<i32>>)
    ensures
        match r {
            Some(bench) => spec_read_bench(json_of(*session)) == Some(bench@),
            None => spec_read_bench(json_of(*session)) is None,
        },
{
    match member(session, "benchChampions") {
        Some(field) => match as_array(field) {
            Some(entries) => {
                let mut bench: Vec<i32> = Vec::new();
                let mut i: usize = 0;
                while i < entries.len()
                    invariant
                        i <= entries.len(),
                        bench@ == spec_read_bench_entries(spec_values(entries@).take(i as int)),
                    decreases entries.len() - i,
                {
                    assert(spec_values(entries@).take(i + 1).drop_last() =~= spec_values(entries@).take(
                        i as int,
                    ));
                    if let Some(value) = member(&entries[i], "championId") {
                        if let Some(number) = as_i64(value) {
                            if number >= i32::MIN as i64 && number <= i32::MAX as i64 {
                                bench.push(number as i32);
                            }
                        }
                    }
                    i = i + 1;
                }
                assert(spec_values(entries@).take(i as int) =~= spec_values(entries@));
                Some(bench)
            },
            None => None,
        },
        None => None,
    }
}

/// Reads the time left in the phase.
pub fn read_time_left(session: &serde_json::Value) -> (r: i64)
    ensures
        r == spec_read_time_left(json_of(*session)),
{
    match member(session, "timer") {
        Some(timer) => match member(timer, "adjustedTimeLeftInPhase") {
            Some(value) => match as_truncated(value) {
                Some(ms) => ms,
                None => UNKNOWN_TIME_LEFT_MS,
            },
            None => UNKNOWN_TIME_LEFT_MS,
        },
        None => UNKNOWN_TIME_LEFT_MS,
    }
}

/// Reads the sub-phase.
pub fn read_phase(session: &serde_json::Value) -> (r: TimerPhase)
    ensures
        r == spec_read_phase(json_of(*session)),
{
    proof {
        reveal_strlit("");
        assert(""@ =~= Seq::<char>::empty());
    }
    match member(session, "timer") {
        Some(timer) => phase_of_label(read_text(timer, "phase")),
        None => phase_of_label(""),
    }
}

/// Reads a session document. It never fails: what is missing or malformed
/// is read as its default.
pub fn read_session(session: &serde_json::Value) -> (r: SessionSnapshot)
    ensures
        spec_is_snapshot_of(r, json_of(*session)),
{
    SessionSnapshot {
        local_cell_id: read_i64(session, "localPlayerCellId", NO_LOCAL_CELL),
        bench_enabled: read_flag(session, "benchEnabled"),
        phase: read_phase(session),
        time_left_ms: read_time_left(session),
        team: read_team(session),
        bench: read_bench(session),
        actions: read_actions(session),
    }
}

/// Nothing in a document is needed: of a document without any of the
/// members that are read, every fact is its default. The local participant
/// is then unknown, so that a poll of such a snapshot does nothing.
pub proof fn lemma_missing_fields_read_as_defaults(snapshot: SessionSnapshot, session: Json)
    requires
        spec_is_snapshot_of(snapshot, session),
        forall|key: Seq<char>| session.member(key) is None,
    ensures
        snapshot.local_cell_id == NO_LOCAL_CELL,
        !snapshot.bench_enabled,
        snapshot.phase == TimerPhase::Other,
        snapshot.time_left_ms == UNKNOWN_TIME_LEFT_MS,
        snapshot.team@.len() == 0,
        snapshot.actions@.len() == 0,
        snapshot.bench is None,
{
    reveal_strlit("PLANNING");
    assert("PLANNING"@.len() != Seq::<char>::empty().len());
    assert(session.member("localPlayerCellId"@) is None);
    assert(session.member("benchEnabled"@) is None);
    assert(session.member("timer"@) is None);
    assert(session.member("myTeam"@) is None);
    assert(session.member("actions"@) is None);
    assert(session.member("benchChampions"@) is None);
}

} // verus!
