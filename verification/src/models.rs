//! The plain data that the automation works on: configuration, the messages
//! exchanged with the presentation surface, the character registry's entries
//! and the per-action automation state.

use vstd::prelude::*;

verus! {

/// The character id that stands for "none".
pub const NO_CHAMPION: i32 = 0;

/// A lane assignment. `Unassigned` covers every label that is not one of the
/// five known keys, so that an unknown position simply has no presets.
#[derive(Clone, Copy, Debug, PartialEq, Eq, Structural)]
pub enum Position {
    Top,
    Jungle,
    Middle,
    Bottom,
    Utility,
    Unassigned,
}

/// One preset character per position; `NO_CHAMPION` where nothing is set.
#[derive(Clone, Copy, Debug, PartialEq, Eq)]
pub struct PositionPresets {
    pub top: i32,
    pub jungle: i32,
    pub middle: i32,
    pub bottom: i32,
    pub utility: i32,
}

impl PositionPresets {
    /// The preset of `pos`; an unassigned position has none.
    pub open spec fn spec_get(&self, pos: Position) -> i32 {
        match pos {
            Position::Top => self.top,
            Position::Jungle => self.jungle,
            Position::Middle => self.middle,
            Position::Bottom => self.bottom,
            Position::Utility => self.utility,
            Position::Unassigned => NO_CHAMPION,
        }
    }

    /// The five presets in the order of their position keys
    /// (bottom, jungle, middle, top, utility).
    pub open spec fn in_key_order(self) -> Seq<i32> {
        seq![self.bottom, self.jungle, self.middle, self.top, self.utility]
    }

    /// Presets with nothing set.
    pub fn new() -> (r: PositionPresets)
        ensures
            forall|pos: Position| r.spec_get(pos) == NO_CHAMPION,
    {
        PositionPresets { top: 0, jungle: 0, middle: 0, bottom: 0, utility: 0 }
    }

    #[verifier::when_used_as_spec(spec_get)]
    pub fn get(&self, pos: Position) -> (r: i32)
        ensures
            r == self.spec_get(pos),
    {
        match pos {
            Position::Top => self.top,
            Position::Jungle => self.jungle,
            Position::Middle => self.middle,
            Position::Bottom => self.bottom,
            Position::Utility => self.utility,
            Position::Unassigned => NO_CHAMPION,
        }
    }

    /// Sets the preset of `pos`. An unassigned position cannot hold one, so
    /// for it nothing changes.
    pub fn set(&mut self, pos: Position, id: i32)
        ensures
            pos != Position::Unassigned ==> final(self).spec_get(pos) == id,
            pos == Position::Unassigned ==> *final(self) == *old(self),
            forall|other: Position| other != pos ==> final(self).spec_get(other) == old(self).spec_get(other),
    {
        match pos {
            Position::Top => { self.top = id; }
            Position::Jungle => { self.jungle = id; }
            Position::Middle => { self.middle = id; }
            Position::Bottom => { self.bottom = id; }
            Position::Utility => { self.utility = id; }
            Position::Unassigned => {}
        }
    }

    /// The five presets as a list, in the order of their position keys.
    pub fn values(&self) -> (r: Vec<i32>)
        ensures
            r@ == self.in_key_order(),
    {
        let mut out: Vec<i32> = Vec::new();
        out.push(self.bottom);
        out.push(self.jungle);
        out.push(self.middle);
        out.push(self.top);
        out.push(self.utility);
        assert(out@ =~= self.in_key_order());
        out
    }
}

/// The user's configuration. The automation only reads it.
#[derive(Clone, Debug)]
pub struct Settings {
    pub auto_accept: bool,
    pub auto_honor: bool,
    pub play_again: bool,
    pub auto_queue: bool,
    /// Seconds to stay in the lobby before a queue search is started.
    pub queue_delay: u64,
    pub spoof_rank: bool,
    pub spoof_tier: String,
    pub spoof_div: String,
    /// Whether bench claims are made at all.
    pub aram_snipe: bool,
    /// The characters wanted from the bench, most wanted first.
    pub snipe_list: Vec<i32>,
    /// Whether pick previews are sent.
    pub sr_enable: bool,
    /// Whether ban actions are automated at all.
    pub sr_ban_enable: bool,
    /// Whether picks are committed automatically.
    pub auto_lock: bool,
    /// Whether bans are committed automatically.
    pub auto_ban_lock: bool,
    /// Seconds before the end of the phase at which a pick is committed.
    pub lock_time: u64,
    /// Seconds before the end of the phase at which a ban is committed.
    pub ban_time: u64,
    pub sr_picks: PositionPresets,
    pub sr_bans: PositionPresets,
}

impl Default for Settings {
    fn default() -> (r: Settings)
        ensures
            r.auto_accept,
            r.auto_honor,
            r.play_again,
            !r.auto_queue,
            r.queue_delay == 3,
            !r.spoof_rank,
            r.spoof_tier@ == "CHALLENGER"@,
            r.spoof_div@ == "I"@,
            r.aram_snipe,
            r.snipe_list@ == Seq::<i32>::empty(),
            r.sr_enable,
            r.sr_ban_enable,
            !r.auto_lock,
            r.auto_ban_lock,
            r.lock_time == 3,
            r.ban_time == 2,
            forall|pos: Position| r.sr_picks.spec_get(pos) == NO_CHAMPION,
            forall|pos: Position| r.sr_bans.spec_get(pos) == NO_CHAMPION,
    {
        Settings {
            auto_accept: true,
            auto_honor: true,
            play_again: true,
            auto_queue: false,
            queue_delay: 3,
            spoof_rank: false,
            spoof_tier: "CHALLENGER".to_string(),
            spoof_div: "I".to_string(),
            aram_snipe: true,
            snipe_list: Vec::new(),
            sr_enable: true,
            sr_ban_enable: true,
            auto_lock: false,
            auto_ban_lock: true,
            lock_time: 3,
            ban_time: 2,
            sr_picks: PositionPresets::new(),
            sr_bans: PositionPresets::new(),
        }
    }
}

/// Where the local game client listens, and how to authenticate to it.
#[derive(Clone, Debug)]
pub struct LcuConnection {
    pub url: String,
    pub auth_header: String,
}

/// What the automation tells the presentation surface.
#[derive(Clone, Debug)]
pub enum GuiMsg {
    Log(String),
    Status(bool),
    BenchUpdate(Vec<i32>),
    LoadedData(String),
}

/// What the presentation surface asks of the automation.
#[derive(Clone, Debug)]
pub enum BackendMsg {
    SwapChamp(i32),
    SaveSettings(Settings),
    UpdateRank,
    ForceReconnect,
}

/// One entry of the character registry.
#[derive(Debug)]
pub struct Hero {
    pub id: i32,
    /// The display name.
    pub name: String,
    /// Lower-case search text: name, title and key, separated by blanks.
    pub alias: String,
    pub image_name: String,
}

/// A registry entry as a mathematical value.
pub struct HeroView {
    pub id: i32,
    pub name: Seq<char>,
    pub alias: Seq<char>,
    pub image_name: Seq<char>,
}

impl View for Hero {
    type V = HeroView;

    open spec fn view(&self) -> HeroView {
        HeroView { id: self.id, name: self.name@, alias: self.alias@, image_name: self.image_name@ }
    }
}

impl Clone for Hero {
    fn clone(&self) -> (r: Hero)
        ensures
            r@ == self@,
    {
        Hero {
            id: self.id,
            name: self.name.clone(),
            alias: self.alias.clone(),
            image_name: self.image_name.clone(),
        }
    }
}

/// What the automation remembers of one action between polls. Times are
/// milliseconds on the caller's monotonic clock.
#[derive(Clone, Copy, Debug, PartialEq, Eq)]
pub struct ActionState {
    /// A preview has been sent at least once.
    pub hovered: bool,
    /// Terminal: no further automation for this action.
    pub completed: bool,
    /// When the last preview was sent.
    pub last_act_time: Option<u64>,
    /// When the commit is due; `None` while no commit is scheduled.
    pub lock_scheduled_at: Option<u64>,
}

impl ActionState {
    /// A completed action never carries a schedule.
    pub open spec fn wf(self) -> bool {
        self.completed ==> self.lock_scheduled_at is None
    }

    /// The state of an action that has not been seen before.
    pub open spec fn fresh() -> ActionState {
        ActionState { hovered: false, completed: false, last_act_time: None, lock_scheduled_at: None }
    }
}

impl Default for ActionState {
    fn default() -> (r: ActionState)
        ensures
            r == ActionState::fresh(),
            r.wf(),
    {
        ActionState { hovered: false, completed: false, last_act_time: None, lock_scheduled_at: None }
    }
}

} // verus!
