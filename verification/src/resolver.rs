//! The target resolver: which character a ban or pick action should take,
//! given the presets and what teammates declared to want.

use vstd::prelude::*;
use vstd::arithmetic::div_mod::lemma_fundamental_div_mod_converse;
use crate::models::{Position, PositionPresets, NO_CHAMPION};

verus! {

/// A preset conflicts when it names a character that a teammate wants.
pub open spec fn conflicts(preset: i32, intents: Seq<i32>) -> bool {
    preset != NO_CHAMPION && intents.contains(preset)
}

/// A preset can stand in for a conflicting one when it names a character
/// that no teammate wants.
pub open spec fn eligible(id: i32, intents: Seq<i32>) -> bool {
    id != NO_CHAMPION && !intents.contains(id)
}

/// The ban presets that can stand in for a conflicting one, in the order of
/// their position keys.
pub open spec fn spec_substitute_pool(bans: PositionPresets, intents: Seq<i32>) -> Seq<i32> {
    bans.in_key_order().filter(|id: i32| eligible(id, intents))
}

/// The pool entry that an action takes: the one at `action_id` modulo the
/// pool's size, so that one action always takes the same entry. From an
/// empty pool nothing is taken.
pub open spec fn spec_substitute(pool: Seq<i32>, action_id: i64) -> i32 {
    if pool.len() == 0 {
        NO_CHAMPION
    } else {
        pool[action_id as int % pool.len() as int]
    }
}

/// The effective ban target: the preset of the position, unless a teammate
/// wants that character; then the substitute.
pub open spec fn spec_ban_target(
    position: Position,
    bans: PositionPresets,
    intents: Seq<i32>,
    action_id: i64,
) -> i32 {
    let preset = bans.spec_get(position);
    if conflicts(preset, intents) {
        spec_substitute(spec_substitute_pool(bans, intents), action_id)
    } else {
        preset
    }
}

/// The effective pick target: the preset of the position. Teammates'
/// intentions never change it.
pub open spec fn spec_pick_target(position: Position, picks: PositionPresets) -> i32 {
    picks.spec_get(position)
}

/// Whether `id` occurs in `list`.
pub fn contains_id(list: &Vec<i32>, id: i32) -> (r: bool)
    ensures
        r == list@.contains(id),
{
    let mut i: usize = 0;
    while i < list.len()
        invariant
            i <= list.len(),
            forall|j: int| 0 <= j < i ==> list[j] != id,
        decreases list.len() - i,
    {
        if list[i] == id {
            return true;
        }
        i = i + 1;
    }
    false
}

/// The ban presets that can stand in for a conflicting one.
pub fn substitute_pool(bans: &PositionPresets, intents: &Vec<i32>) -> (r: Vec<i32>)
    ensures
        r@ == spec_substitute_pool(*bans, intents@),
{
    let all = bans.values();
    let mut pool: Vec<i32> = Vec::new();
    let ghost keep = |id: i32| eligible(id, intents@);
    let mut i: usize = 0;
    while i < all.len()
        invariant
            i <= all.len(),
            keep == |id: i32| eligible(id, intents@),
            pool@ == all@.take(i as int).filter(keep),
        decreases all.len() - i,
    {
        proof {
            assert(all@.take(i + 1) =~= all@.take(i as int).push(all[i as int]));
            all@.take(i as int).lemma_filter_push(all[i as int], keep);
        }
        let id = all[i];
        if id != NO_CHAMPION && !contains_id(intents, id) {
            pool.push(id);
        }
        i = i + 1;
    }
    assert(all@.take(i as int) =~= all@);
    pool
}

/// `action_id` modulo `n`, never negative.
pub fn slot_of(action_id: i64, n: usize) -> (r: usize)
    requires
        n > 0,
    ensures
        r == action_id as int % n as int,
        r < n,
{
    if action_id >= 0 {
        let r = (action_id as u64) % (n as u64);
        r as usize
    } else {
        // action_id == -(below + 1)
        let below: u64 = (-(action_id + 1)) as u64;
        let r = below % (n as u64);
        proof {
            let q = below as int / n as int;
            assert(below as int == q * n + r) by {
                vstd::arithmetic::div_mod::lemma_fundamental_div_mod(below as int, n as int);
                assert(n * q == q * n) by (nonlinear_arith);
            }
            assert(action_id as int == (-q - 1) * n + (n - 1 - r)) by (nonlinear_arith)
                requires
                    below as int == q * n + r,
                    action_id as int == -(below as int + 1),
            ;
            lemma_fundamental_div_mod_converse(action_id as int, n as int, -q - 1, n - 1 - r);
        }
        n - 1 - (r as usize)
    }
}

/// The entry of `pool` that the action `action_id` takes.
pub fn select_substitute(pool: &Vec<i32>, action_id: i64) -> (r: i32)
    ensures
        r == spec_substitute(pool@, action_id),
{
    if pool.len() == 0 {
        NO_CHAMPION
    } else {
        pool[slot_of(action_id, pool.len())]
    }
}

/// Resolves the character that the ban action `action_id` should take.
pub fn resolve_ban_target(
    position: Position,
    bans: &PositionPresets,
    intents: &Vec<i32>,
    action_id: i64,
) -> (r: i32)
    ensures
        r == spec_ban_target(position, *bans, intents@, action_id),
{
    let preset = bans.get(position);
    if preset != NO_CHAMPION && contains_id(intents, preset) {
        let pool = substitute_pool(bans, intents);
        select_substitute(&pool, action_id)
    } else {
        preset
    }
}

/// Resolves the character that a pick action should take.
pub fn resolve_pick_target(position: Position, picks: &PositionPresets) -> (r: i32)
    ensures
        r == spec_pick_target(position, *picks),
{
    picks.get(position)
}

/// A substitute is always taken from the pool, so it names a character that
/// no teammate wants; nothing is taken only when the pool is empty.
pub proof fn lemma_substitute_is_eligible(bans: PositionPresets, intents: Seq<i32>, action_id: i64)
    ensures
        ({
            let pool = spec_substitute_pool(bans, intents);
            let chosen = spec_substitute(pool, action_id);
            &&& pool.len() == 0 <==> chosen == NO_CHAMPION
            &&& chosen != NO_CHAMPION ==> {
                &&& pool.contains(chosen)
                &&& bans.in_key_order().contains(chosen)
                &&& !intents.contains(chosen)
            }
        }),
{
    let keep = |id: i32| eligible(id, intents);
    let pool = spec_substitute_pool(bans, intents);
    if pool.len() > 0 {
        let k = action_id as int % pool.len() as int;
        vstd::arithmetic::div_mod::lemma_mod_bound(action_id as int, pool.len() as int);
        bans.in_key_order().lemma_filter_pred(keep, k);
        assert(pool.contains(pool[k]));
        bans.in_key_order().lemma_filter_contains_rev(keep, pool[k]);
    }
}

/// The effective ban target never names a character that a teammate wants.
pub proof fn lemma_ban_target_avoids_intents(
    position: Position,
    bans: PositionPresets,
    intents: Seq<i32>,
    action_id: i64,
)
    ensures
        ({
            let target = spec_ban_target(position, bans, intents, action_id);
            target != NO_CHAMPION ==> !intents.contains(target)
        }),
{
    lemma_substitute_is_eligible(bans, intents, action_id);
}

/// Filtering by two predicates that agree on every element keeps the same
/// elements.
proof fn lemma_filter_agree(s: Seq<i32>, p: spec_fn(i32) -> bool, q: spec_fn(i32) -> bool)
    requires
        forall|x: i32| #[trigger] p(x) == q(x),
    ensures
        s.filter(p) == s.filter(q),
    decreases s.len(),
{
    reveal(Seq::filter);
    if s.len() > 0 {
        lemma_filter_agree(s.drop_last(), p, q);
    }
}

/// The resolution depends on the teammates' intentions only as a set: two
/// lists with the same members, in any order and with any repetitions, give
/// the same target.
pub proof fn lemma_ban_target_ignores_intent_order(
    position: Position,
    bans: PositionPresets,
    first: Seq<i32>,
    second: Seq<i32>,
    action_id: i64,
)
    requires
        forall|id: i32| first.contains(id) == second.contains(id),
    ensures
        spec_substitute_pool(bans, first) == spec_substitute_pool(bans, second),
        spec_ban_target(position, bans, first, action_id) == spec_ban_target(
            position,
            bans,
            second,
            action_id,
        ),
{
    lemma_filter_agree(
        bans.in_key_order(),
        |id: i32| eligible(id, first),
        |id: i32| eligible(id, second),
    );
}

} // verus!
