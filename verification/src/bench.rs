//! The bench monitor: notices when the shared bench changes, and claims the
//! most wanted character that is on it.

use vstd::prelude::*;
use vstd::seq_lib::to_multiset_build;
use crate::effects::{Effect, LogEvent};
use crate::models::Settings;
use crate::resolver::contains_id;
use crate::session::{held_champion, spec_held_champion, SessionSnapshot};

verus! {

/// Two benches hold the same characters when each character is on both
/// equally often, wherever it stands.
pub open spec fn spec_same_members(first: Seq<i32>, second: Seq<i32>) -> bool {
    first.to_multiset() =~= second.to_multiset()
}

/// The character to claim: going down the wish list, the first one that is
/// on the bench. The search ends with nothing as soon as it meets the
/// character already held.
pub open spec fn spec_claim(held: i32, wanted: Seq<i32>, bench: Seq<i32>) -> Option<i32>
    decreases wanted.len(),
{
    if wanted.len() == 0 {
        None
    } else if wanted.first() == held {
        None
    } else if bench.contains(wanted.first()) {
        Some(wanted.first())
    } else {
        spec_claim(held, wanted.drop_first(), bench)
    }
}

/// What a claim asks of the driver.
pub open spec fn spec_claim_effects(claim: Option<i32>) -> Seq<Effect> {
    match claim {
        Some(id) => seq![
            Effect::Claim { champion_id: id },
            Effect::Log(LogEvent::Claimed { champion_id: id }),
        ],
        None => Seq::empty(),
    }
}

/// What one poll in bench mode does to the remembered bench and asks of the
/// driver.
pub struct BenchOutcome {
    pub remembered: Seq<i32>,
    pub effects: Seq<Effect>,
}

/// One poll in bench mode. Without a bench in the session nothing happens.
/// Otherwise a bench with other members than the remembered one is
/// announced and remembered; then, if claims are enabled, at most one is
/// made.
pub open spec fn spec_aram_bench(
    remembered: Seq<i32>,
    bench: Option<Seq<i32>>,
    held: i32,
    settings: Settings,
) -> BenchOutcome {
    match bench {
        None => BenchOutcome { remembered, effects: Seq::empty() },
        Some(current) => {
            let changed = !spec_same_members(current, remembered);
            let notice = if changed {
                seq![Effect::BenchChanged]
            } else {
                Seq::empty()
            };
            let claim = if settings.aram_snipe {
                spec_claim_effects(spec_claim(held, settings.snipe_list@, current))
            } else {
                Seq::empty()
            };
            BenchOutcome {
                remembered: if changed {
                    current
                } else {
                    remembered
                },
                effects: notice + claim,
            }
        },
    }
}

/// How often `id` occurs in `list`.
pub fn count_of(list: &Vec<i32>, id: i32) -> (r: usize)
    ensures
        r == list@.to_multiset().count(id),
{
    let mut n: usize = 0;
    let mut i: usize = 0;
    proof {
        list@.take(0).to_multiset_ensures();
        assert(!list@.take(0).contains(id));
    }
    while i < list.len()
        invariant
            i <= list.len(),
            n <= i,
            n == list@.take(i as int).to_multiset().count(id),
        decreases list.len() - i,
    {
        proof {
            assert(list@.take(i + 1) =~= list@.take(i as int).push(list[i as int]));
            to_multiset_build(list@.take(i as int), list[i as int]);
        }
        if list[i] == id {
            n = n + 1;
        }
        i = i + 1;
    }
    assert(list@.take(i as int) =~= list@);
    n
}

/// Whether every member of `list` occurs in `list` and in `other` equally
/// often.
fn counts_agree(list: &Vec<i32>, other: &Vec<i32>) -> (r: bool)
    ensures
        r == forall|k: int|
            0 <= k < list.len() ==> list@.to_multiset().count(#[trigger] list[k])
                == other@.to_multiset().count(list[k]),
{
    let mut i: usize = 0;
    while i < list.len()
        invariant
            i <= list.len(),
            forall|k: int|
                0 <= k < i ==> list@.to_multiset().count(#[trigger] list[k])
                    == other@.to_multiset().count(list[k]),
        decreases list.len() - i,
    {
        if count_of(list, list[i]) != count_of(other, list[i]) {
            return false;
        }
        i = i + 1;
    }
    true
}

/// Whether two benches hold the same characters, in whatever order.
pub fn same_members(first: &Vec<i32>, second: &Vec<i32>) -> (r: bool)
    ensures
        r == spec_same_members(first@, second@),
{
    let r = counts_agree(first, second) && counts_agree(second, first);
    proof {
        broadcast use vstd::seq_lib::group_to_multiset_ensures;

        let a = first@.to_multiset();
        let b = second@.to_multiset();
        if r {
            assert forall|id: i32| a.count(id) == b.count(id) by {
                if first@.contains(id) {
                    let k = choose|k: int| 0 <= k < first.len() && first[k] == id;
                    assert(a.count(first[k]) == b.count(first[k]));
                } else if second@.contains(id) {
                    let k = choose|k: int| 0 <= k < second.len() && second[k] == id;
                    assert(b.count(second[k]) == a.count(second[k]));
                }
            }
            assert(a =~= b);
        }
    }
    r
}

/// The character to claim from `bench`, if any.
pub fn claim_target(held: i32, wanted: &Vec<i32>, bench: &Vec<i32>) -> (r: Option<i32>)
    ensures
        r == spec_claim(held, wanted@, bench@),
{
    let mut i: usize = 0;
    assert(wanted@.skip(0) =~= wanted@);
    while i < wanted.len()
        invariant
            i <= wanted.len(),
            spec_claim(held, wanted@, bench@) == spec_claim(held, wanted@.skip(i as int), bench@),
        decreases wanted.len() - i,
    {
        assert(wanted@.skip(i as int).drop_first() =~= wanted@.skip(i + 1));
        let id = wanted[i];
        if id == held {
            return None;
        }
        if contains_id(bench, id) {
            return Some(id);
        }
        i = i + 1;
    }
    None
}

/// A copy of `list`.
fn copy_of(list: &Vec<i32>) -> (r: Vec<i32>)
    ensures
        r@ == list@,
{
    let mut out: Vec<i32> = Vec::new();
    let mut i: usize = 0;
    while i < list.len()
        invariant
            i <= list.len(),
            out@ == list@.take(i as int),
        decreases list.len() - i,
    {
        out.push(list[i]);
        i = i + 1;
    }
    assert(list@.take(i as int) =~= list@);
    out
}

/// The view of an optional list.
pub open spec fn spec_bench_of(bench: Option<Vec<i32>>) -> Option<Seq<i32>> {
    match bench {
        Some(list) => Some(list@),
        None => None,
    }
}

/// One poll in bench mode: `last_bench_ids` is the bench as last announced.
pub fn handle_aram_bench(
    snapshot: &SessionSnapshot,
    settings: &Settings,
    last_bench_ids: &mut Vec<i32>,
) -> (effects: Vec<Effect>)
    ensures
        final(last_bench_ids)@ == spec_aram_bench(
            old(last_bench_ids)@,
            spec_bench_of(snapshot.bench),
            spec_held_champion(snapshot.team@, snapshot.local_cell_id),
            *settings,
        ).remembered,
        effects@ == spec_aram_bench(
            old(last_bench_ids)@,
            spec_bench_of(snapshot.bench),
            spec_held_champion(snapshot.team@, snapshot.local_cell_id),
            *settings,
        ).effects,
{
    let mut effects: Vec<Effect> = Vec::new();
    match &snapshot.bench {
        None => {},
        Some(current) => {
            if !same_members(current, last_bench_ids) {
                *last_bench_ids = copy_of(current);
                effects.push(Effect::BenchChanged);
            }
            if settings.aram_snipe {
                let held = held_champion(&snapshot.team, snapshot.local_cell_id);
                match claim_target(held, &settings.snipe_list, current) {
                    Some(id) => {
                        effects.push(Effect::Claim { champion_id: id });
                        effects.push(Effect::Log(LogEvent::Claimed { champion_id: id }));
                    },
                    None => {},
                }
            }
        },
    }
    effects
}

/// Reordering the bench is no change: a bench with the members of the
/// remembered one is not announced, and the remembered one stays.
pub proof fn lemma_reordered_bench_is_no_change(
    remembered: Seq<i32>,
    current: Seq<i32>,
    held: i32,
    settings: Settings,
)
    requires
        current.to_multiset() == remembered.to_multiset(),
    ensures
        ({
            let outcome = spec_aram_bench(remembered, Some(current), held, settings);
            &&& outcome.remembered == remembered
            &&& forall|k: int| 0 <= k < outcome.effects.len() ==> outcome.effects[k] != Effect::BenchChanged
        }),
{
}

/// A bench with other members is announced exactly once, first of all, and
/// remembered.
pub proof fn lemma_changed_bench_is_announced(
    remembered: Seq<i32>,
    current: Seq<i32>,
    held: i32,
    settings: Settings,
)
    requires
        current.to_multiset() != remembered.to_multiset(),
    ensures
        ({
            let outcome = spec_aram_bench(remembered, Some(current), held, settings);
            &&& outcome.remembered == current
            &&& outcome.effects.len() > 0
            &&& outcome.effects[0] == Effect::BenchChanged
            &&& forall|k: int| 0 < k < outcome.effects.len() ==> outcome.effects[k] != Effect::BenchChanged
        }),
{
}

/// What is claimed is the most wanted character on the bench: it is on the
/// wish list and on the bench, it is not the character held, and no entry
/// before it on the list is held or on the bench.
pub proof fn lemma_claim_is_first_available(held: i32, wanted: Seq<i32>, bench: Seq<i32>)
    ensures
        match spec_claim(held, wanted, bench) {
            Some(id) => exists|i: int|
                {
                    &&& 0 <= i < wanted.len()
                    &&& #[trigger] wanted[i] == id
                    &&& id != held
                    &&& bench.contains(id)
                    &&& forall|j: int| 0 <= j < i ==> wanted[j] != held && !bench.contains(#[trigger] wanted[j])
                },
            None => forall|i: int|
                0 <= i < wanted.len() && bench.contains(#[trigger] wanted[i]) ==> exists|j: int|
                    0 <= j <= i && #[trigger] wanted[j] == held,
        },
    decreases wanted.len(),
{
    if wanted.len() == 0 {
    } else if wanted.first() == held {
        assert forall|i: int| 0 <= i < wanted.len() && bench.contains(#[trigger] wanted[i]) implies exists|j: int|
            0 <= j <= i && #[trigger] wanted[j] == held by {
            assert(wanted[0] == held);
        }
    } else if bench.contains(wanted.first()) {
        assert(wanted[0] == wanted.first());
    } else {
        let rest = wanted.drop_first();
        lemma_claim_is_first_available(held, rest, bench);
        match spec_claim(held, rest, bench) {
            Some(id) => {
                let i = choose|i: int|
                    {
                        &&& 0 <= i < rest.len()
                        &&& #[trigger] rest[i] == id
                        &&& id != held
                        &&& bench.contains(id)
                        &&& forall|j: int| 0 <= j < i ==> rest[j] != held && !bench.contains(#[trigger] rest[j])
                    };
                assert(wanted[i + 1] == id);
                assert forall|j: int| 0 <= j < i + 1 implies wanted[j] != held && !bench.contains(
                    #[trigger] wanted[j],
                ) by {
                    if j > 0 {
                        assert(wanted[j] == rest[j - 1]);
                    }
                }
            },
            None => {
                assert forall|i: int| 0 <= i < wanted.len() && bench.contains(#[trigger] wanted[i]) implies exists|
                    j: int,
                | 0 <= j <= i && #[trigger] wanted[j] == held by {
                    assert(i > 0);
                    assert(rest[i - 1] == wanted[i]);
                    let j = choose|j: int| 0 <= j <= i - 1 && #[trigger] rest[j] == held;
                    assert(wanted[j + 1] == held);
                }
            },
        }
    }
}

/// A poll claims at most one character, and only with claims enabled.
pub proof fn lemma_one_claim_at_most(remembered: Seq<i32>, bench: Option<Seq<i32>>, held: i32, settings: Settings)
    ensures
        ({
            let effects = spec_aram_bench(remembered, bench, held, settings).effects;
            &&& forall|i: int, j: int|
                0 <= i < effects.len() && 0 <= j < effects.len() && (#[trigger] effects[i] is Claim)
                    && (#[trigger] effects[j] is Claim) ==> i == j
            &&& !settings.aram_snipe ==> forall|i: int| 0 <= i < effects.len() ==> !(#[trigger] effects[i] is Claim)
        }),
{
}

} // verus!
