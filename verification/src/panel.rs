//! The rules behind the presentation surface: the log it keeps, the search
//! of the registry, and the editing of the wish list.

use vstd::prelude::*;
use crate::heroes::{spec_views, HeroRegistry};
use crate::models::{Hero, HeroView};
use crate::resolver::contains_id;
use crate::text::{chars_of, contains_chars, spec_contains, spec_lowercase, to_lowercase};

verus! {

/// How many log lines are kept.
pub const LOG_LINES_MAX: usize = 50;

/// How many entries a search shows.
pub const SEARCH_RESULTS_MAX: usize = 8;

/// The log after a line was added: the oldest line goes when more than
/// `LOG_LINES_MAX` are held.
pub open spec fn spec_push_log_line<T>(lines: Seq<T>, line: T) -> Seq<T> {
    let added = lines.push(line);
    if added.len() > LOG_LINES_MAX {
        added.drop_first()
    } else {
        added
    }
}

/// Adds a line to the log.
pub fn push_log_line(lines: &mut Vec<String>, line: String)
    ensures
        final(lines)@ == spec_push_log_line(old(lines)@, line),
{
    lines.push(line);
    if lines.len() > LOG_LINES_MAX {
        lines.remove(0);
        assert(lines@ =~= old(lines)@.push(line).drop_first());
    }
}

/// The entries that a search for `lower` finds: those whose search text
/// holds it, in registry order, and of these the first
/// `SEARCH_RESULTS_MAX`.
pub open spec fn spec_search(heroes: Seq<HeroView>, lower: Seq<char>) -> Seq<HeroView> {
    let found = heroes.filter(|hero: HeroView| spec_contains(hero.alias, lower));
    if found.len() > SEARCH_RESULTS_MAX {
        found.take(SEARCH_RESULTS_MAX as int)
    } else {
        found
    }
}

/// Searches the registry for the typed `term`, whatever the case of its
/// letters.
pub fn search_heroes(heroes: &HeroRegistry, term: &str) -> (r: Vec<Hero>)
    ensures
        spec_views(r@) == spec_search(heroes@, spec_lowercase(term@)),
{
    let lowered = to_lowercase(term);
    search_lowered(heroes, lowered.as_str())
}

/// The first entries, `SEARCH_RESULTS_MAX` at most, whose search text holds
/// `search`.
pub fn search_lowered(heroes: &HeroRegistry, search: &str) -> (r: Vec<Hero>)
    ensures
        spec_views(r@) == spec_search(heroes@, search@),
{
    let lower = chars_of(search);
    let list = heroes.entries();
    let ghost wanted = |hero: HeroView| spec_contains(hero.alias, lower@);
    let mut found: Vec<Hero> = Vec::new();
    let mut i: usize = 0;
    while i < list.len() && found.len() < SEARCH_RESULTS_MAX
        invariant
            i <= list.len(),
            spec_views(list@) == heroes@,
            lower@ == search@,
            wanted == |hero: HeroView| spec_contains(hero.alias, lower@),
            found.len() <= SEARCH_RESULTS_MAX,
            spec_views(found@) == heroes@.take(i as int).filter(wanted),
        decreases list.len() - i,
    {
        proof {
            assert(heroes@.take(i + 1) =~= heroes@.take(i as int).push(heroes@[i as int]));
            heroes@.take(i as int).lemma_filter_push(heroes@[i as int], wanted);
            assert(heroes@[i as int] == list@[i as int]@);
        }
        let hero = &list[i];
        let alias = chars_of(hero.alias.as_str());
        if contains_chars(&alias, &lower) {
            let ghost before = spec_views(found@);
            found.push(hero.clone());
            assert(spec_views(found@) =~= before.push(hero@));
        }
        i = i + 1;
    }
    proof {
        let all = heroes@.filter(wanted);
        let seen = heroes@.take(i as int);
        assert(heroes@ =~= seen + heroes@.skip(i as int));
        Seq::filter_distributes_over_add(seen, heroes@.skip(i as int), wanted);
        if i == list.len() {
            assert(seen =~= heroes@);
        } else {
            assert(found.len() == SEARCH_RESULTS_MAX);
            assert(all.take(SEARCH_RESULTS_MAX as int) =~= seen.filter(wanted));
        }
    }
    found
}

/// The wish list with `id` added at the end, unless it is on it.
pub open spec fn spec_with_wish(list: Seq<i32>, id: i32) -> Seq<i32> {
    if list.contains(id) {
        list
    } else {
        list.push(id)
    }
}

/// Adds `id` to the wish list unless it is on it; says whether it was
/// added.
pub fn add_wish(list: &mut Vec<i32>, id: i32) -> (added: bool)
    ensures
        added == !old(list)@.contains(id),
        final(list)@ == spec_with_wish(old(list)@, id),
{
    if contains_id(list, id) {
        false
    } else {
        list.push(id);
        true
    }
}

/// Takes the entry at `index` off the wish list; an index beyond the list
/// changes nothing. Says whether an entry was taken off.
pub fn remove_wish(list: &mut Vec<i32>, index: usize) -> (removed: bool)
    ensures
        removed == (index < old(list)@.len()),
        removed ==> final(list)@ == old(list)@.remove(index as int),
        !removed ==> final(list)@ == old(list)@,
{
    if index < list.len() {
        list.remove(index);
        true
    } else {
        false
    }
}

} // verus!
