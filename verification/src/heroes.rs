//! The character registry and its lookups. The registry keeps its entries
//! in the order in which they came, one per character id; a lookup that
//! several entries answer takes the first of them.

use vstd::prelude::*;
use crate::models::{Hero, HeroView, NO_CHAMPION};
use crate::text::{
    chars_of, contains_chars, spec_contains, spec_lowercase, spec_trim, str_eq, to_lowercase, trim,
};

verus! {

/// The character registry: id, display name, search text and image of each
/// character. It only serves lookups for presentation.
pub struct HeroRegistry {
    heroes: Vec<Hero>,
}

/// The index of the first entry with the id `id`.
pub open spec fn spec_index_of_id(heroes: Seq<HeroView>, id: i32) -> Option<int>
    decreases heroes.len(),
{
    if heroes.len() == 0 {
        None
    } else if heroes.first().id == id {
        Some(0)
    } else {
        match spec_index_of_id(heroes.drop_first(), id) {
            Some(i) => Some(i + 1),
            None => None,
        }
    }
}

/// Whether an entry answers a search: its name is the text as typed, or its
/// search text holds the text in lower case.
pub open spec fn spec_answers(hero: HeroView, text: Seq<char>, lower: Seq<char>) -> bool {
    hero.name == text || spec_contains(hero.alias, lower)
}

/// The index of the first entry that answers the search.
pub open spec fn spec_index_of_answer(heroes: Seq<HeroView>, text: Seq<char>, lower: Seq<char>) -> Option<int>
    decreases heroes.len(),
{
    if heroes.len() == 0 {
        None
    } else if spec_answers(heroes.first(), text, lower) {
        Some(0)
    } else {
        match spec_index_of_answer(heroes.drop_first(), text, lower) {
            Some(i) => Some(i + 1),
            None => None,
        }
    }
}

/// The lower-case form in which a typed text is searched.
pub open spec fn spec_search_text(text: Seq<char>) -> Seq<char> {
    spec_lowercase(spec_trim(text))
}

/// The id that a search finds: that of the first entry that answers it;
/// `NO_CHAMPION` when the search text is empty or nothing answers.
pub open spec fn spec_find_id(heroes: Seq<HeroView>, text: Seq<char>, lower: Seq<char>) -> i32 {
    if lower.len() == 0 {
        NO_CHAMPION
    } else {
        match spec_index_of_answer(heroes, text, lower) {
            Some(i) => heroes[i].id,
            None => NO_CHAMPION,
        }
    }
}

/// The id that a typed text stands for: what the search for it finds.
pub open spec fn spec_lookup_id(heroes: Seq<HeroView>, text: Seq<char>) -> i32 {
    spec_find_id(heroes, text, spec_search_text(text))
}

/// The display name of the character `id`; empty for `NO_CHAMPION` and for
/// an id that the registry does not hold.
pub open spec fn spec_name_of(heroes: Seq<HeroView>, id: i32) -> Seq<char> {
    if id == NO_CHAMPION {
        Seq::empty()
    } else {
        match spec_index_of_id(heroes, id) {
            Some(i) => heroes[i].name,
            None => Seq::empty(),
        }
    }
}

/// The image reference of the character `id`; empty for `NO_CHAMPION` and
/// for an id that the registry does not hold.
pub open spec fn spec_image_of(heroes: Seq<HeroView>, id: i32) -> Seq<char> {
    if id == NO_CHAMPION {
        Seq::empty()
    } else {
        match spec_index_of_id(heroes, id) {
            Some(i) => heroes[i].image_name,
            None => Seq::empty(),
        }
    }
}

/// No two entries have the same id.
pub open spec fn spec_distinct_ids(heroes: Seq<HeroView>) -> bool {
    forall|i: int, j: int| 0 <= i < j < heroes.len() ==> heroes[i].id != heroes[j].id
}

/// The values of a list of entries.
pub open spec fn spec_views(list: Seq<Hero>) -> Seq<HeroView> {
    list.map_values(|hero: Hero| hero@)
}

/// A registry with `hero` put in: in the place of the entry with its id, or
/// at the end when there is none.
pub open spec fn spec_insert(heroes: Seq<HeroView>, hero: HeroView) -> Seq<HeroView> {
    match spec_index_of_id(heroes, hero.id) {
        Some(i) => heroes.update(i, hero),
        None => heroes.push(hero),
    }
}

impl View for HeroRegistry {
    type V = Seq<HeroView>;

    closed spec fn view(&self) -> Seq<HeroView> {
        spec_views(self.heroes@)
    }
}

impl HeroRegistry {
    /// No two entries have the same id. Every registry that this module
    /// hands out is well formed, and its operations keep it so.
    pub open spec fn wf(&self) -> bool {
        spec_distinct_ids(self@)
    }

    /// A registry without entries.
    pub fn new() -> (r: HeroRegistry)
        ensures
            r@ == Seq::<HeroView>::empty(),
            r.wf(),
    {
        HeroRegistry { heroes: Vec::new() }
    }

    /// The number of entries.
    pub fn len(&self) -> (r: usize)
        ensures
            r == self@.len(),
    {
        self.heroes.len()
    }

    /// Whether there is no entry.
    pub fn is_empty(&self) -> (r: bool)
        ensures
            r == (self@.len() == 0),
    {
        self.heroes.len() == 0
    }

    /// The entries, in order.
    pub fn entries(&self) -> (r: &Vec<Hero>)
        ensures
            spec_views(r@) == self@,
    {
        &self.heroes
    }

    /// Removes every entry.
    pub fn clear(&mut self)
        ensures
            final(self)@ == Seq::<HeroView>::empty(),
            final(self).wf(),
    {
        self.heroes = Vec::new();
    }

    /// The position of the entry with the id `id`.
    pub fn position_of(&self, id: i32) -> (r: Option<usize>)
        ensures
            match r {
                Some(i) => spec_index_of_id(self@, id) == Some(i as int) && i < self@.len() && self@[i as int].id == id,
                None => spec_index_of_id(self@, id) is None && forall|k: int|
                    0 <= k < self@.len() ==> self@[k].id != id,
            },
    {
        let mut i: usize = 0;
        while i < self.heroes.len()
            invariant
                i <= self.heroes.len(),
                forall|k: int| 0 <= k < i ==> self@[k].id != id,
            decreases self.heroes.len() - i,
        {
            if self.heroes[i].id == id {
                proof {
                    lemma_index_of_id_prefix(self@, id, i as int);
                    assert(self@.skip(i as int).first() == self@[i as int]);
                }
                return Some(i);
            }
            i = i + 1;
        }
        proof {
            lemma_index_of_id_prefix(self@, id, i as int);
        }
        None
    }

    /// The entry with the id `id`.
    pub fn get(&self, id: i32) -> (r: Option<&Hero>)
        ensures
            match r {
                Some(hero) => spec_index_of_id(self@, id) is Some && hero@ == self@[spec_index_of_id(self@, id)->0],
                None => spec_index_of_id(self@, id) is None,
            },
    {
        match self.position_of(id) {
            Some(i) => Some(&self.heroes[i]),
            None => None,
        }
    }

    /// Puts `hero` into the registry: in the place of the entry with its
    /// id, or at the end when there is none.
    pub fn insert(&mut self, hero: Hero)
        ensures
            old(self).wf() ==> final(self).wf(),
            final(self)@ == spec_insert(old(self)@, hero@),
    {
        let ghost before = self@;
        let ghost added = hero@;
        match self.position_of(hero.id) {
            Some(i) => {
                self.heroes.set(i, hero);
                assert(self@ =~= before.update(i as int, added));
                assert forall|a: int, b: int|
                    spec_distinct_ids(before) && 0 <= a < b < self@.len() implies self@[a].id != self@[b].id by {
                    assert(self@[a].id == before[a].id);
                    assert(self@[b].id == before[b].id);
                }
            },
            None => {
                self.heroes.push(hero);
                assert(self@ =~= before.push(added));
                assert forall|a: int, b: int|
                    spec_distinct_ids(before) && 0 <= a < b < self@.len() implies self@[a].id != self@[b].id by {
                    assert(self@[a] == before[a]);
                    if b < before.len() {
                        assert(self@[b] == before[b]);
                    }
                }
            },
        }
    }
}

/// Where the first `n` entries do not have the id, the search goes on
/// behind them.
proof fn lemma_index_of_id_prefix(heroes: Seq<HeroView>, id: i32, n: int)
    requires
        0 <= n <= heroes.len(),
        forall|k: int| 0 <= k < n ==> heroes[k].id != id,
    ensures
        spec_index_of_id(heroes, id) == match spec_index_of_id(heroes.skip(n), id) {
            Some(i) => Some(i + n),
            None => None,
        },
    decreases n,
{
    if n == 0 {
        assert(heroes.skip(0) =~= heroes);
    } else {
        assert(heroes[0].id != id);
        lemma_index_of_id_prefix(heroes.drop_first(), id, n - 1);
        assert(heroes.drop_first().skip(n - 1) =~= heroes.skip(n));
    }
}

/// Where the first `n` entries do not answer, the search goes on behind
/// them.
proof fn lemma_index_of_answer_prefix(heroes: Seq<HeroView>, text: Seq<char>, lower: Seq<char>, n: int)
    requires
        0 <= n <= heroes.len(),
        forall|k: int| 0 <= k < n ==> !spec_answers(heroes[k], text, lower),
    ensures
        spec_index_of_answer(heroes, text, lower) == match spec_index_of_answer(heroes.skip(n), text, lower) {
            Some(i) => Some(i + n),
            None => None,
        },
    decreases n,
{
    if n == 0 {
        assert(heroes.skip(0) =~= heroes);
    } else {
        assert(!spec_answers(heroes[0], text, lower));
        lemma_index_of_answer_prefix(heroes.drop_first(), text, lower, n - 1);
        assert(heroes.drop_first().skip(n - 1) =~= heroes.skip(n));
    }
}

/// The id of the first entry whose name is `text` or whose search text
/// holds `search`; `NO_CHAMPION` when `search` is empty or there is no such
/// entry.
pub fn find_hero_id(heroes: &HeroRegistry, text: &str, search: &str) -> (r: i32)
    ensures
        r == spec_find_id(heroes@, text@, search@),
{
    let lower = chars_of(search);
    if lower.len() == 0 {
        return NO_CHAMPION;
    }
    let list = heroes.entries();
    let mut i: usize = 0;
    while i < list.len()
        invariant
            i <= list.len(),
            spec_views(list@) == heroes@,
            lower@ == search@,
            lower@.len() > 0,
            forall|k: int| 0 <= k < i ==> !spec_answers(heroes@[k], text@, lower@),
        decreases list.len() - i,
    {
        let hero = &list[i];
        let alias = chars_of(hero.alias.as_str());
        if str_eq(hero.name.as_str(), text) || contains_chars(&alias, &lower) {
            proof {
                lemma_index_of_answer_prefix(heroes@, text@, lower@, i as int);
                assert(heroes@.skip(i as int).first() == heroes@[i as int]);
                assert(heroes@[i as int] == hero@);
            }
            return hero.id;
        }
        assert(heroes@[i as int] == hero@);
        i = i + 1;
    }
    proof {
        lemma_index_of_answer_prefix(heroes@, text@, lower@, i as int);
    }
    NO_CHAMPION
}

/// The id that the typed `text` stands for: the text is searched as typed
/// among the names, and without surrounding blanks and in lower case among
/// the search texts.
pub fn lookup_hero_id(heroes: &HeroRegistry, text: &str) -> (r: i32)
    ensures
        r == spec_lookup_id(heroes@, text@),
{
    let search = to_lowercase(trim(text));
    find_hero_id(heroes, text, search.as_str())
}

/// The display name of the character `id`.
pub fn lookup_hero_name_by_id(heroes: &HeroRegistry, id: i32) -> (r: String)
    ensures
        r@ == spec_name_of(heroes@, id),
{
    if id == NO_CHAMPION {
        return String::new();
    }
    match heroes.get(id) {
        Some(hero) => hero.name.clone(),
        None => String::new(),
    }
}

/// The display name of the character that the typed `text` stands for.
pub fn lookup_hero_name_by_text(heroes: &HeroRegistry, text: &str) -> (r: String)
    ensures
        r@ == spec_name_of(heroes@, spec_lookup_id(heroes@, text@)),
{
    let id = lookup_hero_id(heroes, text);
    lookup_hero_name_by_id(heroes, id)
}

/// The image reference of the character that the typed `text` stands for.
pub fn lookup_hero_image_by_text(heroes: &HeroRegistry, text: &str) -> (r: String)
    ensures
        r@ == spec_image_of(heroes@, spec_lookup_id(heroes@, text@)),
{
    let id = lookup_hero_id(heroes, text);
    if id == NO_CHAMPION {
        return String::new();
    }
    match heroes.get(id) {
        Some(hero) => hero.image_name.clone(),
        None => String::new(),
    }
}

} // verus!
