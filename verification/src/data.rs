//! The static character data: reading the registry's entries from the
//! published document.

use vstd::prelude::*;
use vstd::string::StringExecFns;
use crate::heroes::{spec_insert, HeroRegistry};
use crate::json::{
    as_object, json_of, member, members_of, spec_lists, spec_values_of_refs, values_of, Json,
};
use crate::models::{Hero, HeroView};
use crate::reader::{read_text, spec_text};
use crate::text::{chars_of, spec_lowercase, str_eq, to_lowercase};

verus! {

/// Whether the character document has to be fetched: when the published
/// version is not the one on disk, or there is no document on disk.
pub fn needs_download(published: &str, on_disk: &str, have_document: bool) -> (r: bool)
    ensures
        r == (published@ != on_disk@ || !have_document),
{
    !str_eq(published, on_disk) || !have_document
}

/// Whether a character is a decimal digit.
pub open spec fn spec_is_digit(c: char) -> bool {
    '0' <= c && c <= '9'
}

/// The number that a text of decimal digits writes.
pub open spec fn spec_decimal(digits: Seq<char>) -> int
    decreases digits.len(),
{
    if digits.len() == 0 {
        0
    } else {
        10 * spec_decimal(digits.drop_last()) + (digits.last() as int - '0' as int)
    }
}

/// The digits of a number text: the text without its sign.
pub open spec fn spec_unsigned_part(text: Seq<char>) -> Seq<char> {
    if text.len() > 0 && (text[0] == '-' || text[0] == '+') {
        text.skip(1)
    } else {
        text
    }
}

/// The number that a text writes in decimal: an optional sign, then at
/// least one digit and nothing else. `None` for any other text and for a
/// number that is no `i32`.
pub open spec fn spec_parse_i32(text: Seq<char>) -> Option<i32> {
    let digits = spec_unsigned_part(text);
    if digits.len() == 0 || !(forall|i: int| 0 <= i < digits.len() ==> spec_is_digit(#[trigger] digits[i])) {
        None
    } else {
        let value = if text[0] == '-' {
            -spec_decimal(digits)
        } else {
            spec_decimal(digits)
        };
        if i32::MIN <= value <= i32::MAX {
            Some(value as i32)
        } else {
            None
        }
    }
}

/// A longer text of digits writes no smaller number.
proof fn lemma_decimal_grows(digits: Seq<char>, n: int)
    requires
        0 <= n <= digits.len(),
        forall|i: int| 0 <= i < digits.len() ==> spec_is_digit(#[trigger] digits[i]),
    ensures
        0 <= spec_decimal(digits.take(n)) <= spec_decimal(digits),
    decreases digits.len() - n,
{
    lemma_decimal_not_negative(digits.take(n));
    if n < digits.len() {
        lemma_decimal_grows(digits, n + 1);
        assert(digits.take(n + 1).drop_last() =~= digits.take(n));
        assert(spec_is_digit(digits[n]));
        assert(digits.take(n + 1).last() == digits[n]);
    } else {
        assert(digits.take(n) =~= digits);
    }
}

proof fn lemma_decimal_not_negative(digits: Seq<char>)
    requires
        forall|i: int| 0 <= i < digits.len() ==> spec_is_digit(#[trigger] digits[i]),
    ensures
        0 <= spec_decimal(digits),
    decreases digits.len(),
{
    if digits.len() > 0 {
        lemma_decimal_not_negative(digits.drop_last());
        assert(spec_is_digit(digits[digits.len() - 1]));
    }
}

/// Reads a number written in decimal.
pub fn parse_i32(text: &str) -> (r: Option<i32>)
    ensures
        r == spec_parse_i32(text@),
{
    let chars = chars_of(text);
    let n = chars.len();
    if n == 0 {
        return None;
    }
    let negative = chars[0] == '-';
    let start: usize = if chars[0] == '-' || chars[0] == '+' {
        1
    } else {
        0
    };
    let ghost digits = spec_unsigned_part(text@);
    assert(digits =~= chars@.skip(start as int));
    if start == n {
        return None;
    }
    let mut value: i64 = 0;
    let mut i: usize = start;
    while i < n
        invariant
            start <= i <= n,
            n == chars.len(),
            chars@ == text@,
            digits == spec_unsigned_part(text@),
            digits == chars@.skip(start as int),
            forall|k: int| 0 <= k < i - start ==> spec_is_digit(#[trigger] digits[k]),
            value == spec_decimal(digits.take(i - start)),
            0 <= value <= 0x8000_0000,
        decreases n - i,
    {
        let c = chars[i];
        assert(digits[i - start] == c);
        if !('0' <= c && c <= '9') {
            return None;
        }
        proof {
            assert(digits.take(i + 1 - start).drop_last() =~= digits.take(i - start));
            assert(digits.take(i + 1 - start).last() == c);
        }
        value = value * 10 + ((c as u8 - 48) as i64);
        i = i + 1;
        if value > 0x8000_0000 {
            proof {
                // Either a later character is no digit, or the number is too large.
                if forall|k: int| 0 <= k < digits.len() ==> spec_is_digit(#[trigger] digits[k]) {
                    lemma_decimal_grows(digits, i - start);
                }
            }
            return None;
        }
    }
    assert(digits.take(i - start) =~= digits);
    if negative {
        Some((-value) as i32)
    } else if value <= 0x7fff_ffff {
        Some(value as i32)
    } else {
        None
    }
}

/// The text of a member, or `default` where the member is missing or no
/// text.
pub open spec fn spec_text_or(field: Option<Json>, default: Seq<char>) -> Seq<char> {
    match field {
        Some(value) => match value.as_text() {
            Some(text) => text,
            None => default,
        },
        None => default,
    }
}

/// The id of a character entry: its `key`, read as a number; 0 where the
/// key is missing or no number.
pub open spec fn spec_read_hero_id(entry: Json) -> i32 {
    match spec_parse_i32(spec_text_or(entry.member("key"@), "0"@)) {
        Some(id) => id,
        None => 0,
    }
}

/// The image reference of a character entry: `image.full`.
pub open spec fn spec_read_hero_image(entry: Json) -> Seq<char> {
    match entry.member("image"@) {
        Some(image) => spec_text(image.member("full"@)),
        None => Seq::empty(),
    }
}

/// The search text of a character: name, title and key, separated by
/// blanks, in lower case.
pub open spec fn spec_alias(name: Seq<char>, title: Seq<char>, key: Seq<char>) -> Seq<char> {
    spec_lowercase(name + " "@ + title + " "@ + key)
}

/// The registry entry that a character entry of the document describes.
pub open spec fn spec_read_hero(entry: Json) -> HeroView {
    let name = spec_text(entry.member("name"@));
    HeroView {
        id: spec_read_hero_id(entry),
        name,
        alias: spec_alias(name, spec_text(entry.member("title"@)), spec_text(entry.member("id"@))),
        image_name: spec_read_hero_image(entry),
    }
}

/// The registry that holds the characters of `entries`, each put in after
/// the ones before it.
pub open spec fn spec_collect(entries: Seq<Json>) -> Seq<HeroView>
    decreases entries.len(),
{
    if entries.len() == 0 {
        Seq::empty()
    } else {
        spec_insert(spec_collect(entries.drop_last()), spec_read_hero(entries.last()))
    }
}

/// The search text of a character.
pub fn alias_of(name: &str, title: &str, key: &str) -> (r: String)
    ensures
        r@ == spec_alias(name@, title@, key@),
{
    let mut joined = name.to_string();
    joined.append(" ");
    joined.append(title);
    joined.append(" ");
    joined.append(key);
    to_lowercase(joined.as_str())
}

/// Reads one character entry of the document.
pub fn read_hero(entry: &serde_json::Value) -> (r: Hero)
    ensures
        r@ == spec_read_hero(json_of(*entry)),
{
    let key = match member(entry, "key") {
        Some(value) => match crate::json::as_str(value) {
            Some(text) => text,
            None => "0",
        },
        None => "0",
    };
    let id = match parse_i32(key) {
        Some(id) => id,
        None => 0,
    };
    let name = read_text(entry, "name");
    let title = read_text(entry, "title");
    let ident = read_text(entry, "id");
    proof {
        reveal_strlit("");
        assert(""@ =~= Seq::<char>::empty());
    }
    let image = match member(entry, "image") {
        Some(image) => read_text(image, "full"),
        None => "",
    };
    Hero { id, name: name.to_string(), alias: alias_of(name, title, ident), image_name: image.to_string() }
}

/// Replaces the registry's entries by the characters of `entries`, in
/// order; of two with the same id the later one stays.
pub fn collect_heroes(registry: &mut HeroRegistry, entries: &Vec<&serde_json::Value>)
    ensures
        final(registry).wf(),
        final(registry)@ == spec_collect(spec_values_of_refs(entries@)),
{
    registry.clear();
    let mut i: usize = 0;
    while i < entries.len()
        invariant
            i <= entries.len(),
            registry.wf(),
            registry@ == spec_collect(spec_values_of_refs(entries@).take(i as int)),
        decreases entries.len() - i,
    {
        assert(spec_values_of_refs(entries@).take(i + 1).drop_last() =~= spec_values_of_refs(entries@).take(
            i as int,
        ));
        let hero = read_hero(entries[i]);
        registry.insert(hero);
        i = i + 1;
    }
    assert(spec_values_of_refs(entries@).take(i as int) =~= spec_values_of_refs(entries@));
}

/// Whether `heroes` is what the document `document` fills a registry with:
/// the characters of its `data` object, taken in some order.
pub open spec fn spec_is_loaded_from(heroes: Seq<HeroView>, document: Json) -> bool {
    match document.member("data"@) {
        Some(Json::Object(members)) => spec_is_collection_of(heroes, members),
        _ => false,
    }
}

/// Whether `heroes` holds the characters that `members` describe, put in
/// in some order.
pub open spec fn spec_is_collection_of(heroes: Seq<HeroView>, members: Map<Seq<char>, Json>) -> bool {
    exists|listing: Seq<Json>| #[trigger] spec_lists(members, listing) && heroes == spec_collect(listing)
}

/// Whether the document carries character data at all.
pub open spec fn spec_has_data(document: Json) -> bool {
    match document.member("data"@) {
        Some(data) => data is Object,
        None => false,
    }
}

/// Fills the registry from the published character document. A document
/// without character data leaves the registry as it is; the result says
/// whether the registry was filled.
pub fn update_data(registry: &mut HeroRegistry, document: &serde_json::Value) -> (filled: bool)
    ensures
        filled ==> final(registry).wf(),
        filled == spec_has_data(json_of(*document)),
        filled ==> spec_is_loaded_from(final(registry)@, json_of(*document)),
        !filled ==> final(registry)@ == old(registry)@,
{
    match member(document, "data") {
        Some(data) => match as_object(data) {
            Some(members) => {
                let entries = values_of(members);
                collect_heroes(registry, &entries);
                assert(spec_lists(members_of(*members), spec_values_of_refs(entries@)));
                assert(spec_is_collection_of(registry@, members_of(*members)));
                true
            },
            None => false,
        },
        None => false,
    }
}

} // verus!
