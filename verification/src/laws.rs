//! What holds across the bot's functions: numerals read back as written, an
//! embed's id comes back with its "Add" button, and the page buttons move one
//! page at a time.
use vstd::prelude::*;
use crate::interactions::component::{
    ComponentKind, FirstComponent, PostedEmbed, SaveActionView, is_prev, page_for, save_request,
};
use crate::text::{
    all_digits, decimal, digit_char, digit_value, digits_value, parse_unsigned, signed_decimal,
    take_chars, unsigned_digits,
};
use crate::utils::title_text;
use crate::commands::anime::{parsed_search, search_entry};
use crate::interactions::anime_id::{details_complete, details_id, details_image, details_text};
use crate::interactions::command::menu_len;
use crate::json::{JsonValue, as_array, as_i64, as_str, get, index, lookup};

verus! {

proof fn lemma_decimal_digits(n: nat)
    ensures
        decimal(n).len() > 0,
        all_digits(decimal(n)),
        digits_value(decimal(n)) == n,
    decreases n,
{
    reveal_with_fuel(digits_value, 2);
    if n < 10 {
        assert(digit_value(digit_char(n)) == n);
        assert(seq![digit_char(n)].drop_last() =~= Seq::<char>::empty());
    } else {
        lemma_decimal_digits(n / 10);
        let s = decimal(n / 10);
        let c = digit_char(n % 10);
        assert(digit_value(c) == n % 10);
        assert(s.push(c).drop_last() =~= s);
        assert(s.push(c).last() == c);
        assert forall|i: int| 0 <= i < s.push(c).len() implies crate::text::is_digit(
            #[trigger] s.push(c)[i],
        ) by {
            if i < s.len() {
                assert(s.push(c)[i] == s[i]);
            }
        }
    }
}

/// A number written in decimal reads back as itself, for any unsigned type
/// that holds it: `parse` undoes `to_string`.
pub proof fn law_decimal_round_trip(n: nat, max: nat)
    requires
        n <= max,
    ensures
        parse_unsigned(decimal(n), max) == Some(n),
{
    lemma_decimal_digits(n);
    let s = decimal(n);
    assert(crate::text::is_digit(s[0]));
    assert(unsigned_digits(s) == s);
}

/// A negative number's numeral is no unsigned number.
pub proof fn law_negative_numeral_unreadable(i: int, max: nat)
    requires
        i < 0,
    ensures
        parse_unsigned(signed_decimal(i), max) is None,
{
    let s = signed_decimal(i);
    assert(s[0] == '-');
    assert(unsigned_digits(s) == s);
    assert(!crate::text::is_digit(s[0]));
}

/// The "Add" button saves the anime that its embed shows: when the first field
/// of the message's first embed holds the numeral of an anime id, as the embed
/// of that anime does, a click on `anime_button` saves that id under the
/// embed's title; the numeral of a negative id is refused.
pub proof fn law_add_saves_shown_anime(
    anime_id: i64,
    user_id: u64,
    user_name: Seq<char>,
    embeds: Seq<PostedEmbed>,
)
    requires
        embeds.len() > 0,
        embeds[0].field_values@.len() > 0,
        embeds[0].field_values@[0]@ == signed_decimal(anime_id as int),
    ensures
        anime_id >= 0 ==> save_request(
            "anime_button"@,
            ComponentKind::Button,
            user_id,
            user_name,
            embeds,
        ) == (SaveActionView::Save {
            user_id,
            user_name,
            anime_id: anime_id as u64,
            anime_title: match embeds[0].title {
                Some(t) => t@,
                None => "no"@,
            },
        }),
        anime_id < 0 ==> save_request(
            "anime_button"@,
            ComponentKind::Button,
            user_id,
            user_name,
            embeds,
        ) == SaveActionView::Malformed,
{
    if anime_id >= 0 {
        law_decimal_round_trip(anime_id as nat, u64::MAX as nat);
    } else {
        law_negative_numeral_unreadable(anime_id as int, u64::MAX as nat);
    }
}

/// Every page that a page button asks for starts seven rows after the page
/// before it, ends seven rows after it starts, and carries on its "Next"
/// button the number after its own page number.
pub proof fn law_page_shape(custom_id: Seq<char>, first: Option<FirstComponent>)
    ensures
        page_for(custom_id, first) matches Some((offset, limit, next)) ==> {
            &&& 2 <= next <= 37
            &&& offset == 7 * (next - 2)
            &&& limit == offset + 7
        },
{
}

/// "Prev" goes back one page: on a page past the first, whose first component
/// is its "Prev" button, numbered one below the page's "Next" number, a click
/// on it asks for the page seven rows earlier.
pub proof fn law_prev_goes_back(
    custom_id: Seq<char>,
    first: Option<FirstComponent>,
    prev_label: String,
)
    requires
        prev_label@ == "Prev"@,
        page_for(custom_id, first) matches Some((offset, limit, next)) && offset != 0,
    ensures
        page_for(custom_id, first) matches Some((offset, limit, next)) && page_for(
            decimal((next - 1) as nat),
            Some(FirstComponent::Button(Some(prev_label))),
        ) == Some(((offset - 7) as nat, (limit - 7) as nat, (next - 1) as nat)),
{
    let (offset, limit, next) = page_for(custom_id, first).unwrap();
    law_decimal_round_trip((next - 1) as nat, 255);
}

/// "Next" goes on one page from the first page, where it is the message's
/// first component. (Past the first page the first component is "Prev", and a
/// click on "Next" is read as a click on "Prev": that case is left out.)
pub proof fn law_next_goes_on_from_first_page(
    custom_id: Seq<char>,
    first: Option<FirstComponent>,
    next_label: String,
)
    requires
        next_label@ == "Next"@,
        page_for(custom_id, first) matches Some((offset, limit, next)) && offset == 0,
    ensures
        page_for(custom_id, first) matches Some((offset, limit, next)) && page_for(
            decimal(next),
            Some(FirstComponent::Button(Some(next_label))),
        ) == Some((offset + 7, limit + 7, next + 1)),
{
    let (offset, limit, next) = page_for(custom_id, first).unwrap();
    law_decimal_round_trip(next, 255);
    reveal_strlit("Next");
    reveal_strlit("Prev");
    assert(next_label@[0] == 'N');
    assert(next_label@ != "Prev"@);
}

/// `/show` asks for the page that the button numbered 1 asks for.
pub proof fn law_first_page_is_page_one(other: Option<String>)
    requires
        other matches Some(label) ==> label@ != "Prev"@,
    ensures
        page_for(decimal(1), Some(FirstComponent::Button(other))) == Some((0nat, 7nat, 2nat)),
{
    law_decimal_round_trip(1, 255);
}

/// A shortened text is a prefix of the text, no longer than the limit, and the
/// whole text when that fits.
pub proof fn law_take_chars(s: Seq<char>, n: nat)
    ensures
        take_chars(s, n).len() <= n,
        take_chars(s, n).len() <= s.len(),
        take_chars(s, n) == s.take(take_chars(s, n).len() as int),
        s.len() <= n ==> take_chars(s, n) == s,
        s.len() > n ==> take_chars(s, n) == s.take(n as int) && take_chars(s, n).len() == n,
        forall|i: int| 0 <= i < take_chars(s, n).len() ==> take_chars(s, n)[i] == s[i],
{
    if s.len() <= n {
        assert(s.take(s.len() as int) =~= s);
    }
}

/// A title on the list's picture is at most 35 characters long: the title
/// itself when it has at most 32, else its first 32 and `...`.
pub proof fn law_title_text(title: Seq<char>)
    ensures
        title_text(title).len() <= 35,
        title.len() <= 32 ==> title_text(title) == title,
        title.len() > 32 ==> title_text(title) == title.take(32) + "..."@,
{
    reveal_strlit("...");
}

/// A click on "Add" saves exactly what the message's first embed shows: the
/// id written in its first field and its whole title, or `no` where it has no
/// title. Any other click is ignored, and a message without an embed, without
/// a field, or whose first field is no unsigned number is malformed.
pub proof fn law_save_request_reads_embed(
    custom_id: Seq<char>,
    kind: ComponentKind,
    user_id: u64,
    user_name: Seq<char>,
    embeds: Seq<PostedEmbed>,
)
    ensures
        (custom_id != "anime_button"@ || !(kind is Button)) ==> save_request(
            custom_id,
            kind,
            user_id,
            user_name,
            embeds,
        ) == SaveActionView::Ignore,
        (custom_id == "anime_button"@ && kind is Button && (embeds.len() == 0
            || embeds[0].field_values@.len() == 0)) ==> save_request(
            custom_id,
            kind,
            user_id,
            user_name,
            embeds,
        ) == SaveActionView::Malformed,
        (custom_id == "anime_button"@ && kind is Button && embeds.len() > 0
            && embeds[0].field_values@.len() > 0) ==> match parse_unsigned(
            embeds[0].field_values@[0]@,
            u64::MAX as nat,
        ) {
            Some(id) => save_request(custom_id, kind, user_id, user_name, embeds) == (
            SaveActionView::Save {
                user_id,
                user_name,
                anime_id: id as u64,
                anime_title: match embeds[0].title {
                    Some(t) => t@,
                    None => "no"@,
                },
            }),
            None => save_request(custom_id, kind, user_id, user_name, embeds)
                == SaveActionView::Malformed,
        },
        save_request(custom_id, kind, user_id, user_name, embeds) matches SaveActionView::Save {
            anime_title,
            ..
        } ==> (embeds[0].title matches Some(t) ==> anime_title == t@ && anime_title.len()
            == t@.len()),
{
}

/// An object's entry under a key is the value of its first entry with that
/// key, whatever its other entries hold; there is none exactly when no entry
/// has the key.
pub proof fn law_lookup_finds_key(entries: Seq<(String, JsonValue)>, key: Seq<char>)
    ensures
        lookup(entries, key) matches Some(v) ==> exists|i: int|
            0 <= i < entries.len() && (#[trigger] entries[i]).0@ == key && entries[i].1 == v
                && forall|j: int| 0 <= j < i ==> (#[trigger] entries[j]).0@ != key,
        lookup(entries, key) is None <==> forall|i: int|
            0 <= i < entries.len() ==> (#[trigger] entries[i]).0@ != key,
    decreases entries.len(),
{
    if entries.len() > 0 {
        if entries[0].0@ == key {
            assert(entries[0].0@ == key);
        } else {
            let rest = entries.drop_first();
            law_lookup_finds_key(rest, key);
            assert forall|i: int| 0 <= i < rest.len() implies #[trigger] rest[i] == entries[i
                + 1] by {}
            if lookup(rest, key) is Some {
                let v = lookup(rest, key).unwrap();
                let i = choose|i: int|
                    0 <= i < rest.len() && (#[trigger] rest[i]).0@ == key && rest[i].1 == v
                        && forall|j: int| 0 <= j < i ==> (#[trigger] rest[j]).0@ != key;
                assert(entries[i + 1] == rest[i]);
                assert forall|j: int| 0 <= j < i + 1 implies (#[trigger] entries[j]).0@ != key by {
                    if j > 0 {
                        assert(entries[j] == rest[j - 1]);
                    }
                }
                assert(entries[i + 1].0@ == key);
            } else {
                assert forall|i: int| 0 <= i < entries.len() implies (#[trigger] entries[i]).0@
                    != key by {
                    if i > 0 {
                        assert(entries[i] == rest[i - 1]);
                    }
                }
            }
        }
    }
}

/// A search answer gives one hit per item of its `data` array, in order: the
/// item's `mal_id` and the string under its key `title`, whatever other keys
/// the item holds. There are no hits where `data` is no array or an item lacks
/// either.
pub proof fn law_search_hits(response: JsonValue)
    ensures
        parsed_search(response) is Some <==> (as_array(index(response, "data"@)) matches Some(
            items,
        ) && forall|i: int|
            0 <= i < items.len() ==> as_i64(index(#[trigger] items[i], "mal_id"@)) is Some
                && as_str(index(items[i], "title"@)) is Some),
        parsed_search(response) matches Some(hits) ==> as_array(index(response, "data"@)) matches Some(
            items,
        ) && hits.len() == items.len() && forall|i: int|
            0 <= i < items.len() ==> Some((#[trigger] hits[i]).0) == as_i64(
                index(items[i], "mal_id"@),
            ) && Some(hits[i].1) == as_str(index(items[i], "title"@)),
{
    match as_array(index(response, "data"@)) {
        Some(items) => {
            if forall|i: int| 0 <= i < items.len() ==> (#[trigger] search_entry(items[i])) is Some {
                let hits = parsed_search(response).unwrap();
                assert forall|i: int| 0 <= i < items.len() implies as_i64(
                    index(#[trigger] items[i], "mal_id"@),
                ) is Some && as_str(index(items[i], "title"@)) is Some by {
                    assert(search_entry(items[i]) is Some);
                }
                assert forall|i: int| 0 <= i < items.len() implies Some((#[trigger] hits[i]).0)
                    == as_i64(index(items[i], "mal_id"@)) && Some(hits[i].1) == as_str(
                    index(items[i], "title"@),
                ) by {
                    assert(search_entry(items[i]) is Some);
                }
            } else {
                let i = choose|i: int|
                    0 <= i < items.len() && !((#[trigger] search_entry(items[i])) is Some);
                assert(search_entry(items[i]) is None);
            }
        },
        None => {},
    }
}

/// A hit depends only on its item's entries under `mal_id` and `title`: two
/// items that agree on those give the same hit.
pub proof fn law_search_entry_reads_its_keys(a: JsonValue, b: JsonValue)
    requires
        get(a, "mal_id"@) == get(b, "mal_id"@),
        get(a, "title"@) == get(b, "title"@),
    ensures
        search_entry(a) == search_entry(b),
{
}

/// The details read from an answer are the entries of its `data` object under
/// `mal_id`, `images.webp.image_url` and each text key, read under that key
/// alone; they are complete exactly when each is there with its type.
pub proof fn law_details_fields(response: JsonValue, key: Seq<char>)
    ensures
        details_text(response, key) == as_str(index(index(response, "data"@), key)),
        details_id(response) == as_i64(index(index(response, "data"@), "mal_id"@)),
        details_image(response) == as_str(
            index(index(index(index(response, "data"@), "images"@), "webp"@), "image_url"@),
        ),
        details_complete(response) <==> {
            let data = index(response, "data"@);
            &&& as_i64(index(data, "mal_id"@)) is Some
            &&& as_str(index(data, "title"@)) is Some
            &&& as_str(index(data, "url"@)) is Some
            &&& as_str(index(index(index(data, "images"@), "webp"@), "image_url"@)) is Some
            &&& as_str(index(data, "synopsis"@)) is Some
        },
{
}

/// A text detail depends only on the `data` object's entry under its own key:
/// two answers whose `data` agree there give the same text.
pub proof fn law_details_text_reads_its_key(a: JsonValue, b: JsonValue, key: Seq<char>)
    requires
        get(index(a, "data"@), key) == get(index(b, "data"@), key),
    ensures
        details_text(a, key) == details_text(b, key),
{
}

/// The menu offers every hit when there are fewer than seven, and the first
/// seven otherwise.
pub proof fn law_menu_len(n: nat)
    ensures
        n < 7 ==> menu_len(n) == n,
        n >= 7 ==> menu_len(n) == 7,
        menu_len(n) <= n,
        menu_len(n) <= 7,
{
}

/// The button numbered `c` asks for page `c`, rows `7(c-1)` to `7c` with the
/// next button numbered `c+1`, or for page `c-1` when the message's first
/// component is "Prev". There is no page 0, no page before the first, and
/// none past the 36th.
pub proof fn law_page_numbers(c: nat, first: FirstComponent)
    ensures
        1 <= c <= 36 && !is_prev(first) ==> page_for(decimal(c), Some(first)) == Some(
            ((7 * (c - 1)) as nat, 7 * c, c + 1),
        ),
        2 <= c <= 36 && is_prev(first) ==> page_for(decimal(c), Some(first)) == Some(
            ((7 * (c - 2)) as nat, (7 * (c - 1)) as nat, c),
        ),
        (c == 0 || c > 36) ==> page_for(decimal(c), Some(first)) is None,
        c == 1 && is_prev(first) ==> page_for(decimal(c), Some(first)) is None,
{
    lemma_decimal_digits(c);
    let s = decimal(c);
    assert(crate::text::is_digit(s[0]));
    assert(unsigned_digits(s) == s);
}

} // verus!
