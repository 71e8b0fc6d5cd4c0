//! The `anime` slash command: a search in the Jikan (MyAnimeList) API.
use vstd::prelude::*;
use crate::json::{JsonValue, as_array, as_i64, as_str, index};
use crate::text::{append, owned};

verus! {

/// One search hit: the MyAnimeList id and the title.
pub struct MALAnime {
    pub id: i64,
    pub title: String,
}

/// The type of a slash command option.
pub enum OptionKind {
    String,
}

/// One option of a slash command.
pub struct CommandOptionSpec {
    pub kind: OptionKind,
    pub name: String,
    pub description: String,
    pub required: bool,
}

/// A slash command as it is registered with Discord.
pub struct CommandSpec {
    pub name: String,
    pub description: String,
    pub options: Vec<CommandOptionSpec>,
}

/// The definition of `/anime`: one required string option, `search`.
pub fn register() -> (r: CommandSpec)
    ensures
        r.name@ == "anime"@,
        r.description@ == "Rengo-chan will help you with your anime stuff! :))"@,
        r.options@.len() == 1,
        r.options@[0].kind == OptionKind::String,
        r.options@[0].name@ == "search"@,
        r.options@[0].description@ == "What do you want to see?"@,
        r.options@[0].required,
{
    let mut options: Vec<CommandOptionSpec> = Vec::new();
    options.push(
        CommandOptionSpec {
            kind: OptionKind::String,
            name: owned("search"),
            description: owned("What do you want to see?"),
            required: true,
        },
    );
    CommandSpec {
        name: owned("anime"),
        description: owned("Rengo-chan will help you with your anime stuff! :))"),
        options,
    }
}

/// The address that a search for `anime` asks.
pub fn search_endpoint(anime: &str) -> (r: String)
    ensures
        r@ == "https://api.jikan.moe/v4/anime?q="@ + anime@,
{
    let mut url = owned("https://api.jikan.moe/v4/anime?q=");
    append(&mut url, anime);
    url
}

/// What one item of a search answer gives: its `mal_id` and its `title`.
pub open spec fn search_entry(item: JsonValue) -> Option<(i64, Seq<char>)> {
    match (as_i64(index(item, "mal_id"@)), as_str(index(item, "title"@))) {
        (Some(id), Some(title)) => Some((id, title)),
        _ => None,
    }
}

/// The hits of a search answer: one for each item of its `data` array, when
/// that is an array and every item has an integer `mal_id` and a string `title`.
pub open spec fn parsed_search(response: JsonValue) -> Option<Seq<(i64, Seq<char>)>> {
    match as_array(index(response, "data"@)) {
        Some(items) => if forall|i: int|
            0 <= i < items.len() ==> (#[trigger] search_entry(items[i])) is Some {
            Some(items.map_values(|item: JsonValue| search_entry(item).unwrap()))
        } else {
            None
        },
        None => None,
    }
}

/// Reads the hits out of a search answer; `None` where the answer lacks what
/// a hit needs.
pub fn parse_search(response: &JsonValue) -> (r: Option<Vec<MALAnime>>)
    ensures
        match parsed_search(*response) {
            Some(hits) => r matches Some(v) && v@.len() == hits.len() && forall|i: int|
                0 <= i < hits.len() ==> (#[trigger] v@[i]).id == hits[i].0 && v@[i].title@
                    == hits[i].1,
            None => r is None,
        },
        r is Some <==> (as_array(index(*response, "data"@)) matches Some(items) && forall|i: int|
            0 <= i < items.len() ==> as_i64(index(#[trigger] items[i], "mal_id"@)) is Some
                && as_str(index(items[i], "title"@)) is Some),
        r matches Some(v) ==> as_array(index(*response, "data"@)) matches Some(items) && v@.len()
            == items.len() && forall|i: int|
            0 <= i < items.len() ==> Some((#[trigger] v@[i]).id) == as_i64(index(items[i], "mal_id"@))
                && Some(v@[i].title@) == as_str(index(items[i], "title"@)),
{
    let data = match response.at("data") {
        Some(d) => d,
        None => return None,
    };
    let items = match data.as_array() {
        Some(a) => a,
        None => return None,
    };
    let ghost hits = items@.map_values(|item: JsonValue| search_entry(item).unwrap());
    let mut out: Vec<MALAnime> = Vec::new();
    let mut i: usize = 0;
    while i < items.len()
        invariant
            i <= items.len(),
            as_array(index(*response, "data"@)) == Some(items@),
            hits == items@.map_values(|item: JsonValue| search_entry(item).unwrap()),
            out@.len() == i,
            forall|j: int| 0 <= j < i ==> (#[trigger] search_entry(items@[j])) is Some,
            forall|j: int|
                0 <= j < i ==> as_i64(index(#[trigger] items@[j], "mal_id"@)) is Some && as_str(
                    index(items@[j], "title"@),
                ) is Some,
            forall|j: int|
                0 <= j < i ==> (#[trigger] out@[j]).id == hits[j].0 && out@[j].title@
                    == hits[j].1,
        decreases items.len() - i,
    {
        let item = &items[i];
        let id = match item.i64_at("mal_id") {
            Some(id) => id,
            None => {
                assert(search_entry(items@[i as int]) is None);
                return None;
            },
        };
        let title = match item.string_at("title") {
            Some(t) => t,
            None => {
                assert(search_entry(items@[i as int]) is None);
                return None;
            },
        };
        out.push(MALAnime { id, title });
        i = i + 1;
    }
    Some(out)
}

} // verus!
