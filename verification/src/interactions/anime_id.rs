//! The details of one anime, asked of the Jikan API by its id.
use vstd::prelude::*;
use crate::json::{JsonValue, as_i64, as_str, index};
use crate::text::{append, owned};

verus! {

/// The details that the bot shows of one anime.
pub struct MALAnimeID {
    pub id: i64,
    pub title: String,
    pub url: String,
    pub image: String,
    pub synopsis: String,
}

/// The address that asks for the anime with the given id.
pub fn details_endpoint(id: &str) -> (r: String)
    ensures
        r@ == "https://api.jikan.moe/v4/anime/"@ + id@,
{
    let mut url = owned("https://api.jikan.moe/v4/anime/");
    append(&mut url, id);
    url
}

/// `response["data"]`.
pub open spec fn details_data(response: JsonValue) -> JsonValue {
    index(response, "data"@)
}

/// `response["data"]["mal_id"].as_i64()`.
pub open spec fn details_id(response: JsonValue) -> Option<i64> {
    as_i64(index(details_data(response), "mal_id"@))
}

/// `response["data"][key].as_str()`.
pub open spec fn details_text(response: JsonValue, key: Seq<char>) -> Option<Seq<char>> {
    as_str(index(details_data(response), key))
}

/// `response["data"]["images"]["webp"]["image_url"].as_str()`.
pub open spec fn details_image(response: JsonValue) -> Option<Seq<char>> {
    as_str(index(index(index(details_data(response), "images"@), "webp"@), "image_url"@))
}

/// Whether a details answer has every field that the bot shows.
pub open spec fn details_complete(response: JsonValue) -> bool {
    &&& details_id(response) is Some
    &&& details_text(response, "title"@) is Some
    &&& details_text(response, "url"@) is Some
    &&& details_image(response) is Some
    &&& details_text(response, "synopsis"@) is Some
}

/// Reads the details out of an answer; `None` exactly when a field is missing
/// or of another type.
pub fn parse_details(response: &JsonValue) -> (r: Option<MALAnimeID>)
    ensures
        r is Some <==> details_complete(*response),
        r matches Some(d) ==> {
            &&& Some(d.id) == details_id(*response)
            &&& Some(d.title@) == details_text(*response, "title"@)
            &&& Some(d.url@) == details_text(*response, "url"@)
            &&& Some(d.image@) == details_image(*response)
            &&& Some(d.synopsis@) == details_text(*response, "synopsis"@)
        },
        r is Some <==> {
            let data = index(*response, "data"@);
            &&& as_i64(index(data, "mal_id"@)) is Some
            &&& as_str(index(data, "title"@)) is Some
            &&& as_str(index(data, "url"@)) is Some
            &&& as_str(index(index(index(data, "images"@), "webp"@), "image_url"@)) is Some
            &&& as_str(index(data, "synopsis"@)) is Some
        },
        r matches Some(d) ==> {
            let data = index(*response, "data"@);
            &&& Some(d.id) == as_i64(index(data, "mal_id"@))
            &&& Some(d.title@) == as_str(index(data, "title"@))
            &&& Some(d.url@) == as_str(index(data, "url"@))
            &&& Some(d.image@) == as_str(index(index(index(data, "images"@), "webp"@), "image_url"@))
            &&& Some(d.synopsis@) == as_str(index(data, "synopsis"@))
        },
{
    let data = match response.at("data") {
        Some(d) => d,
        None => return None,
    };
    let id = match data.i64_at("mal_id") {
        Some(id) => id,
        None => return None,
    };
    let title = match data.string_at("title") {
        Some(t) => t,
        None => return None,
    };
    let url = match data.string_at("url") {
        Some(t) => t,
        None => return None,
    };
    let images = match data.at("images") {
        Some(x) => x,
        None => return None,
    };
    let webp = match images.at("webp") {
        Some(x) => x,
        None => return None,
    };
    let image = match webp.string_at("image_url") {
        Some(t) => t,
        None => return None,
    };
    let synopsis = match data.string_at("synopsis") {
        Some(t) => t,
        None => return None,
    };
    Some(MALAnimeID { id, title, url, image, synopsis })
}

} // verus!
