use rengo::commands::anime::{parse_search, register, search_endpoint, OptionKind};
use rengo::interactions::anime_id::{details_endpoint, parse_details};
use rengo::json::{JsonNumber, JsonValue};

fn s(t: &str) -> JsonValue {
    JsonValue::String(t.to_string())
}

fn n(v: i64) -> JsonValue {
    if v >= 0 {
        JsonValue::Number(JsonNumber::PosInt(v as u64))
    } else {
        JsonValue::Number(JsonNumber::NegInt(v))
    }
}

fn obj(entries: Vec<(&str, JsonValue)>) -> JsonValue {
    JsonValue::Object(entries.into_iter().map(|(k, v)| (k.to_string(), v)).collect())
}

fn hit(id: i64, title: &str) -> JsonValue {
    obj(vec![("mal_id", n(id)), ("url", s("u")), ("title", s(title)), ("score", JsonValue::Number(JsonNumber::Float))])
}

#[test]
fn search_endpoint_puts_the_query_after_q() {
    assert_eq!(search_endpoint("naruto"), "https://api.jikan.moe/v4/anime?q=naruto");
    assert_eq!(search_endpoint(""), "https://api.jikan.moe/v4/anime?q=");
}

#[test]
fn details_endpoint_puts_the_id_last() {
    assert_eq!(details_endpoint("20"), "https://api.jikan.moe/v4/anime/20");
}

#[test]
fn parse_search_reads_every_hit() {
    let response = obj(vec![
        ("pagination", obj(vec![])),
        ("data", JsonValue::Array(vec![hit(20, "Naruto"), hit(1735, "Naruto: Shippuuden")])),
    ]);
    let hits = parse_search(&response).unwrap();
    assert_eq!(hits.len(), 2);
    assert_eq!(hits[0].id, 20);
    assert_eq!(hits[0].title, "Naruto");
    assert_eq!(hits[1].id, 1735);
    assert_eq!(hits[1].title, "Naruto: Shippuuden");
}

#[test]
fn parse_search_of_no_hits_is_empty() {
    let response = obj(vec![("data", JsonValue::Array(vec![]))]);
    assert_eq!(parse_search(&response).unwrap().len(), 0);
}

#[test]
fn parse_search_refuses_incomplete_answers() {
    assert!(parse_search(&obj(vec![])).is_none());
    assert!(parse_search(&obj(vec![("data", s("x"))])).is_none());
    assert!(parse_search(&JsonValue::Null).is_none());
    let no_title = obj(vec![("mal_id", n(1))]);
    assert!(parse_search(&obj(vec![("data", JsonValue::Array(vec![hit(1, "a"), no_title]))])).is_none());
    let float_id = obj(vec![("mal_id", JsonValue::Number(JsonNumber::Float)), ("title", s("a"))]);
    assert!(parse_search(&obj(vec![("data", JsonValue::Array(vec![float_id]))])).is_none());
}

fn details(image: JsonValue) -> JsonValue {
    obj(vec![(
        "data",
        obj(vec![
            ("mal_id", n(20)),
            ("url", s("https://myanimelist.net/anime/20/Naruto")),
            ("images", image),
            ("title", s("Naruto")),
            ("synopsis", s("Moments prior to Naruto Uzumaki's birth...")),
        ]),
    )])
}

#[test]
fn parse_details_reads_the_five_fields() {
    let image = obj(vec![("webp", obj(vec![("image_url", s("https://cdn/20.webp"))]))]);
    let d = parse_details(&details(image)).unwrap();
    assert_eq!(d.id, 20);
    assert_eq!(d.title, "Naruto");
    assert_eq!(d.url, "https://myanimelist.net/anime/20/Naruto");
    assert_eq!(d.image, "https://cdn/20.webp");
    assert_eq!(d.synopsis, "Moments prior to Naruto Uzumaki's birth...");
}

#[test]
fn parse_details_refuses_a_missing_picture() {
    let jpg_only = obj(vec![("jpg", obj(vec![("image_url", s("x"))]))]);
    assert!(parse_details(&details(jpg_only)).is_none());
    assert!(parse_details(&details(JsonValue::Null)).is_none());
    assert!(parse_details(&obj(vec![])).is_none());
}

#[test]
fn register_defines_the_search_command() {
    let c = register();
    assert_eq!(c.name, "anime");
    assert_eq!(c.description, "Rengo-chan will help you with your anime stuff! :))");
    assert_eq!(c.options.len(), 1);
    assert!(matches!(c.options[0].kind, OptionKind::String));
    assert_eq!(c.options[0].name, "search");
    assert_eq!(c.options[0].description, "What do you want to see?");
    assert!(c.options[0].required);
}

#[test]
fn register_defines_the_show_command() {
    let c = rengo::commands::show::register();
    assert_eq!(c.name, "show");
    assert_eq!(c.description, "Your list~? Leave it to Rengo-chan to show you nicely!");
    assert!(c.options.is_empty());
}
