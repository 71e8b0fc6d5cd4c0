//! What the bot does when one of its components is used: the select menu of
//! hits, the "Add" button under an anime, and the page buttons of a list.
use vstd::prelude::*;
use crate::interactions::anime_id::MALAnimeID;
use crate::text::{
    i64_to_decimal, owned, parse_decimal, parse_unsigned, prefix_chars, same_text, signed_decimal,
    take_chars,
};

verus! {

/// The kind of a component interaction, with the values of a string select.
pub enum ComponentKind {
    Button,
    StringSelect(Vec<String>),
    Other,
}

/// The anime chosen in the hits menu: the first selected value, when the
/// interaction is a string select on the menu `anime_select`.
pub fn selected_anime(custom_id: &str, kind: &ComponentKind) -> (r: Option<String>)
    ensures
        match *kind {
            ComponentKind::StringSelect(values) => if custom_id@ == "anime_select"@
                && values@.len() > 0 {
                r matches Some(v) && v@ == values@[0]@
            } else {
                r is None
            },
            _ => r is None,
        },
{
    if !same_text(custom_id, "anime_select") {
        return None;
    }
    match kind {
        ComponentKind::StringSelect(values) => {
            if values.len() > 0 {
                Some(owned(values[0].as_str()))
            } else {
                None
            }
        },
        _ => None,
    }
}

/// How many characters of the synopsis an embed shows.
pub const SYNOPSIS_LIMIT: usize = 1020;

/// One field of an embed.
pub struct EmbedField {
    pub name: String,
    pub value: String,
    pub inline: bool,
}

/// The embed that presents one anime.
pub struct AnimeEmbed {
    pub title: String,
    pub url: String,
    pub image: String,
    pub fields: Vec<EmbedField>,
}

/// The style of a button.
pub enum ButtonStyleKind {
    Primary,
    Secondary,
}

/// A button.
pub struct ButtonSpec {
    pub custom_id: String,
    pub label: String,
    pub style: ButtonStyleKind,
}

/// The embed for one anime: its title, page and picture, a field `ID` with its
/// id and a field `Synopsis` with the first 1020 characters of its synopsis.
pub fn anime_embed(details: &MALAnimeID) -> (r: AnimeEmbed)
    ensures
        r.title@ == details.title@,
        r.url@ == details.url@,
        r.image@ == details.image@,
        r.fields@.len() == 2,
        r.fields@[0].name@ == "ID"@,
        r.fields@[0].value@ == signed_decimal(details.id as int),
        !r.fields@[0].inline,
        r.fields@[1].name@ == "Synopsis"@,
        r.fields@[1].value@ == take_chars(details.synopsis@, SYNOPSIS_LIMIT as nat),
        details.synopsis@.len() <= 1020 ==> r.fields@[1].value@ == details.synopsis@,
        details.synopsis@.len() > 1020 ==> r.fields@[1].value@ == details.synopsis@.take(1020)
            && r.fields@[1].value@.len() == 1020,
        !r.fields@[1].inline,
{
    let mut fields: Vec<EmbedField> = Vec::new();
    fields.push(EmbedField { name: owned("ID"), value: i64_to_decimal(details.id), inline: false });
    fields.push(
        EmbedField {
            name: owned("Synopsis"),
            value: prefix_chars(details.synopsis.as_str(), SYNOPSIS_LIMIT),
            inline: false,
        },
    );
    AnimeEmbed {
        title: owned(details.title.as_str()),
        url: owned(details.url.as_str()),
        image: owned(details.image.as_str()),
        fields,
    }
}

/// The button under an anime's embed that saves it to the user's list.
pub fn add_button() -> (r: ButtonSpec)
    ensures
        r.custom_id@ == "anime_button"@,
        r.label@ == "Add"@,
        r.style == ButtonStyleKind::Primary,
{
    ButtonSpec { custom_id: owned("anime_button"), label: owned("Add"), style: ButtonStyleKind::Primary }
}

/// An anime that a user asks to save.
pub struct SaveAnime {
    pub user_id: u64,
    pub user_name: String,
    pub anime_id: u64,
    pub anime_title: String,
}

/// What the bot reads of an embed in the message whose button was clicked.
pub struct PostedEmbed {
    pub title: Option<String>,
    pub field_values: Vec<String>,
}

/// What a click on a component asks of the list store.
pub enum SaveAction {
    /// The interaction is not a click on the "Add" button.
    Ignore,
    /// Save this anime.
    Save(SaveAnime),
    /// The message under the button has no embed, no field, or a first field
    /// that is no unsigned number.
    Malformed,
}

/// The save request, by its plain values.
pub enum SaveActionView {
    Ignore,
    Save { user_id: u64, user_name: Seq<char>, anime_id: u64, anime_title: Seq<char> },
    Malformed,
}

impl View for SaveAction {
    type V = SaveActionView;

    open spec fn view(&self) -> SaveActionView {
        match *self {
            SaveAction::Ignore => SaveActionView::Ignore,
            SaveAction::Save(s) => SaveActionView::Save {
                user_id: s.user_id,
                user_name: s.user_name@,
                anime_id: s.anime_id,
                anime_title: s.anime_title@,
            },
            SaveAction::Malformed => SaveActionView::Malformed,
        }
    }
}

/// The title under which an anime is saved: the embed's title, or `no`.
pub open spec fn saved_title(title: Option<String>) -> Seq<char> {
    match title {
        Some(t) => t@,
        None => "no"@,
    }
}

/// The save request of a click: on the button `anime_button`, the anime whose
/// id is the first field of the first embed, under that embed's title.
pub open spec fn save_request(
    custom_id: Seq<char>,
    kind: ComponentKind,
    user_id: u64,
    user_name: Seq<char>,
    embeds: Seq<PostedEmbed>,
) -> SaveActionView {
    if custom_id != "anime_button"@ || !(kind is Button) {
        SaveActionView::Ignore
    } else if embeds.len() == 0 || embeds[0].field_values@.len() == 0 {
        SaveActionView::Malformed
    } else {
        match parse_unsigned(embeds[0].field_values@[0]@, u64::MAX as nat) {
            Some(id) => SaveActionView::Save {
                user_id,
                user_name,
                anime_id: id as u64,
                anime_title: saved_title(embeds[0].title),
            },
            None => SaveActionView::Malformed,
        }
    }
}

/// Decides what a click on a component saves.
pub fn save_action(
    custom_id: &str,
    kind: &ComponentKind,
    user_id: u64,
    user_name: &str,
    embeds: &Vec<PostedEmbed>,
) -> (r: SaveAction)
    ensures
        r@ == save_request(custom_id@, *kind, user_id, user_name@, embeds@),
        r is Ignore <==> (custom_id@ != "anime_button"@ || !(*kind is Button)),
        r is Save <==> (custom_id@ == "anime_button"@ && *kind is Button && embeds@.len() > 0
            && embeds@[0].field_values@.len() > 0 && parse_unsigned(
            embeds@[0].field_values@[0]@,
            u64::MAX as nat,
        ) is Some),
        r matches SaveAction::Save(s) ==> {
            &&& custom_id@ == "anime_button"@
            &&& *kind is Button
            &&& s.user_id == user_id
            &&& s.user_name@ == user_name@
            &&& embeds@.len() > 0
            &&& embeds@[0].field_values@.len() > 0
            &&& parse_unsigned(embeds@[0].field_values@[0]@, u64::MAX as nat) == Some(
                s.anime_id as nat,
            )
            &&& match embeds@[0].title {
                Some(t) => s.anime_title@ == t@,
                None => s.anime_title@ == "no"@,
            }
        },
{
    if !same_text(custom_id, "anime_button") {
        return SaveAction::Ignore;
    }
    match kind {
        ComponentKind::Button => {},
        _ => return SaveAction::Ignore,
    }
    if embeds.len() == 0 {
        return SaveAction::Malformed;
    }
    let embed = &embeds[0];
    if embed.field_values.len() == 0 {
        return SaveAction::Malformed;
    }
    let anime_id = match parse_decimal(embed.field_values[0].as_str(), u64::MAX) {
        Some(id) => id,
        None => return SaveAction::Malformed,
    };
    let anime_title = match &embed.title {
        Some(t) => owned(t.as_str()),
        None => owned("no"),
    };
    SaveAction::Save(SaveAnime { user_id, user_name: owned(user_name), anime_id, anime_title })
}

/// The first component of the first row of the message whose button was
/// clicked: a button with its label, or something else.
pub enum FirstComponent {
    Button(Option<String>),
    Other,
}

/// Whether the first component is the button labelled `Prev`.
pub open spec fn is_prev(first: FirstComponent) -> bool {
    match first {
        FirstComponent::Button(Some(label)) => label@ == "Prev"@,
        _ => false,
    }
}

/// A page of a user's list: rows from `offset`, at most `limit`, and the
/// number that the page's "Next" button will carry.
pub struct PageRequest {
    pub offset: u8,
    pub limit: u8,
    pub next: u8,
}

/// The number of entries on one page.
pub const PAGE_SIZE: u8 = 7;

/// The largest button number whose page bounds fit a `u8`.
pub const MAX_PAGE: u8 = 36;

/// The page that a click on a page button asks for, as (offset, limit, next):
/// for the button numbered `c`, the page `c`, unless the message's first
/// component is `Prev`, which asks for page `c - 1`. `None` where a bound
/// does not fit a `u8`, the number is no `u8`, or the message has no component.
pub open spec fn page_for(custom_id: Seq<char>, first: Option<FirstComponent>) -> Option<
    (nat, nat, nat),
> {
    match parse_unsigned(custom_id, 255) {
        None => None,
        Some(c) => if c < 1 || c > MAX_PAGE || first is None {
            None
        } else if is_prev(first.unwrap()) {
            if c < 2 {
                None
            } else {
                Some(((7 * (c - 2)) as nat, (7 * (c - 1)) as nat, c))
            }
        } else {
            Some(((7 * (c - 1)) as nat, 7 * c, c + 1))
        },
    }
}

/// Decides which page a click on a page button shows.
pub fn page_request(custom_id: &str, first: Option<&FirstComponent>) -> (r: Option<PageRequest>)
    ensures
        match page_for(custom_id@, match first { Some(f) => Some(*f), None => None }) {
            Some((offset, limit, next)) => r matches Some(p) && p.offset == offset && p.limit
                == limit && p.next == next,
            None => r is None,
        },
{
    let c = match parse_decimal(custom_id, 255) {
        Some(c) => c as u8,
        None => return None,
    };
    if c < 1 || c > MAX_PAGE {
        return None;
    }
    let first = match first {
        Some(f) => f,
        None => return None,
    };
    let prev = match first {
        FirstComponent::Button(Some(label)) => same_text(label.as_str(), "Prev"),
        _ => false,
    };
    if prev {
        if c < 2 {
            return None;
        }
        Some(PageRequest { offset: PAGE_SIZE * (c - 2), limit: PAGE_SIZE * (c - 1), next: c })
    } else {
        Some(PageRequest { offset: PAGE_SIZE * (c - 1), limit: PAGE_SIZE * c, next: c + 1 })
    }
}

/// Whether a slash command asks for the caller's list, `/show`.
pub fn is_show_command(name: &str) -> (r: bool)
    ensures
        r == (name@ == "show"@),
{
    same_text(name, "show")
}

/// The first page of a list, which `/show` asks for: rows from 0, at most 7,
/// and the "Next" button numbered 2.
pub fn first_page() -> (r: PageRequest)
    ensures
        r.offset == 0,
        r.limit == 7,
        r.next == 2,
{
    PageRequest { offset: 0, limit: PAGE_SIZE, next: 2 }
}

} // verus!
