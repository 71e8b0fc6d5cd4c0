//! The decisions of the list store: the reply to a save, the page of a list,
//! the layout of the list's picture and the parameters of the store's queries.
use vstd::prelude::*;
use rand::seq::IndexedRandom;
use serenity::model::id::UserId;
use serenity::model::mention::Mention;
use crate::interactions::component::{ButtonSpec, ButtonStyleKind};
use crate::text::{append, decimal, owned, push_char, take_chars, u64_to_decimal, prefix_chars};

verus! {

/// One saved anime of a user, as the store lists it.
#[derive(Debug, Clone)]
pub struct AnimeList {
    pub anime_id: u64,
    pub anime_title: String,
}

/// How serenity writes a mention of a user: `<@id>`.
pub open spec fn mention(user_id: u64) -> Seq<char> {
    seq!['<', '@'] + decimal(user_id as nat) + seq!['>']
}

/// `Mention::from(UserId::new(user_id))`, written out. serenity's `Display`
/// for a user mention writes `<@`, the id in decimal and `>`; `UserId::new`
/// panics on 0, which `requires` leaves out.
#[verifier::external_body]
fn user_mention(user_id: u64) -> (r: String)
    requires
        user_id != 0,
    ensures
        r@ == mention(user_id),
{
    format!("{}", Mention::from(UserId::new(user_id)))
}

/// One line of `lines`, picked at random by rand's `IndexedRandom::choose`
/// with the thread's generator: `None` exactly when `lines` is empty, else one
/// of its lines. Which one is left to chance and not stated.
#[verifier::external_body]
fn pick_line(lines: &Vec<String>) -> (r: Option<&String>)
    ensures
        lines@.len() == 0 <==> r is None,
        r matches Some(line) ==> lines@.contains(*line),
{
    lines.choose(&mut rand::rng())
}

/// The lines with which the bot confirms a save.
pub open spec fn save_lines() -> Seq<Seq<char>> {
    seq![
        "ehehe~ I saved your data safely ( ◡̀_◡́)ᕤ"@,
        "yatta~! Your anime has been added successfully ◝(ᵔᵕᵔ)◜"@,
        "nya~ I've got your anime right here! (⸝⸝ᵕᴗᵕ⸝⸝)"@,
    ]
}

/// The lines with which the bot confirms a save.
pub fn save_responses() -> (r: Vec<String>)
    ensures
        r@.len() == 3,
        forall|i: int| 0 <= i < 3 ==> (#[trigger] r@[i])@ == save_lines()[i],
{
    let mut lines: Vec<String> = Vec::new();
    lines.push(owned("ehehe~ I saved your data safely ( ◡̀_◡́)ᕤ"));
    lines.push(owned("yatta~! Your anime has been added successfully ◝(ᵔᵕᵔ)◜"));
    lines.push(owned("nya~ I've got your anime right here! (⸝⸝ᵕᴗᵕ⸝⸝)"));
    lines
}

/// The reply when the random pick found no line.
pub open spec fn oops_text() -> Seq<char> {
    "Oopsie! Something went wrong... (｡•́︿•̀｡)"@
}

/// The reply when the anime is already in the user's list.
pub open spec fn already_saved_text(user_id: u64) -> Seq<char> {
    mention(user_id) + " this one's already saved, senpai~~ (¬_¬\")"@
}

/// The reply to a save: when the anime was new, the user's mention and the
/// picked line, or an apology when no line was picked; when it was already
/// saved, a note that says so.
pub open spec fn save_reply_text(anime_empty: bool, user_id: u64, line: Option<Seq<char>>) -> Seq<
    char,
> {
    if anime_empty {
        match line {
            Some(l) => mention(user_id) + seq![' '] + l,
            None => oops_text(),
        }
    } else {
        already_saved_text(user_id)
    }
}

/// Writes the reply to a save, given the line that was picked.
pub fn save_reply(anime_empty: bool, user_id: u64, line: Option<&str>) -> (r: String)
    requires
        user_id != 0,
    ensures
        r@ == save_reply_text(
            anime_empty,
            user_id,
            match line {
                Some(l) => Some(l@),
                None => None,
            },
        ),
{
    let who = user_mention(user_id);
    if anime_empty {
        match line {
            Some(l) => {
                let mut message = who;
                push_char(&mut message, ' ');
                append(&mut message, l);
                message
            },
            None => owned("Oopsie! Something went wrong... (｡•́︿•̀｡)"),
        }
    } else {
        let mut message = who;
        append(&mut message, " this one's already saved, senpai~~ (¬_¬\")");
        message
    }
}

/// What the store does with a save request.
pub struct SaveOutcome {
    /// Whether to insert the anime into the user's list.
    pub store: bool,
    /// The reply to the user.
    pub message: String,
}

/// Decides a save request, given whether the user's list lacks the anime:
/// store it exactly then, and reply with the mention and one of the three
/// confirmation lines, picked at random; else reply that it is already saved.
pub fn save_outcome(anime_empty: bool, user_id: u64) -> (r: SaveOutcome)
    requires
        user_id != 0,
    ensures
        r.store == anime_empty,
        anime_empty ==> exists|i: int|
            0 <= i < 3 && r.message@ == mention(user_id) + seq![' '] + #[trigger] save_lines()[i],
        !anime_empty ==> r.message@ == already_saved_text(user_id),
{
    if anime_empty {
        let lines = save_responses();
        let line = pick_line(&lines);
        let picked = match line {
            Some(l) => l,
            None => {
                assert(false);
                return SaveOutcome { store: true, message: String::new() };
            },
        };
        let ghost k = choose|k: int| 0 <= k < lines@.len() && lines@[k] == *picked;
        let message = save_reply(true, user_id, Some(picked.as_str()));
        assert(picked@ == save_lines()[k]);
        SaveOutcome { store: true, message }
    } else {
        SaveOutcome { store: false, message: save_reply(false, user_id, None) }
    }
}

/// The most entries that one page of the list draws.
pub const DRAWN_PER_PAGE: usize = 7;

/// The name of the picture of a list page.
pub fn list_image_name() -> (r: String)
    ensures
        r@ == "animelist.png"@,
{
    owned("animelist.png")
}

/// How a page of a user's list is shown.
pub struct ShowPlan {
    /// How many of the listed entries the picture draws.
    pub draw_count: usize,
    pub title: String,
    pub description: String,
    pub footer: String,
    /// The picture, as an attachment address.
    pub image: String,
    pub prev_button: Option<ButtonSpec>,
    pub next_button: Option<ButtonSpec>,
    /// Whether the reply replaces the message whose button was clicked.
    pub update_message: bool,
}

/// A page button: numbered by `id`, labelled `label`, secondary.
pub open spec fn page_button(b: ButtonSpec, id: nat, label: Seq<char>) -> bool {
    &&& b.custom_id@ == decimal(id)
    &&& b.label@ == label
    &&& b.style == ButtonStyleKind::Secondary
}

fn page_button_for(id: u8, label: &str) -> (r: ButtonSpec)
    ensures
        page_button(r, id as nat, label@),
{
    ButtonSpec {
        custom_id: u64_to_decimal(id as u64),
        label: owned(label),
        style: ButtonStyleKind::Secondary,
    }
}

/// The page of a user's list from `offset` whose "Next" button carries `next`,
/// when the store listed `list_len` rows from there: it draws at most seven,
/// says "Page" and `next - 1` under the picture, offers "Prev" (numbered
/// `next - 1`) unless it is the first page and "Next" (numbered `next`) when
/// more than seven rows came back; it replaces the clicked message when the
/// request came from a button.
pub fn show_plan(offset: u8, next: u8, list_len: usize, user_id: u64, from_component: bool) -> (r:
    ShowPlan)
    requires
        next >= 1,
        user_id != 0,
    ensures
        r.draw_count == if list_len > DRAWN_PER_PAGE {
            DRAWN_PER_PAGE
        } else {
            list_len
        },
        r.title@ == "Your precious Anime List~!"@,
        r.description@ == "User: "@ + mention(user_id),
        r.footer@ == "Page "@ + decimal((next - 1) as nat),
        r.image@ == "attachment://animelist.png"@,
        offset != 0 <==> r.prev_button is Some,
        r.prev_button matches Some(b) ==> page_button(b, (next - 1) as nat, "Prev"@),
        list_len > DRAWN_PER_PAGE <==> r.next_button is Some,
        r.next_button matches Some(b) ==> page_button(b, next as nat, "Next"@),
        r.update_message == from_component,
{
    let draw_count = if list_len > DRAWN_PER_PAGE {
        DRAWN_PER_PAGE
    } else {
        list_len
    };
    let mut description = owned("User: ");
    let who = user_mention(user_id);
    append(&mut description, who.as_str());
    let mut footer = owned("Page ");
    let page = u64_to_decimal((next - 1) as u64);
    append(&mut footer, page.as_str());
    let mut image = owned("attachment://");
    let name = list_image_name();
    append(&mut image, name.as_str());
    proof {
        reveal_strlit("attachment://");
        reveal_strlit("animelist.png");
        reveal_strlit("attachment://animelist.png");
        assert(image@ =~= "attachment://animelist.png"@);
    }
    let prev_button = if offset != 0 {
        Some(page_button_for(next - 1, "Prev"))
    } else {
        None
    };
    let next_button = if list_len > DRAWN_PER_PAGE {
        Some(page_button_for(next, "Next"))
    } else {
        None
    };
    ShowPlan {
        draw_count,
        title: owned("Your precious Anime List~!"),
        description,
        footer,
        image,
        prev_button,
        next_button,
        update_message: from_component,
    }
}

/// How many characters of a title the picture shows before it cuts.
pub const TITLE_LIMIT: usize = 32;

/// A title as the picture shows it: cut to 32 characters and `...` when longer.
pub open spec fn title_text(title: Seq<char>) -> Seq<char> {
    if title.len() > TITLE_LIMIT {
        take_chars(title, TITLE_LIMIT as nat) + "..."@
    } else {
        title
    }
}

/// A title as the picture shows it.
pub fn title_line(title: &str) -> (r: String)
    ensures
        r@ == title_text(title@),
{
    let len = title.unicode_len();
    if len > TITLE_LIMIT {
        let mut line = prefix_chars(title, TITLE_LIMIT);
        append(&mut line, "...");
        line
    } else {
        owned(title)
    }
}

/// One line of text on the list's picture.
pub struct TextLine {
    pub text: String,
    pub x: i32,
    pub y: i32,
    /// Whether the line is set in the bold face.
    pub bold: bool,
}

/// The left edge of every line: a twentieth of the picture's width, 400.
pub const LINE_X: i32 = 20;

/// The line that names entry `i` of the list: its title, in bold.
pub open spec fn title_line_at(line: TextLine, entry: AnimeList, i: int) -> bool {
    &&& line.text@ == title_text(entry.anime_title@)
    &&& line.x == LINE_X
    &&& line.y == 30 + 80 * i
    &&& line.bold
}

/// The line under it: `ID: ` and the id.
pub open spec fn id_line_at(line: TextLine, entry: AnimeList, i: int) -> bool {
    &&& line.text@ == "ID: "@ + decimal(entry.anime_id as nat)
    &&& line.x == LINE_X
    &&& line.y == 60 + 80 * i
    &&& !line.bold
}

/// The text of the list's picture: for each entry, its title and under it its
/// id, each entry 80 pixels below the one before, the first title at 30.
pub fn image_lines(entries: &Vec<AnimeList>) -> (r: Vec<TextLine>)
    requires
        600 + 1600 * entries@.len() <= i32::MAX,
    ensures
        r@.len() == 2 * entries@.len(),
        forall|i: int|
            0 <= i < entries@.len() ==> title_line_at(#[trigger] r@[2 * i], entries@[i], i)
                && id_line_at(r@[2 * i + 1], entries@[i], i),
{
    let mut lines: Vec<TextLine> = Vec::new();
    let mut y: i32 = 600;
    let mut i: usize = 0;
    while i < entries.len()
        invariant
            600 + 1600 * entries@.len() <= i32::MAX,
            i <= entries@.len(),
            y == 600 + 1600 * i,
            lines@.len() == 2 * i,
            forall|j: int|
                0 <= j < i ==> title_line_at(#[trigger] lines@[2 * j], entries@[j], j)
                    && id_line_at(lines@[2 * j + 1], entries@[j], j),
        decreases entries.len() - i,
    {
        let entry = &entries[i];
        lines.push(
            TextLine {
                text: title_line(entry.anime_title.as_str()),
                x: 400 / 20,
                y: y / 20,
                bold: true,
            },
        );
        y = y + 600;
        let mut id_text = owned("ID: ");
        let digits = u64_to_decimal(entry.anime_id);
        append(&mut id_text, digits.as_str());
        lines.push(TextLine { text: id_text, x: 400 / 20, y: y / 20, bold: false });
        y = y + 1000;
        i = i + 1;
        assert(forall|j: int|
            0 <= j < i ==> title_line_at(#[trigger] lines@[2 * j], entries@[j], j)
                && id_line_at(lines@[2 * j + 1], entries@[j], j));
    }
    lines
}

/// The parameters that look a user's anime up: the user's id and the anime's
/// id, in decimal.
pub fn saved_key_params(user_id: u64, anime_id: u64) -> (r: Vec<String>)
    ensures
        r@.len() == 2,
        r@[0]@ == decimal(user_id as nat),
        r@[1]@ == decimal(anime_id as nat),
{
    let mut params: Vec<String> = Vec::new();
    params.push(u64_to_decimal(user_id));
    params.push(u64_to_decimal(anime_id));
    params
}

/// The parameters that insert an anime into a user's list.
pub fn store_params(user_id: u64, user_name: &str, anime_id: u64, anime_title: &str) -> (r: Vec<
    String,
>)
    ensures
        r@.len() == 4,
        r@[0]@ == decimal(user_id as nat),
        r@[1]@ == user_name@,
        r@[2]@ == decimal(anime_id as nat),
        r@[3]@ == anime_title@,
{
    let mut params: Vec<String> = Vec::new();
    params.push(u64_to_decimal(user_id));
    params.push(owned(user_name));
    params.push(u64_to_decimal(anime_id));
    params.push(owned(anime_title));
    params
}

/// The parameters of a page query: the user's id, the offset, and one more
/// than the limit, so that the store tells whether rows follow.
pub fn list_params(user_id: u64, offset: u8, limit: u8) -> (r: Vec<String>)
    requires
        limit < 255,
    ensures
        r@.len() == 3,
        r@[0]@ == decimal(user_id as nat),
        r@[1]@ == decimal(offset as nat),
        r@[2]@ == decimal(limit as nat + 1),
{
    let mut params: Vec<String> = Vec::new();
    params.push(u64_to_decimal(user_id));
    params.push(u64_to_decimal(offset as u64));
    params.push(u64_to_decimal((limit + 1) as u64));
    params
}

} // verus!
