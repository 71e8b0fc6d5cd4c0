//! The answer to `/anime`: a select menu of the first hits.
use vstd::prelude::*;
use crate::commands::anime::MALAnime;
use crate::text::{i64_to_decimal, owned, same_text, signed_decimal};

verus! {

/// One choice of a select menu: the text shown and the value sent back.
pub struct SelectOption {
    pub label: String,
    pub value: String,
}

/// A string select menu.
pub struct SelectMenu {
    pub custom_id: String,
    pub placeholder: String,
    pub min_values: u8,
    pub max_values: u8,
    pub options: Vec<SelectOption>,
}

/// How many hits the select menu offers at most.
pub const MENU_SIZE: usize = 7;

/// Whether a slash command is the search, `/anime`.
pub fn is_search_command(name: &str) -> (r: bool)
    ensures
        r == (name@ == "anime"@),
{
    same_text(name, "anime")
}

/// The number of choices that a menu built from `n` hits offers.
pub open spec fn menu_len(n: nat) -> nat {
    if n < MENU_SIZE {
        n
    } else {
        MENU_SIZE as nat
    }
}

/// The select menu for a search: the first seven hits, each shown by its title
/// and sent back as its id's decimal numeral.
pub fn anime_select(results: &Vec<MALAnime>) -> (r: SelectMenu)
    ensures
        r.custom_id@ == "anime_select"@,
        r.placeholder@ == "Which one? >_<"@,
        r.min_values == 0,
        r.max_values == 1,
        r.options@.len() == menu_len(results@.len()),
        results@.len() < 7 ==> r.options@.len() == results@.len(),
        results@.len() >= 7 ==> r.options@.len() == 7,
        forall|i: int|
            0 <= i < r.options@.len() ==> (#[trigger] r.options@[i]).label@ == results@[i].title@
                && r.options@[i].value@ == signed_decimal(results@[i].id as int),
{
    let mut options: Vec<SelectOption> = Vec::new();
    let mut i: usize = 0;
    while i < results.len() && i < MENU_SIZE
        invariant
            i <= results.len(),
            i <= MENU_SIZE,
            options@.len() == i,
            forall|j: int|
                0 <= j < i ==> (#[trigger] options@[j]).label@ == results@[j].title@
                    && options@[j].value@ == signed_decimal(results@[j].id as int),
        decreases results.len() - i,
    {
        let hit = &results[i];
        options.push(
            SelectOption {
                label: owned(hit.title.as_str()),
                value: i64_to_decimal(hit.id),
            },
        );
        i = i + 1;
    }
    SelectMenu {
        custom_id: owned("anime_select"),
        placeholder: owned("Which one? >_<"),
        min_values: 0,
        max_values: 1,
        options,
    }
}

} // verus!
