//! The `show` slash command, which shows the caller's saved list.
use vstd::prelude::*;
use crate::commands::anime::CommandSpec;
use crate::text::owned;

verus! {

/// The definition of `/show`: no options.
pub fn register() -> (r: CommandSpec)
    ensures
        r.name@ == "show"@,
        r.description@ == "Your list~? Leave it to Rengo-chan to show you nicely!"@,
        r.options@.len() == 0,
{
    CommandSpec {
        name: owned("show"),
        description: owned("Your list~? Leave it to Rengo-chan to show you nicely!"),
        options: Vec::new(),
    }
}

} // verus!
