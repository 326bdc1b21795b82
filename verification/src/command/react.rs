use vstd::prelude::*;
use vstd::string::*;

use crate::command::CommandSpec;
use crate::command::OptionSpec;
use crate::command::OptionType;

verus! {

/// The "react" slash command: administrator-only, guild-only, with one
/// required text option holding up to twenty space-separated emoji.
pub fn new() -> (r: CommandSpec)
    ensures
        r.name@ == "react"@,
        r.admin_only,
        !r.dm_permission,
        r.options@.len() == 1,
        r.options@[0].kind == OptionType::Text,
        r.options@[0].name@ == "emojis"@,
        r.options@[0].required,
        r.options@[0].max_length is None,
{
    let option = OptionSpec {
        kind: OptionType::Text,
        name: "emojis".to_owned(),
        description: "Up to 20 different emojis, space separated".to_owned(),
        required: true,
        max_length: None,
    };
    let mut options: Vec<OptionSpec> = Vec::new();
    options.push(option);
    CommandSpec {
        name: "react".to_owned(),
        description: "Monkey see, monkey do!".to_owned(),
        admin_only: true,
        dm_permission: false,
        options,
    }
}

} // verus!
