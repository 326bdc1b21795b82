use vstd::prelude::*;
use vstd::string::*;

use crate::command::CommandSpec;
use crate::command::OptionSpec;
use crate::command::OptionType;

verus! {

/// The "speak" slash command: administrator-only, guild-only, with one
/// required text option capped at two thousand characters and one optional
/// flag asking for a reply to the latest channel message.
pub fn new() -> (r: CommandSpec)
    ensures
        r.name@ == "speak"@,
        r.admin_only,
        !r.dm_permission,
        r.options@.len() == 2,
        r.options@[0].kind == OptionType::Text,
        r.options@[0].name@ == "content"@,
        r.options@[0].required,
        r.options@[0].max_length == Some(2000u16),
        r.options@[1].kind == OptionType::Flag,
        r.options@[1].name@ == "reply"@,
        !r.options@[1].required,
{
    let content = OptionSpec {
        kind: OptionType::Text,
        name: "content".to_owned(),
        description: "What should the monkey say?".to_owned(),
        required: true,
        max_length: Some(2000),
    };
    let reply = OptionSpec {
        kind: OptionType::Flag,
        name: "reply".to_owned(),
        description: "Whether to reply to the last sent message".to_owned(),
        required: false,
        max_length: None,
    };
    let mut options: Vec<OptionSpec> = Vec::new();
    options.push(content);
    options.push(reply);
    CommandSpec {
        name: "speak".to_owned(),
        description: "Speak, monkey!".to_owned(),
        admin_only: true,
        dm_permission: false,
        options,
    }
}

} // verus!
