//! Text that Discord's markdown shows in a particular way.

use vstd::prelude::*;

verus! {

/// A green line of a diff block: "```diff\n+" then `text` then "\n```".
pub fn positive(text: &str) -> (block: String)
    ensures
        block@ == "```diff\n+"@ + text@ + "\n```"@,
{
    let mut block = String::from_str("```diff\n+");
    block.append(text);
    block.append("\n```");
    block
}

/// A red line of a diff block: "```diff\n-" then `text` then "\n```".
pub fn negative(text: &str) -> (block: String)
    ensures
        block@ == "```diff\n-"@ + text@ + "\n```"@,
{
    let mut block = String::from_str("```diff\n-");
    block.append(text);
    block.append("\n```");
    block
}

/// A code block: "```\n" then `text` then "\n```".
pub fn code(text: &str) -> (block: String)
    ensures
        block@ == "```\n"@ + text@ + "\n```"@,
{
    let mut block = String::from_str("```\n");
    block.append(text);
    block.append("\n```");
    block
}

} // verus!
