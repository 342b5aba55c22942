//! The bot's reactions to what users do: which answers to look for and how
//! its affinity towards the user moves.

use vstd::prelude::*;
use crate::affinity::{lowered, raised, level_shift};
use crate::anima::Anima;
use crate::commands::Commands;
use crate::tags::{Filter, Tag};

verus! {

/// How much a user's affinity score drops when they use another bot, as a
/// negative change.
pub const OTHER_BOT_DAMAGE_EXP: i8 = -50;

/// Whether a message is meant for another bot: it starts with `!` or `-`.
pub open spec fn calls_other_bot(content: Seq<char>) -> bool {
    content.len() > 0 && (content[0] == '!' || content[0] == '-')
}

/// Whether `content` is a command for another bot.
pub fn is_other_bot_call(content: &str) -> (other: bool)
    ensures
        other == calls_other_bot(content@),
        other <==> (content@.len() > 0 && (content@[0] == '!' || content@[0] == '-')),
{
    if content.unicode_len() == 0 {
        false
    } else {
        let first = content.get_char(0);
        first == '!' || first == '-'
    }
}

/// The answers to look for about `event` happening to user `user`.
pub fn event_filter(user: u64, event: Tag) -> (filter: Filter)
    ensures
        filter@ == seq![Tag::Anima(user), event],
{
    Filter::new().tag(Tag::Anima(user)).tag(event)
}

/// The answers to look for before carrying out `command` for user `user`.
pub fn command_filter(command: Commands, user: u64) -> (filter: Filter)
    ensures
        filter@ == seq![Tag::Command(command), Tag::Anima(user)],
{
    Filter::new().tag(Tag::Command(command)).tag(Tag::Anima(user))
}

/// How much a successful command raises the user's affinity score: 6 for
/// `play`, 2 for `balance` and `profile`, nothing for the others.
pub open spec fn reward_of(command: Commands) -> u8 {
    match command {
        Commands::Play => 6,
        Commands::Balance => 2,
        Commands::Profile => 2,
        _ => 0,
    }
}

/// The reward for a successful command.
pub fn command_reward(command: Commands) -> (reward: u8)
    ensures
        reward == reward_of(command),
{
    match command {
        Commands::Play => 6,
        Commands::Balance => 2,
        Commands::Profile => 2,
        _ => 0,
    }
}

/// Lowers the affinity of `anima`, the record of user `user`, for using
/// another bot, and returns the answers to look for when this lowered its
/// level.
pub fn punish_other_bot(user: u64, anima: &mut Anima) -> (follow_up: Option<Filter>)
    ensures
        final(anima).money == old(anima).money,
        final(anima).affinity_score == lowered(old(anima).affinity_score, 50),
        follow_up is Some <==> level_shift(old(anima).affinity_score, final(anima).affinity_score) is Some,
        follow_up matches Some(f) ==> f@ == seq![Tag::Anima(user), Tag::UserLevelDown],
{
    let damage: u8 = (0i16 - OTHER_BOT_DAMAGE_EXP as i16) as u8;
    match anima.affinity_sub(damage) {
        crate::affinity::AffinityChange::Changed(_, _) => Some(event_filter(user, Tag::UserLevelDown)),
        crate::affinity::AffinityChange::Unchanged => None,
    }
}

/// Raises the affinity of `anima`, the record of user `user`, by `reward`,
/// and returns the answers to look for when this raised its level.
pub fn reward_user(user: u64, reward: u8, anima: &mut Anima) -> (follow_up: Option<Filter>)
    ensures
        final(anima).money == old(anima).money,
        final(anima).affinity_score == raised(old(anima).affinity_score, reward),
        follow_up is Some <==> level_shift(old(anima).affinity_score, final(anima).affinity_score) is Some,
        follow_up matches Some(f) ==> f@ == seq![Tag::Anima(user), Tag::UserLevelUp],
{
    match anima.affinity_add(reward) {
        crate::affinity::AffinityChange::Changed(_, _) => Some(event_filter(user, Tag::UserLevelUp)),
        crate::affinity::AffinityChange::Unchanged => None,
    }
}

/// A message is meant for another bot exactly when its first character is
/// `!` or `-`; an empty message, or one starting with anything else (a
/// letter, a space, the bot's own prefix `.`), never is.
pub proof fn law_other_bot_prefixes(content: Seq<char>)
    ensures
        calls_other_bot(content) <==> (content.len() > 0 && (content[0] == '!' || content[0] == '-')),
        content.len() > 0 && content[0] != '!' && content[0] != '-' ==> !calls_other_bot(content),
{
}

/// Only `play`, `balance` and `profile` are rewarded: 6 for `play`, 2 for the
/// other two; every other command earns nothing.
pub proof fn law_rewards(command: Commands)
    ensures
        reward_of(command) == (if command is Play { 6u8 } else if command is Balance || command is Profile { 2u8 } else { 0u8 }),
{
}

} // verus!
