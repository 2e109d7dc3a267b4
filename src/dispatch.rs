//! Finding the command that a message calls: by the guild's prefix, or by
//! mentioning the bot.
use vstd::prelude::*;

use crate::state::{BotId, PrefixMap};
use crate::text::{chars_of, decimal, push_decimal, same_text};
use crate::words::{get_command_length, get_message_word, words};

verus! {

/// A command call found in a message.
pub struct CommandCall {
    /// The command's name.
    pub name: String,
    /// The index of the message's first argument word.
    pub args_from: usize,
    /// Whether the bot was called by mention rather than by prefix.
    pub by_mention: bool,
}

/// The mentions of the bot: `<@id>` and `<@!id>`.
pub open spec fn bot_mention(bot: BotId, word: Seq<char>) -> bool {
    word == "<@"@ + decimal(bot.0 as nat) + ">"@ || word == "<@!"@ + decimal(bot.0 as nat) + ">"@
}

pub open spec fn starts_with(s: Seq<char>, prefix: Seq<char>) -> bool {
    prefix.len() <= s.len() && s.subrange(0, prefix.len() as int) == prefix
}

/// The call in `content` where the prefix in force is `prefix`: the bot's
/// mention then the command's name; or a first word made of the prefix and
/// the command's name.
pub open spec fn call_of(bot: BotId, prefix: Seq<char>, content: Seq<char>) -> Option<(Seq<char>, nat, bool)> {
    let ws = words(content);
    if ws.len() == 0 {
        None
    } else if bot_mention(bot, ws[0]) {
        if ws.len() >= 2 {
            Some((ws[1], 2nat, true))
        } else {
            None
        }
    } else if starts_with(ws[0], prefix) {
        Some((ws[0].subrange(prefix.len() as int, ws[0].len() as int), 1nat, false))
    } else {
        None
    }
}

pub open spec fn call_view(c: Option<CommandCall>) -> Option<(Seq<char>, nat, bool)> {
    match c {
        Some(c) => Some((c.name@, c.args_from as nat, c.by_mention)),
        None => None,
    }
}

fn is_bot_mention(bot: BotId, word: &str) -> (r: bool)
    ensures
        r == bot_mention(bot, word@),
{
    let mut plain = String::from_str("<@");
    push_decimal(&mut plain, bot.0);
    plain.append(">");
    let mut nick = String::from_str("<@!");
    push_decimal(&mut nick, bot.0);
    nick.append(">");
    same_text(word, plain.as_str()) || same_text(word, nick.as_str())
}

fn text_starts_with(s: &str, prefix: &str) -> (r: bool)
    ensures
        r == starts_with(s@, prefix@),
{
    let x = chars_of(s);
    let y = chars_of(prefix);
    if y.len() > x.len() {
        return false;
    }
    let mut i: usize = 0;
    while i < y.len()
        invariant
            x@ == s@,
            y@ == prefix@,
            y.len() <= x.len(),
            i <= y.len(),
            forall|j: int| 0 <= j < i ==> x@[j] == y@[j],
        decreases y.len() - i,
    {
        if x[i] != y[i] {
            assert(s@.subrange(0, prefix@.len() as int)[i as int] != prefix@[i as int]);
            return false;
        }
        i = i + 1;
    }
    assert(s@.subrange(0, prefix@.len() as int) =~= prefix@);
    true
}

/// Finds the command that a message calls in a guild, by the guild's prefix
/// (its custom one, else `default_prefix`) or by the bot's mention.
pub fn get_command_name(
    prefixes: &PrefixMap,
    bot: BotId,
    guild_id: u64,
    default_prefix: &str,
    content: &str,
) -> (r: Option<CommandCall>)
    ensures
        call_view(r) == call_of(
            bot,
            if prefixes@.contains_key(guild_id) {
                prefixes@[guild_id]
            } else {
                default_prefix@
            },
            content@,
        ),
{
    let n = get_command_length(content);
    if n == 0 {
        return None;
    }
    let first = get_message_word(content, 0);
    if is_bot_mention(bot, first) {
        if n >= 2 {
            let name = String::from_str(get_message_word(content, 1));
            return Some(CommandCall { name, args_from: 2, by_mention: true });
        }
        return None;
    }
    let prefix = prefixes.dynamic_prefix(guild_id, default_prefix);
    if !text_starts_with(first, prefix.as_str()) {
        return None;
    }
    let p = chars_of(prefix.as_str()).len();
    let len = chars_of(first).len();
    let name = String::from_str(first.substring_char(p, len));
    Some(CommandCall { name, args_from: 1, by_mention: false })
}

} // verus!
