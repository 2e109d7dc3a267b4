//! The config resolver, the NSFW guard, and the parsing of the starboard
//! settings that administrators type in.
use vstd::prelude::*;

use crate::text::{chars_of, decimal_value, is_numeral, numeral_digits, parse_numeral};

verus! {

/// The largest threshold that the store can hold (it keeps a signed 32-bit value).
pub const MAX_THRESHOLD: u64 = 2147483647;

/// A guild's stored starboard settings, as the join of its guild record and its
/// channel record yields them. Either half may be unset.
pub struct GuildStarboardConfig {
    pub guild_id: u64,
    pub threshold: Option<i32>,
    pub relay_channel_id: Option<i64>,
}

/// The settings of a guild whose starboard is active.
#[derive(Clone, Copy, Debug, PartialEq, Eq, Structural)]
pub struct ActiveConfig {
    pub threshold: u32,
    pub relay_channel_id: u64,
}

impl ActiveConfig {
    /// The threshold is a positive integer.
    pub open spec fn wf(self) -> bool {
        self.threshold > 0
    }
}

/// The active settings that a stored record gives. A threshold that is not a
/// positive integer counts as unset, and so does a channel id below zero,
/// which names no channel.
pub open spec fn resolved(row: Option<GuildStarboardConfig>) -> Option<ActiveConfig> {
    match row {
        None => None,
        Some(c) => match (c.threshold, c.relay_channel_id) {
            (Some(t), Some(ch)) => if t > 0 && ch >= 0 {
                Some(ActiveConfig { threshold: t as u32, relay_channel_id: ch as u64 })
            } else {
                None
            },
            _ => None,
        },
    }
}

/// Resolves a guild's stored record (or its absence) into active settings, or
/// `None` where the starboard is off for the guild.
pub fn resolve_config(row: &Option<GuildStarboardConfig>) -> (r: Option<ActiveConfig>)
    ensures
        r == resolved(*row),
        r matches Some(c) ==> c.wf(),
{
    match row {
        None => None,
        Some(c) => match (c.threshold, c.relay_channel_id) {
            (Some(t), Some(ch)) => {
                if t > 0 && ch >= 0 {
                    Some(ActiveConfig { threshold: t as u32, relay_channel_id: ch as u64 })
                } else {
                    None
                }
            },
            _ => None,
        },
    }
}

/// Whether relaying a message is refused because it would carry content marked
/// sensitive into a channel that is not.
pub fn nsfw_blocked(source_nsfw: bool, relay_nsfw: bool) -> (r: bool)
    ensures
        r == (source_nsfw && !relay_nsfw),
{
    source_nsfw && !relay_nsfw
}

/// The threshold that `arg` gives: a numeral whose value is a positive integer
/// the store can hold.
pub open spec fn threshold_of(arg: Seq<char>) -> Option<u32> {
    if is_numeral(arg) && 0 < decimal_value(numeral_digits(arg)) <= MAX_THRESHOLD {
        Some(decimal_value(numeral_digits(arg)) as u32)
    } else {
        None
    }
}

/// Parses the starboard threshold an administrator typed; `None` where it is
/// no integer greater than 0 (or too large to store).
pub fn parse_threshold(arg: &str) -> (r: Option<u32>)
    ensures
        r == threshold_of(arg@),
        r matches Some(t) ==> t > 0,
{
    let cs = chars_of(arg);
    assert(cs@.subrange(0, cs@.len() as int) =~= arg@);
    match parse_numeral(&cs, 0, cs.len(), MAX_THRESHOLD) {
        Some(v) => {
            if v == 0 {
                None
            } else {
                Some(v as u32)
            }
        },
        None => None,
    }
}

/// The channel id that a channel mention `<#id>` names.
pub open spec fn channel_of(arg: Seq<char>) -> Option<u64> {
    if arg.len() >= 3 && arg[0] == '<' && arg[1] == '#' && arg.last() == '>' {
        let inner = arg.subrange(2, arg.len() - 1);
        if is_numeral(inner) && decimal_value(numeral_digits(inner)) <= u64::MAX {
            Some(decimal_value(numeral_digits(inner)) as u64)
        } else {
            None
        }
    } else {
        None
    }
}

/// Parses a channel mention, `<#` then the channel id then `>`; `None` where
/// `arg` is no such mention.
pub fn parse_channel(arg: &str) -> (r: Option<u64>)
    ensures
        r == channel_of(arg@),
{
    let cs = chars_of(arg);
    let n = cs.len();
    if n < 3 || cs[0] != '<' || cs[1] != '#' || cs[n - 1] != '>' {
        return None;
    }
    parse_numeral(&cs, 2, n - 1, u64::MAX)
}

} // verus!
