//! The emoji filter and the count snapshot: which reaction events concern the
//! relay engine, and how many star reactions a message carries right now.
use vstd::prelude::*;

use crate::text::same_text;

verus! {

/// The emoji of a reaction: a plain Unicode emoji, or a guild's custom one.
pub enum ReactionEmoji {
    Unicode(String),
    Custom { id: u64, name: Option<String>, animated: bool },
}

/// A reaction added to or removed from a message, as the gateway reports it.
pub struct ReactionEvent {
    pub guild_id: Option<u64>,
    pub channel_id: u64,
    pub message_id: u64,
    pub user_id: Option<u64>,
    pub emoji: ReactionEmoji,
}

/// A star reaction event in a guild, normalized for the relay engine.
#[derive(Clone, Copy, Debug, PartialEq, Eq, Structural)]
pub struct StarEvent {
    pub guild_id: u64,
    pub channel_id: u64,
    pub message_id: u64,
    pub is_removal: bool,
}

/// One emoji's tally on a message.
pub struct ReactionCount {
    pub emoji: ReactionEmoji,
    pub count: u64,
}

/// The emoji the relay engine follows: a single star.
pub open spec fn star_text() -> Seq<char> {
    seq!['\u{2b50}']
}

pub open spec fn is_star_spec(e: ReactionEmoji) -> bool {
    match e {
        ReactionEmoji::Unicode(s) => s@ == star_text(),
        ReactionEmoji::Custom { .. } => false,
    }
}

/// The normalized event for `e`, or `None` where it is no star reaction in a guild.
pub open spec fn star_event_of(e: ReactionEvent, remove: bool) -> Option<StarEvent> {
    if is_star_spec(e.emoji) && e.guild_id is Some {
        Some(
            StarEvent {
                guild_id: e.guild_id->0,
                channel_id: e.channel_id,
                message_id: e.message_id,
                is_removal: remove,
            },
        )
    } else {
        None
    }
}

/// The count of the first star tally in `rs`, or 0 where there is none.
pub open spec fn star_count_of(rs: Seq<ReactionCount>) -> nat
    decreases rs.len(),
{
    if rs.len() == 0 {
        0
    } else if is_star_spec(rs[0].emoji) {
        rs[0].count as nat
    } else {
        star_count_of(rs.drop_first())
    }
}

/// Whether `e` is the star emoji that the relay engine follows.
pub fn is_star(e: &ReactionEmoji) -> (r: bool)
    ensures
        r == is_star_spec(*e),
{
    proof {
        reveal_strlit("\u{2b50}");
        assert("\u{2b50}"@ =~= star_text());
    }
    match e {
        ReactionEmoji::Unicode(s) => same_text(s.as_str(), "\u{2b50}"),
        ReactionEmoji::Custom { .. } => false,
    }
}

/// Passes on star reactions in a guild, normalized; drops every other event.
pub fn dispatch_reaction(event: &ReactionEvent, remove: bool) -> (r: Option<StarEvent>)
    ensures
        r == star_event_of(*event, remove),
{
    if !is_star(&event.emoji) {
        return None;
    }
    match event.guild_id {
        Some(guild_id) => Some(
            StarEvent {
                guild_id,
                channel_id: event.channel_id,
                message_id: event.message_id,
                is_removal: remove,
            },
        ),
        None => None,
    }
}

/// The number of star reactions in a message's tallies; a message that is gone
/// has no tallies, and so a count of 0.
pub fn star_count(reactions: &Vec<ReactionCount>) -> (r: u64)
    ensures
        r as nat == star_count_of(reactions@),
{
    let mut i: usize = 0;
    assert(reactions@.subrange(0, reactions@.len() as int) =~= reactions@);
    while i < reactions.len()
        invariant
            i <= reactions.len(),
            star_count_of(reactions@) == star_count_of(reactions@.subrange(i as int, reactions@.len() as int)),
        decreases reactions.len() - i,
    {
        let ghost rest = reactions@.subrange(i as int, reactions@.len() as int);
        assert(rest[0] == reactions@[i as int]);
        if is_star(&reactions[i].emoji) {
            return reactions[i].count;
        }
        assert(rest.drop_first() =~= reactions@.subrange(i + 1, reactions@.len() as int));
        i = i + 1;
    }
    0
}

} // verus!
