//! The relay synchronizer: the state machine that decides, for one source
//! message, whether its relayed copy is created, edited, withdrawn or left
//! alone, from the facts gathered afresh for each reaction event.
use vstd::prelude::*;

use crate::config::ActiveConfig;
use crate::content::{content_matches, relay_content, RelayContent, SourceMessage};
use crate::reaction::{star_count, star_count_of, StarEvent};

verus! {

/// The transition that the state machine takes.
#[derive(Clone, Copy, Debug, PartialEq, Eq, Structural)]
pub enum RelayRule {
    /// Post the relay and start watching it.
    Create,
    /// Delete the relay and stop watching it.
    Retract,
    /// Edit the relay in place with the new count.
    Update,
    /// Do nothing.
    Keep,
}

/// The transition table, first match wins. Creation asks for the count to
/// equal the threshold exactly: a burst that jumps past it while unwatched
/// creates nothing.
pub open spec fn relay_rule(stars: nat, threshold: nat, is_removal: bool, relayed: bool) -> RelayRule {
    if stars == threshold && !is_removal && !relayed {
        RelayRule::Create
    } else if stars < threshold && is_removal && relayed {
        RelayRule::Retract
    } else if (stars > threshold || is_removal) && relayed {
        RelayRule::Update
    } else {
        RelayRule::Keep
    }
}

/// The watch state after a transition: `Some(n)` while a relay showing a
/// count of `n` is watched, `None` while the message has no watched relay.
pub open spec fn relay_state_after(shown: Option<nat>, stars: nat, threshold: nat, is_removal: bool) -> Option<nat> {
    match relay_rule(stars, threshold, is_removal, shown is Some) {
        RelayRule::Create => Some(stars),
        RelayRule::Retract => None,
        RelayRule::Update => Some(stars),
        RelayRule::Keep => shown,
    }
}

/// Picks the transition for the current star count.
pub fn decide(stars: u64, threshold: u32, is_removal: bool, relayed: bool) -> (r: RelayRule)
    ensures
        r == relay_rule(stars as nat, threshold as nat, is_removal, relayed),
{
    let t = threshold as u64;
    if stars == t && !is_removal && !relayed {
        RelayRule::Create
    } else if stars < t && is_removal && relayed {
        RelayRule::Retract
    } else if (stars > t || is_removal) && relayed {
        RelayRule::Update
    } else {
        RelayRule::Keep
    }
}

/// Everything that the synchronizer reads for one star event, gathered afresh.
pub struct RelayFacts {
    pub event: StarEvent,
    /// The guild's active settings, or `None` where its starboard is off.
    pub config: Option<ActiveConfig>,
    /// The source message as it is now, or `None` where it is gone.
    pub source: Option<SourceMessage>,
    /// Whether the relay channel could be resolved.
    pub relay_channel_found: bool,
    pub source_nsfw: bool,
    pub relay_nsfw: bool,
    /// The relay message that the store holds for the source message.
    pub relayed: Option<u64>,
}

/// What the platform and the store are to do for one star event.
pub enum RelayPlan {
    /// The starboard is off for the guild.
    Off,
    /// The relay channel cannot be found: say so to that channel.
    ReportMissingChannel { channel_id: u64 },
    /// Sensitive content may not go to a channel that is not marked so: say so
    /// to the source channel.
    RefuseNsfw { channel_id: u64 },
    /// Post the relay, then record it in the store (insert if absent).
    Create { relay_channel_id: u64, content: RelayContent },
    /// Delete the relay message, then its store entry.
    Retract { relay_channel_id: u64, relay_message_id: u64 },
    /// Edit the relay message in place.
    Update { relay_channel_id: u64, relay_message_id: u64, content: RelayContent },
    /// Nothing to do.
    Keep,
}

/// The current star count of the facts' source message; 0 where it is gone.
pub open spec fn facts_stars(f: RelayFacts) -> nat {
    match f.source {
        Some(m) => star_count_of(m.reactions@),
        None => 0,
    }
}

/// The plan for a set of facts.
pub open spec fn plan_matches(r: RelayPlan, f: RelayFacts) -> bool {
    match f.config {
        None => r is Off,
        Some(c) => if !f.relay_channel_found {
            r == RelayPlan::ReportMissingChannel { channel_id: c.relay_channel_id }
        } else {
            match relay_rule(
                facts_stars(f),
                c.threshold as nat,
                f.event.is_removal,
                f.relayed is Some,
            ) {
                RelayRule::Create => if f.source_nsfw && !f.relay_nsfw {
                    r == RelayPlan::RefuseNsfw { channel_id: f.event.channel_id }
                } else {
                    &&& f.source is Some
                    &&& r matches RelayPlan::Create { relay_channel_id, content }
                    &&& relay_channel_id == c.relay_channel_id
                    &&& content_matches(
                        content,
                        facts_stars(f) as u64,
                        f.event,
                        f.source->0,
                    )
                },
                RelayRule::Retract => r == RelayPlan::Retract {
                    relay_channel_id: c.relay_channel_id,
                    relay_message_id: f.relayed->0,
                },
                RelayRule::Update => {
                    &&& f.source is Some
                    &&& r matches RelayPlan::Update { relay_channel_id, relay_message_id, content }
                    &&& relay_channel_id == c.relay_channel_id
                    &&& relay_message_id == f.relayed->0
                    &&& content_matches(
                        content,
                        facts_stars(f) as u64,
                        f.event,
                        f.source->0,
                    )
                },
                RelayRule::Keep => r is Keep,
            }
        },
    }
}

/// Decides what to do about one star event: the starboard must be on and its
/// channel resolvable; then the transition table picks the step, and the NSFW
/// guard may refuse a creation (never an edit or a withdrawal).
pub fn quote_reaction(facts: &RelayFacts) -> (r: RelayPlan)
    requires
        facts.config matches Some(c) ==> c.wf(),
    ensures
        plan_matches(r, *facts),
{
    let c = match facts.config {
        None => return RelayPlan::Off,
        Some(c) => c,
    };
    if !facts.relay_channel_found {
        return RelayPlan::ReportMissingChannel { channel_id: c.relay_channel_id };
    }
    let stars = match &facts.source {
        Some(m) => star_count(&m.reactions),
        None => 0,
    };
    let rule = decide(stars, c.threshold, facts.event.is_removal, facts.relayed.is_some());
    match rule {
        RelayRule::Create => {
            if facts.source_nsfw && !facts.relay_nsfw {
                RelayPlan::RefuseNsfw { channel_id: facts.event.channel_id }
            } else {
                match &facts.source {
                    Some(m) => RelayPlan::Create {
                        relay_channel_id: c.relay_channel_id,
                        content: relay_content(stars, &facts.event, m),
                    },
                    None => RelayPlan::Keep,
                }
            }
        },
        RelayRule::Retract => match facts.relayed {
            Some(id) => RelayPlan::Retract {
                relay_channel_id: c.relay_channel_id,
                relay_message_id: id,
            },
            None => RelayPlan::Keep,
        },
        RelayRule::Update => match (&facts.source, facts.relayed) {
            (Some(m), Some(id)) => RelayPlan::Update {
                relay_channel_id: c.relay_channel_id,
                relay_message_id: id,
                content: relay_content(stars, &facts.event, m),
            },
            _ => RelayPlan::Keep,
        },
        RelayRule::Keep => RelayPlan::Keep,
    }
}

/// What follows a posted creation once the store has answered its insert.
#[derive(Clone, Copy, Debug, PartialEq, Eq, Structural)]
pub enum CreationFollowUp {
    /// The insert was taken: the posted relay is the watched one.
    Keep,
    /// Another creation won the race: delete the relay just posted, which no
    /// entry names.
    WithdrawPost { relay_channel_id: u64, relay_message_id: u64 },
}

pub open spec fn follow_up_of(taken: bool, relay_channel_id: u64, posted_message_id: u64) -> CreationFollowUp {
    if taken {
        CreationFollowUp::Keep
    } else {
        CreationFollowUp::WithdrawPost { relay_channel_id, relay_message_id: posted_message_id }
    }
}

/// The second step of a creation: given whether the store took the insert
/// (insert-if-absent) of the entry naming the posted relay, keep the relay or
/// withdraw it, so that racing creations leave one relay message.
pub fn settle_creation(taken: bool, relay_channel_id: u64, posted_message_id: u64) -> (r: CreationFollowUp)
    ensures
        r == follow_up_of(taken, relay_channel_id, posted_message_id),
{
    if taken {
        CreationFollowUp::Keep
    } else {
        CreationFollowUp::WithdrawPost { relay_channel_id, relay_message_id: posted_message_id }
    }
}

} // verus!
