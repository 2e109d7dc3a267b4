//! The administrators' starboard settings dialogues, as state machines: each
//! step takes what the user did (a reaction, a reply, a timeout) and says what
//! to store and what to answer. The caller waits for the user and does the I/O.
use vstd::prelude::*;

use crate::config::{channel_of, parse_channel, parse_threshold, threshold_of};
use crate::text::same_text;

verus! {

/// How a user answered a yes/no prompt by reaction.
#[derive(Clone, Copy, Debug, PartialEq, Eq, Structural)]
pub enum Confirmation {
    Confirm,
    Decline,
    /// Some other emoji.
    Invalid,
    TimedOut,
}

/// The answer that a reaction gives (`None`: no reaction in time).
pub open spec fn confirmation_of(emoji: Option<Seq<char>>) -> Confirmation {
    match emoji {
        None => Confirmation::TimedOut,
        Some(e) => if e == seq!['\u{2705}'] {
            Confirmation::Confirm
        } else if e == seq!['\u{274c}'] {
            Confirmation::Decline
        } else {
            Confirmation::Invalid
        },
    }
}

/// Reads a reaction to a yes/no prompt: a check mark confirms, a cross declines.
pub fn confirmation(emoji: Option<&str>) -> (r: Confirmation)
    ensures
        r == confirmation_of(
            match emoji {
                Some(e) => Some(e@),
                None => None,
            },
        ),
{
    proof {
        reveal_strlit("\u{2705}");
        reveal_strlit("\u{274c}");
        assert("\u{2705}"@ =~= seq!['\u{2705}']);
        assert("\u{274c}"@ =~= seq!['\u{274c}']);
    }
    match emoji {
        None => Confirmation::TimedOut,
        Some(e) => {
            if same_text(e, "\u{2705}") {
                Confirmation::Confirm
            } else if same_text(e, "\u{274c}") {
                Confirmation::Decline
            } else {
                Confirmation::Invalid
            }
        },
    }
}

/// Where the set-up dialogue stands.
#[derive(Clone, Copy, Debug, PartialEq, Eq, Structural)]
pub enum WizardStep {
    /// Waiting for the user to confirm the set-up.
    Confirm,
    /// Waiting for a threshold.
    Threshold,
    /// Waiting to learn whether the guild already has a relay channel.
    CheckChannel,
    /// Waiting for a channel mention.
    Channel,
    Finished,
}

/// What happened while the dialogue waited.
pub enum WizardInput {
    Reaction(Confirmation),
    /// A reply: its whole text, and its first argument.
    Reply { content: String, first_arg: String },
    /// Whether the guild already has a relay channel.
    ChannelAlreadySet(bool),
    TimedOut,
}

/// What one step of a dialogue does.
pub struct WizardOutcome {
    pub next: WizardStep,
    /// The threshold to store.
    pub set_threshold: Option<u32>,
    /// The relay channel to store.
    pub set_channel: Option<u64>,
    /// What to answer the user.
    pub say: Option<&'static str>,
}

pub open spec fn say_view(s: Option<&'static str>) -> Option<Seq<char>> {
    match s {
        Some(t) => Some(t@),
        None => None,
    }
}

/// The step of the set-up dialogue, as a table.
pub open spec fn wizard_spec(step: WizardStep, input: WizardInput, r: WizardOutcome) -> bool {
    let stay = r.next == step && r.set_threshold is None && r.set_channel is None && r.say is None;
    if step == WizardStep::Finished {
        stay
    } else {
        match input {
            WizardInput::TimedOut | WizardInput::Reaction(Confirmation::TimedOut) => r.next
                == WizardStep::Finished && r.set_threshold is None && r.set_channel is None
                && say_view(r.say) == Some("Timed out"@),
            WizardInput::Reaction(c) => if step == WizardStep::Confirm {
                &&& r.set_threshold is None && r.set_channel is None
                &&& c == Confirmation::Confirm ==> r.next == WizardStep::Threshold && say_view(r.say)
                    == Some(
                    "Sounds good! Please enter a number greater than 0 for the starboard threshold!"@,
                )
                &&& c == Confirmation::Decline ==> r.next == WizardStep::Finished && say_view(r.say)
                    == Some("Aborting..."@)
                &&& c == Confirmation::Invalid ==> r.next == WizardStep::Finished && say_view(r.say)
                    == Some("That's not a valid emoji! Aborting..."@)
            } else {
                stay
            },
            WizardInput::Reply { content, first_arg } => if step == WizardStep::Threshold {
                &&& r.set_channel is None
                &&& match threshold_of(content@) {
                    Some(t) => r.next == WizardStep::CheckChannel && r.set_threshold == Some(t)
                        && r.say is None,
                    None => r.next == WizardStep::Threshold && r.set_threshold is None && say_view(
                        r.say,
                    ) == Some("Please enter an integer greater than 0!"@),
                }
            } else if step == WizardStep::Channel {
                &&& r.set_threshold is None
                &&& match channel_of(first_arg@) {
                    Some(c) => r.next == WizardStep::Finished && r.set_channel == Some(c) && say_view(
                        r.say,
                    ) == Some("Enjoy your new starboard!"@),
                    None => r.next == WizardStep::Channel && r.set_channel is None && say_view(
                        r.say,
                    ) == Some("Please mention a channel in this guild!"@),
                }
            } else {
                stay
            },
            WizardInput::ChannelAlreadySet(set) => if step == WizardStep::CheckChannel {
                &&& r.set_threshold is None && r.set_channel is None
                &&& set ==> r.next == WizardStep::Finished && say_view(r.say) == Some(
                    "You already have a channel set up for quotes! \nIf you want to change it, run `starboard channel <mention>` \nEnjoy your new starboard!"@,
                )
                &&& !set ==> r.next == WizardStep::Channel && say_view(r.say) == Some(
                    "Now please mention the channel you want messages sent to!"@,
                )
            } else {
                stay
            },
        }
    }
}

fn outcome(next: WizardStep, say: &'static str) -> (r: WizardOutcome)
    ensures
        r.next == next,
        r.set_threshold is None,
        r.set_channel is None,
        say_view(r.say) == Some(say@),
{
    WizardOutcome { next, set_threshold: None, set_channel: None, say: Some(say) }
}

/// One step of the starboard set-up dialogue: confirm, then a threshold, then
/// a relay channel unless the guild has one already.
pub fn wizard(step: WizardStep, input: &WizardInput) -> (r: WizardOutcome)
    ensures
        wizard_spec(step, *input, r),
{
    let stay = WizardOutcome { next: step, set_threshold: None, set_channel: None, say: None };
    if step == WizardStep::Finished {
        return stay;
    }
    match input {
        WizardInput::TimedOut => outcome(WizardStep::Finished, "Timed out"),
        WizardInput::Reaction(c) => {
            if *c == Confirmation::TimedOut {
                outcome(WizardStep::Finished, "Timed out")
            } else if step != WizardStep::Confirm {
                stay
            } else if *c == Confirmation::Confirm {
                outcome(
                    WizardStep::Threshold,
                    "Sounds good! Please enter a number greater than 0 for the starboard threshold!",
                )
            } else if *c == Confirmation::Decline {
                outcome(WizardStep::Finished, "Aborting...")
            } else {
                outcome(WizardStep::Finished, "That's not a valid emoji! Aborting...")
            }
        },
        WizardInput::Reply { content, first_arg } => {
            if step == WizardStep::Threshold {
                match parse_threshold(content.as_str()) {
                    Some(t) => WizardOutcome {
                        next: WizardStep::CheckChannel,
                        set_threshold: Some(t),
                        set_channel: None,
                        say: None,
                    },
                    None => outcome(WizardStep::Threshold, "Please enter an integer greater than 0!"),
                }
            } else if step == WizardStep::Channel {
                match parse_channel(first_arg.as_str()) {
                    Some(c) => WizardOutcome {
                        next: WizardStep::Finished,
                        set_threshold: None,
                        set_channel: Some(c),
                        say: Some("Enjoy your new starboard!"),
                    },
                    None => outcome(WizardStep::Channel, "Please mention a channel in this guild!"),
                }
            } else {
                stay
            }
        },
        WizardInput::ChannelAlreadySet(set) => {
            if step != WizardStep::CheckChannel {
                stay
            } else if *set {
                outcome(
                    WizardStep::Finished,
                    "You already have a channel set up for quotes! \nIf you want to change it, run `starboard channel <mention>` \nEnjoy your new starboard!",
                )
            } else {
                outcome(
                    WizardStep::Channel,
                    "Now please mention the channel you want messages sent to!",
                )
            }
        },
    }
}

/// What the deactivation prompt does with the user's answer: whether to clear
/// the guild's threshold and relay channel, and what to answer.
pub fn deactivate(answer: Confirmation) -> (r: (bool, &'static str))
    ensures
        r.0 == (answer == Confirmation::Confirm),
        answer == Confirmation::Confirm ==> r.1@ == "The starboard has been deactivated"@,
        answer == Confirmation::Decline ==> r.1@ == "Aborting..."@,
        answer == Confirmation::Invalid ==> r.1@ == "That's not a valid emoji! Aborting..."@,
        answer == Confirmation::TimedOut ==> r.1@ == "Timed out"@,
{
    match answer {
        Confirmation::Confirm => (true, "The starboard has been deactivated"),
        Confirmation::Decline => (false, "Aborting..."),
        Confirmation::Invalid => (false, "That's not a valid emoji! Aborting..."),
        Confirmation::TimedOut => (false, "Timed out"),
    }
}

/// What the `threshold` command answers, and the threshold to store if any.
pub fn threshold(arg: &str) -> (r: (Option<u32>, &'static str))
    ensures
        r.0 == threshold_of(arg@),
        r.0 is Some ==> r.1@ == "New threshold sucessfully set!"@,
        r.0 is None ==> r.1@ == "Please enter a number greater than 0!"@,
{
    match parse_threshold(arg) {
        Some(t) => (Some(t), "New threshold sucessfully set!"),
        None => (None, "Please enter a number greater than 0!"),
    }
}

/// What the `channel` command answers, and the relay channel to store if any.
pub fn channel(arg: &str) -> (r: (Option<u64>, &'static str))
    ensures
        r.0 == channel_of(arg@),
        r.0 is Some ==> r.1@ == "New starboard channel sucessfully set!"@,
        r.0 is None ==> r.1@ == "Please mention a channel!"@,
{
    match parse_channel(arg) {
        Some(c) => (Some(c), "New starboard channel sucessfully set!"),
        None => (None, "Please mention a channel!"),
    }
}

} // verus!
