//! The content formatter: the text and the card of a relayed message.
use vstd::prelude::*;

use crate::reaction::{ReactionCount, StarEvent};
use crate::text::{decimal, ends_with, push_decimal, text_ends_with};

verus! {

/// The accent colour of a relay card.
pub const RELAY_COLOR: u32 = 0xfabe21;

/// What the relay engine reads of a source message, fetched fresh.
pub struct SourceMessage {
    pub author_name: String,
    /// The author's avatar, or the platform's default avatar where none is set.
    pub author_avatar_url: String,
    pub content: String,
    pub attachment_urls: Vec<String>,
    pub reactions: Vec<ReactionCount>,
}

/// The card shown with a relayed message.
pub struct RelayEmbed {
    pub color: u32,
    pub author_name: String,
    pub author_icon_url: String,
    pub description: String,
    /// A preview of the first attachment, where it is an image.
    pub image_url: Option<String>,
    pub source_field_name: String,
    pub source_field_value: String,
}

/// A relayed message: its line of text and its card.
pub struct RelayContent {
    pub text: String,
    pub embed: RelayEmbed,
}

/// The link that jumps to a message.
pub open spec fn message_url(guild_id: u64, channel_id: u64, message_id: u64) -> Seq<char> {
    "https://discordapp.com/channels/"@ + decimal(guild_id as nat) + "/"@ + decimal(
        channel_id as nat,
    ) + "/"@ + decimal(message_id as nat)
}

/// The line of a relayed message: the star, the count, the source channel's
/// mention and the source message's id.
pub open spec fn relay_line(stars: u64, channel_id: u64, message_id: u64) -> Seq<char> {
    "\u{2b50} "@ + decimal(stars as nat) + " <#"@ + decimal(channel_id as nat) + "> ID: "@
        + decimal(message_id as nat)
}

/// Whether a link points at a picture that the card can preview.
pub open spec fn is_image_url(url: Seq<char>) -> bool {
    ends_with(url, ".png"@) || ends_with(url, ".jpeg"@) || ends_with(url, ".jpg"@) || ends_with(
        url,
        ".webp"@,
    ) || ends_with(url, ".gif"@)
}

/// The preview of a message's attachments: the first one, where it is a picture.
pub open spec fn preview_of(urls: Seq<String>) -> Option<Seq<char>> {
    if urls.len() > 0 && is_image_url(urls[0]@) {
        Some(urls[0]@)
    } else {
        None
    }
}

pub open spec fn option_view(o: Option<String>) -> Option<Seq<char>> {
    match o {
        Some(s) => Some(s@),
        None => None,
    }
}

/// The link that jumps to a message.
pub fn get_message_url(guild_id: u64, channel_id: u64, message_id: u64) -> (r: String)
    ensures
        r@ == message_url(guild_id, channel_id, message_id),
{
    let mut r = String::from_str("https://discordapp.com/channels/");
    push_decimal(&mut r, guild_id);
    r.append("/");
    push_decimal(&mut r, channel_id);
    r.append("/");
    push_decimal(&mut r, message_id);
    r
}

/// The line of text of a relayed message.
pub fn relay_text(stars: u64, channel_id: u64, message_id: u64) -> (r: String)
    ensures
        r@ == relay_line(stars, channel_id, message_id),
{
    let mut r = String::from_str("\u{2b50} ");
    push_decimal(&mut r, stars);
    r.append(" <#");
    push_decimal(&mut r, channel_id);
    r.append("> ID: ");
    push_decimal(&mut r, message_id);
    r
}

/// Whether a link points at a picture that the card can preview.
pub fn image_url(url: &str) -> (r: bool)
    ensures
        r == is_image_url(url@),
{
    text_ends_with(url, ".png") || text_ends_with(url, ".jpeg") || text_ends_with(url, ".jpg")
        || text_ends_with(url, ".webp") || text_ends_with(url, ".gif")
}

/// The card of a relayed message: its author, its text, a preview of its first
/// attachment where that is a picture, and a link back to it.
pub fn get_starboard_embed(event: &StarEvent, source: &SourceMessage) -> (r: RelayEmbed)
    ensures
        r.color == RELAY_COLOR,
        r.author_name@ == source.author_name@,
        r.author_icon_url@ == source.author_avatar_url@,
        r.description@ == source.content@,
        option_view(r.image_url) == preview_of(source.attachment_urls@),
        r.source_field_name@ == "Source"@,
        r.source_field_value@ == "[Jump!]("@ + message_url(
            event.guild_id,
            event.channel_id,
            event.message_id,
        ) + ")"@,
{
    let image_url = if source.attachment_urls.len() > 0 && image_url(
        source.attachment_urls[0].as_str(),
    ) {
        Some(source.attachment_urls[0].clone())
    } else {
        None
    };
    let url = get_message_url(event.guild_id, event.channel_id, event.message_id);
    let mut jump = String::from_str("[Jump!](");
    jump.append(url.as_str());
    jump.append(")");
    RelayEmbed {
        color: RELAY_COLOR,
        author_name: source.author_name.clone(),
        author_icon_url: source.author_avatar_url.clone(),
        description: source.content.clone(),
        image_url,
        source_field_name: String::from_str("Source"),
        source_field_value: jump,
    }
}

/// The relayed form of `source` at a count of `stars`.
pub open spec fn content_matches(
    c: RelayContent,
    stars: u64,
    event: StarEvent,
    source: SourceMessage,
) -> bool {
    &&& c.text@ == relay_line(stars, event.channel_id, event.message_id)
    &&& c.embed.color == RELAY_COLOR
    &&& c.embed.author_name@ == source.author_name@
    &&& c.embed.author_icon_url@ == source.author_avatar_url@
    &&& c.embed.description@ == source.content@
    &&& option_view(c.embed.image_url) == preview_of(source.attachment_urls@)
    &&& c.embed.source_field_name@ == "Source"@
    &&& c.embed.source_field_value@ == "[Jump!]("@ + message_url(
        event.guild_id,
        event.channel_id,
        event.message_id,
    ) + ")"@
}

/// Formats the relayed form of `source` at a count of `stars`.
pub fn relay_content(stars: u64, event: &StarEvent, source: &SourceMessage) -> (r: RelayContent)
    ensures
        content_matches(r, stars, *event, *source),
{
    RelayContent {
        text: relay_text(stars, event.channel_id, event.message_id),
        embed: get_starboard_embed(event, source),
    }
}

} // verus!
