//! Plain records that the bot reads from its credentials file and from the web
//! services it queries.
use vstd::prelude::*;

verus! {

/// The bot's credentials file.
pub struct Credentials {
    pub bot_token: String,
    pub default_prefix: String,
    pub db_connection: String,
    pub lavalink_host: String,
    pub lavalink_auth: String,
    pub tenor_key: String,
    pub spotify_client_id: String,
    pub spotify_client_secret: String,
}

/// The latest commit of the bot's repository.
pub struct CommitResponse {
    pub sha: String,
    pub html_url: String,
}

/// The cover pictures of an anime or manga entry.
pub struct MainPicture {
    pub medium: String,
    pub large: String,
}

/// One rendition of a gif.
pub struct TenorMedia {
    pub url: String,
}

/// One gif of a search: its page, and its renditions by format name.
pub struct GifResult {
    pub url: String,
    pub media: Vec<std::collections::HashMap<String, TenorMedia>>,
}

} // verus!
