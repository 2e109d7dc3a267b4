use jester::command_utils::{check_mention_prefix, get_allowed_commands, truncate};
use jester::dispatch::get_command_name;
use jester::errors::{JesterError, PermissionType};
use jester::records::{Credentials, GifResult};
use jester::state::{fetch_prefixes, guild_pruner, BotId, CommandNameMap, EmergencyCommands, PrefixMap, PubCreds, ReactionImageCache, SerenityHandler};
use jester::wizard::{channel, confirmation, deactivate, threshold, wizard, Confirmation, WizardInput, WizardStep};
use jester::words::{get_command, get_command_length, get_message_word, get_split_string, join_string};

#[test]
fn split_words() {
    assert_eq!(get_split_string("  a bb\tccc \n d  "), vec!["a", "bb", "ccc", "d"]);
    assert!(get_split_string(" \u{3000}\t").is_empty());
    assert_eq!(get_split_string("x\u{a0}y"), vec!["x", "y"]);
    assert_eq!(get_command_length("!mock  this text"), 3);
    assert_eq!(get_command_length(""), 0);
    assert_eq!(get_message_word("!say hello  world", 2), "world");
}

#[test]
fn command_name_after_prefix() {
    assert_eq!(get_command("!ping now", 1), "ping");
    assert_eq!(get_command("  j?help me", 2), "help");
    assert_eq!(get_command("\u{2b50}star x", 3), "star");
    assert_eq!(get_command("ab", 2), "");
}

#[test]
fn joined_arguments() {
    assert_eq!(join_string("!cmd a b  c", 0), "a b c");
    assert_eq!(join_string("!cmd a b  c", 1), "b c");
    assert_eq!(join_string("!cmd a b  c", 3), "");
    assert_eq!(join_string("!cmd", 0), "");
}

#[test]
fn truncation() {
    assert_eq!(truncate("", 3), "");
    assert_eq!(truncate("one two", 0), "");
    assert_eq!(truncate("   ", 2), "");
    assert_eq!(truncate("  one two  ", 2), "one two");
    assert_eq!(truncate("  one two  ", 5), "one two");
    assert_eq!(truncate(" one  two three four", 2), "one  two...");
    assert_eq!(truncate("one", 1), "one");
}

#[test]
fn emergency_command_list() {
    assert_eq!(get_allowed_commands(), vec!["prefix", "help", "restore", "resetprefix"]);
    let e = EmergencyCommands::new();
    assert!(e.permits(true, "restore"));
    assert!(!e.permits(true, "mock"));
    assert!(e.permits(false, "mock"));
}

#[test]
fn builtin_command_names() {
    let names = CommandNameMap { names: vec!["ping".to_string(), "mock".to_string()] };
    assert!(names.contains("mock"));
    assert!(!names.contains("mocks"));
}

#[test]
fn error_wording() {
    assert_eq!(
        PermissionType::UserPerm("administrator").message(),
        "You can't execute this command because you do not have the `administrator` permission!\n"
    );
    assert_eq!(
        PermissionType::Mention("ban", "admin").message(),
        "I can't ban an admin! Please demote the user and try again"
    );
    assert_eq!(
        PermissionType::External("manage roles").message(),
        "The bot can't execute this because it doesn't have the `manage roles` permission! Please grant it on the bot's role."
    );
    assert_eq!(JesterError::MissingError("user").message(), "Please provide a user!");
    assert_eq!(
        JesterError::UnsuccessfulError("Kick").message(),
        "Kick unsuccessful. The user must be in the guild and the bot must be above the user's role!"
    );
    assert_eq!(
        JesterError::PermissionError(PermissionType::UserPerm("manage messages")).message(),
        PermissionType::UserPerm("manage messages").message()
    );
}

#[test]
fn prefix_cache() {
    let mut p = PrefixMap::new();
    assert_eq!(p.dynamic_prefix(5, "j!"), "j!");
    p.insert(5, "?".to_string());
    assert_eq!(p.get(5), Some("?".to_string()));
    assert_eq!(p.dynamic_prefix(5, "j!"), "?");
    assert_eq!(p.dynamic_prefix(6, "j!"), "j!");
    p.remove(5);
    assert_eq!(p.get(5), None);
}

#[test]
fn handler_starts_loops_once() {
    let mut h = SerenityHandler::new();
    assert!(h.cache_ready());
    assert!(!h.cache_ready());
    assert!(!h.run_loop);
}

#[test]
fn pruner_selects_departed_guilds() {
    assert_eq!(guild_pruner(&vec![1, 2, 3, -4], &vec![2, 9]), vec![1, 3, -4]);
    assert!(guild_pruner(&vec![], &vec![1]).is_empty());
}

#[test]
fn public_credentials() {
    let c = Credentials {
        bot_token: "t".to_string(),
        default_prefix: "j!".to_string(),
        db_connection: "d".to_string(),
        lavalink_host: "h".to_string(),
        lavalink_auth: "a".to_string(),
        tenor_key: "k".to_string(),
        spotify_client_id: "i".to_string(),
        spotify_client_secret: "s".to_string(),
    };
    let p = PubCreds::from_credentials(&c);
    assert_eq!(p.default_prefix, "j!");
    assert_eq!(p.tenor, "k");
}

fn gif(url: &str) -> GifResult {
    GifResult { url: url.to_string(), media: vec![] }
}

#[test]
fn image_cache_skips_last_shown() {
    let mut cache = ReactionImageCache::new();
    let gifs = vec![gif("a"), gif("b"), gif("b")];
    let same = cache.check_image_cache(1, "hug", gifs);
    assert_eq!(same.len(), 3);
    cache.add_to_cache(1, "hug".to_string(), "b".to_string());
    assert_eq!(cache.get(1, "hug"), Some("b".to_string()));
    assert_eq!(cache.get(2, "hug"), None);
    let left = cache.check_image_cache(1, "hug", vec![gif("a"), gif("b"), gif("b")]);
    let urls: Vec<&str> = left.iter().map(|g| g.url.as_str()).collect();
    assert_eq!(urls, vec!["a", "b"]);
    cache.add_to_cache(1, "hug".to_string(), "c".to_string());
    assert_eq!(cache.get(1, "hug"), Some("c".to_string()));
    assert_eq!(cache.check_image_cache(1, "hug", vec![gif("a")]).len(), 1);
}

fn reply(text: &str) -> WizardInput {
    let first = text.split(' ').next().unwrap_or("").to_string();
    WizardInput::Reply { content: text.to_string(), first_arg: first }
}

#[test]
fn setup_dialogue() {
    let o = wizard(WizardStep::Confirm, &WizardInput::Reaction(Confirmation::Confirm));
    assert_eq!(o.next, WizardStep::Threshold);
    assert_eq!(o.say, Some("Sounds good! Please enter a number greater than 0 for the starboard threshold!"));
    let o = wizard(WizardStep::Threshold, &reply("zero"));
    assert_eq!(o.next, WizardStep::Threshold);
    assert_eq!(o.say, Some("Please enter an integer greater than 0!"));
    let o = wizard(WizardStep::Threshold, &reply("0"));
    assert_eq!(o.set_threshold, None);
    let o = wizard(WizardStep::Threshold, &reply("4"));
    assert_eq!(o.next, WizardStep::CheckChannel);
    assert_eq!(o.set_threshold, Some(4));
    let o = wizard(WizardStep::CheckChannel, &WizardInput::ChannelAlreadySet(false));
    assert_eq!(o.next, WizardStep::Channel);
    let o = wizard(WizardStep::Channel, &reply("general"));
    assert_eq!(o.say, Some("Please mention a channel in this guild!"));
    let o = wizard(WizardStep::Channel, &reply("<#55> please"));
    assert_eq!(o.next, WizardStep::Finished);
    assert_eq!(o.set_channel, Some(55));
    assert_eq!(o.say, Some("Enjoy your new starboard!"));
}

#[test]
fn setup_dialogue_endings() {
    let o = wizard(WizardStep::Confirm, &WizardInput::Reaction(Confirmation::Decline));
    assert_eq!((o.next, o.say), (WizardStep::Finished, Some("Aborting...")));
    let o = wizard(WizardStep::Confirm, &WizardInput::Reaction(Confirmation::Invalid));
    assert_eq!(o.say, Some("That's not a valid emoji! Aborting..."));
    let o = wizard(WizardStep::Threshold, &WizardInput::TimedOut);
    assert_eq!((o.next, o.say), (WizardStep::Finished, Some("Timed out")));
    let o = wizard(WizardStep::CheckChannel, &WizardInput::ChannelAlreadySet(true));
    assert_eq!(o.next, WizardStep::Finished);
    let o = wizard(WizardStep::Finished, &reply("3"));
    assert_eq!((o.next, o.say, o.set_threshold), (WizardStep::Finished, None, None));
}

#[test]
fn confirmation_reactions() {
    assert_eq!(confirmation(Some("\u{2705}")), Confirmation::Confirm);
    assert_eq!(confirmation(Some("\u{274c}")), Confirmation::Decline);
    assert_eq!(confirmation(Some("x")), Confirmation::Invalid);
    assert_eq!(confirmation(None), Confirmation::TimedOut);
    assert_eq!(deactivate(Confirmation::Confirm), (true, "The starboard has been deactivated"));
    assert_eq!(deactivate(Confirmation::TimedOut), (false, "Timed out"));
}

#[test]
fn settings_commands() {
    assert_eq!(threshold("5"), (Some(5), "New threshold sucessfully set!"));
    assert_eq!(threshold("five"), (None, "Please enter a number greater than 0!"));
    assert_eq!(channel("<#9>"), (Some(9), "New starboard channel sucessfully set!"));
    assert_eq!(channel("9"), (None, "Please mention a channel!"));
}

#[test]
fn command_calls() {
    let mut p = PrefixMap::new();
    p.insert(7, "?".to_string());
    let bot = BotId(42);
    let c = get_command_name(&p, bot, 7, "j!", "  ?starboard wizard").unwrap();
    assert_eq!((c.name.as_str(), c.args_from, c.by_mention), ("starboard", 1, false));
    assert!(get_command_name(&p, bot, 7, "j!", "j!starboard").is_none());
    let c = get_command_name(&p, bot, 8, "j!", "j!ping").unwrap();
    assert_eq!(c.name, "ping");
    let c = get_command_name(&p, bot, 8, "j!", "<@!42> restore now").unwrap();
    assert_eq!((c.name.as_str(), c.args_from, c.by_mention), ("restore", 2, true));
    assert!(get_command_name(&p, bot, 8, "j!", "<@43> restore").is_none());
    assert!(get_command_name(&p, bot, 8, "j!", "<@42>").is_none());
    assert!(get_command_name(&p, bot, 8, "j!", "   ").is_none());
}

#[test]
fn mention_detection() {
    assert!(check_mention_prefix("<@42> help"));
    assert!(check_mention_prefix("<@!42>"));
    assert!(check_mention_prefix("hey<@7>there"));
    assert!(!check_mention_prefix("<@> help"));
    assert!(!check_mention_prefix("<@!x42>"));
    assert!(!check_mention_prefix("j!help <@42>"));
}

#[test]
fn prefix_cache_from_records() {
    let p = fetch_prefixes(vec![(1, Some("?".to_string())), (2, None), (3, Some("!".to_string())), (1, Some("$".to_string()))]);
    assert_eq!(p.get(1), Some("$".to_string()));
    assert_eq!(p.get(2), None);
    assert_eq!(p.dynamic_prefix(2, "j!"), "j!");
    assert_eq!(p.get(3), Some("!".to_string()));
}
