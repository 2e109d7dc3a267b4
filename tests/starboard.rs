use jester::config::{nsfw_blocked, parse_channel, parse_threshold, resolve_config, ActiveConfig, GuildStarboardConfig};
use jester::content::{get_message_url, get_starboard_embed, relay_content, relay_text, SourceMessage, RELAY_COLOR};
use jester::reaction::{dispatch_reaction, star_count, ReactionCount, ReactionEmoji, ReactionEvent, StarEvent};
use jester::relay::{decide, quote_reaction, settle_creation, CreationFollowUp, RelayFacts, RelayPlan, RelayRule};
use jester::store::{expired_entries, expiry_after, EntryStore, StarboardEntry, RELAY_TTL_SECS};

const STAR: &str = "\u{2b50}";

fn star(count: u64) -> ReactionCount {
    ReactionCount { emoji: ReactionEmoji::Unicode(STAR.to_string()), count }
}

fn other(name: &str, count: u64) -> ReactionCount {
    ReactionCount { emoji: ReactionEmoji::Unicode(name.to_string()), count }
}

fn event(is_removal: bool) -> StarEvent {
    StarEvent { guild_id: 1, channel_id: 20, message_id: 300, is_removal }
}

fn source(stars: u64) -> SourceMessage {
    SourceMessage {
        author_name: "ann".to_string(),
        author_avatar_url: "https://cdn.example/a.png".to_string(),
        content: "hello there".to_string(),
        attachment_urls: vec!["https://cdn.example/pic.jpg".to_string()],
        reactions: vec![other("x", 9), star(stars)],
    }
}

fn config(threshold: u32) -> Option<ActiveConfig> {
    Some(ActiveConfig { threshold, relay_channel_id: 77 })
}

fn facts(stars: u64, is_removal: bool, relayed: Option<u64>) -> RelayFacts {
    RelayFacts {
        event: event(is_removal),
        config: config(3),
        source: Some(source(stars)),
        relay_channel_found: true,
        source_nsfw: false,
        relay_nsfw: false,
        relayed,
    }
}

/// The platform and the store, as the relay engine's plans change them.
struct World {
    store: EntryStore,
    relay: Option<(u64, String)>,
    next_id: u64,
    posts: u32,
    deletes: u32,
    edits: u32,
}

impl World {
    fn new() -> World {
        World { store: EntryStore::new(), relay: None, next_id: 1000, posts: 0, deletes: 0, edits: 0 }
    }

    fn relayed(&self) -> Option<u64> {
        self.store.lookup(1, 300).map(|e| e.relay_message_id)
    }

    fn handle(&mut self, stars: u64, is_removal: bool) {
        let f = facts(stars, is_removal, self.relayed());
        match quote_reaction(&f) {
            RelayPlan::Create { relay_channel_id, content } => {
                assert_eq!(relay_channel_id, 77);
                self.next_id += 1;
                self.posts += 1;
                self.relay = Some((self.next_id, content.text));
                let entry = StarboardEntry {
                    guild_id: 1,
                    source_message_id: 300,
                    relay_message_id: self.next_id,
                    expires_at: expiry_after(5_000),
                };
                assert!(self.store.insert_if_absent(entry));
            }
            RelayPlan::Retract { relay_channel_id, relay_message_id } => {
                assert_eq!(relay_channel_id, 77);
                assert_eq!(Some(relay_message_id), self.relay.as_ref().map(|r| r.0));
                self.deletes += 1;
                self.relay = None;
                assert!(self.store.remove(1, 300).is_some());
            }
            RelayPlan::Update { relay_message_id, content, .. } => {
                assert_eq!(Some(relay_message_id), self.relay.as_ref().map(|r| r.0));
                self.edits += 1;
                self.relay = Some((relay_message_id, content.text));
            }
            RelayPlan::Keep => {}
            _ => panic!("unexpected plan"),
        }
    }

    fn shown(&self) -> Option<String> {
        self.relay.as_ref().map(|r| r.1.clone())
    }
}

fn line(n: u64) -> String {
    format!("\u{2b50} {} <#20> ID: 300", n)
}

#[test]
fn relay_lifecycle_scenario() {
    let mut w = World::new();
    w.handle(1, false);
    w.handle(2, false);
    assert_eq!(w.posts, 0);
    w.handle(3, false);
    assert_eq!(w.posts, 1);
    assert_eq!(w.shown(), Some(line(3)));
    let entry = w.store.lookup(1, 300).unwrap();
    assert_eq!(entry.relay_message_id, w.relay.as_ref().unwrap().0);
    assert_eq!(entry.expires_at, 5_000 + RELAY_TTL_SECS);
    w.handle(4, false);
    assert_eq!(w.shown(), Some(line(4)));
    w.handle(3, true);
    assert_eq!(w.shown(), Some(line(3)));
    assert_eq!(w.deletes, 0);
    w.handle(2, true);
    assert_eq!(w.deletes, 1);
    assert_eq!(w.shown(), None);
    assert_eq!(w.store.lookup(1, 300), None);
    w.handle(1, true);
    assert_eq!(w.deletes, 1);
    assert_eq!(w.posts, 1);
    assert_eq!(w.edits, 2);
}

#[test]
fn burst_past_threshold_never_relays() {
    let mut w = World::new();
    for _ in 0..5 {
        w.handle(5, false);
    }
    assert_eq!(w.posts, 0);
    assert_eq!(w.store.len(), 0);
    w.handle(6, false);
    assert_eq!(w.posts, 0);
}

#[test]
fn final_state_depends_on_final_count_only() {
    // two orders of the same reactions, each handled right after it happened
    let orders: [&[bool]; 2] = [
        &[false, false, false, false, true, true, false],
        &[false, false, true, false, false, false, true],
    ];
    let mut results = Vec::new();
    for order in orders.iter() {
        let mut w = World::new();
        let mut count: u64 = 0;
        for &removal in order.iter() {
            if removal {
                count -= 1;
            } else {
                count += 1;
            }
            w.handle(count, removal);
        }
        assert_eq!(count, 3);
        results.push((w.shown(), w.store.len()));
    }
    assert_eq!(results[0], (Some(line(3)), 1));
    assert_eq!(results[0], results[1]);
}

#[test]
fn replaying_an_event_changes_nothing() {
    let mut w = World::new();
    w.handle(3, false);
    w.handle(3, false);
    assert_eq!(w.posts, 1);
    assert_eq!(w.edits, 0);
    assert_eq!(w.shown(), Some(line(3)));
}

#[test]
fn racing_creations_keep_one_entry() {
    let mut store = EntryStore::new();
    let mut taken = 0;
    for relay in 10..15u64 {
        let e = StarboardEntry { guild_id: 1, source_message_id: 300, relay_message_id: relay, expires_at: 9 };
        if store.insert_if_absent(e) {
            taken += 1;
        }
    }
    assert_eq!(taken, 1);
    assert_eq!(store.len(), 1);
    assert_eq!(store.lookup(1, 300).unwrap().relay_message_id, 10);
    assert!(store.check_starboard_message(1, 300));
    assert!(!store.check_starboard_message(1, 301));
}

#[test]
fn threshold_boundary_rules() {
    for t in 1..6u32 {
        for &rem in [false, true].iter() {
            for &relayed in [false, true].iter() {
                assert_ne!(decide(t as u64 - 1, t, rem, relayed), RelayRule::Create);
            }
            assert_eq!(decide(t as u64 + 1, t, rem, true), RelayRule::Update);
        }
        assert_eq!(decide(t as u64, t, false, false), RelayRule::Create);
    }
}

#[test]
fn retraction_rules() {
    assert_eq!(decide(2, 3, true, true), RelayRule::Retract);
    assert_eq!(decide(0, 3, true, true), RelayRule::Retract);
    assert_eq!(decide(3, 3, true, true), RelayRule::Update);
    assert_eq!(decide(7, 3, true, true), RelayRule::Update);
    assert_eq!(decide(2, 3, true, false), RelayRule::Keep);
    assert_eq!(decide(3, 3, false, true), RelayRule::Keep);
}

#[test]
fn sweep_drops_only_expired_rows() {
    let mut store = EntryStore::new();
    for (i, exp) in [100i64, 200, 300, 150].iter().enumerate() {
        let e = StarboardEntry { guild_id: 1, source_message_id: i as u64, relay_message_id: 50 + i as u64, expires_at: *exp };
        assert!(store.insert_if_absent(e));
    }
    let gone = store.sweep(200);
    let gone_ids: Vec<u64> = gone.iter().map(|e| e.source_message_id).collect();
    assert_eq!(gone_ids, vec![0, 1, 3]);
    assert_eq!(store.len(), 1);
    assert_eq!(store.lookup(1, 2).unwrap().expires_at, 300);
    assert!(store.sweep(299).is_empty());
    assert_eq!(store.len(), 1);
}

#[test]
fn expired_entries_selects_past_rows() {
    let rows = vec![
        StarboardEntry { guild_id: 1, source_message_id: 1, relay_message_id: 2, expires_at: 10 },
        StarboardEntry { guild_id: 1, source_message_id: 2, relay_message_id: 3, expires_at: 11 },
        StarboardEntry { guild_id: 2, source_message_id: 1, relay_message_id: 4, expires_at: 9 },
    ];
    let gone = expired_entries(&rows, 10);
    assert_eq!(gone, vec![rows[0], rows[2]]);
    assert!(expired_entries(&rows, 8).is_empty());
}

#[test]
fn store_remove_and_missing() {
    let mut store = EntryStore::new();
    assert_eq!(store.remove(1, 1), None);
    let e = StarboardEntry { guild_id: 1, source_message_id: 1, relay_message_id: 2, expires_at: 10 };
    store.insert_if_absent(e);
    assert_eq!(store.remove(1, 1), Some(e));
    assert_eq!(store.len(), 0);
}

#[test]
fn plan_off_without_config() {
    let mut f = facts(3, false, None);
    f.config = None;
    assert!(matches!(quote_reaction(&f), RelayPlan::Off));
}

#[test]
fn plan_reports_missing_channel() {
    let mut f = facts(3, false, None);
    f.relay_channel_found = false;
    assert!(matches!(quote_reaction(&f), RelayPlan::ReportMissingChannel { channel_id: 77 }));
}

#[test]
fn plan_refuses_nsfw_creation_only() {
    let mut f = facts(3, false, None);
    f.source_nsfw = true;
    assert!(matches!(quote_reaction(&f), RelayPlan::RefuseNsfw { channel_id: 20 }));
    f.relay_nsfw = true;
    assert!(matches!(quote_reaction(&f), RelayPlan::Create { .. }));
    let mut g = facts(4, false, Some(9));
    g.source_nsfw = true;
    assert!(matches!(quote_reaction(&g), RelayPlan::Update { relay_message_id: 9, .. }));
    let mut h = facts(1, true, Some(9));
    h.source_nsfw = true;
    assert!(matches!(quote_reaction(&h), RelayPlan::Retract { relay_message_id: 9, relay_channel_id: 77 }));
}

#[test]
fn plan_for_gone_source_message() {
    let mut f = facts(0, true, Some(9));
    f.source = None;
    assert!(matches!(quote_reaction(&f), RelayPlan::Retract { relay_message_id: 9, .. }));
    let mut g = facts(0, false, Some(9));
    g.source = None;
    assert!(matches!(quote_reaction(&g), RelayPlan::Keep));
}

#[test]
fn plan_create_carries_content() {
    match quote_reaction(&facts(3, false, None)) {
        RelayPlan::Create { relay_channel_id, content } => {
            assert_eq!(relay_channel_id, 77);
            assert_eq!(content.text, line(3));
            assert_eq!(content.embed.description, "hello there");
            assert_eq!(content.embed.author_name, "ann");
            assert_eq!(content.embed.image_url, Some("https://cdn.example/pic.jpg".to_string()));
        }
        _ => panic!("expected a creation"),
    }
}

#[test]
fn star_filter() {
    let ev = |emoji: ReactionEmoji, guild: Option<u64>| ReactionEvent {
        guild_id: guild,
        channel_id: 2,
        message_id: 3,
        user_id: Some(4),
        emoji,
    };
    assert_eq!(
        dispatch_reaction(&ev(ReactionEmoji::Unicode(STAR.to_string()), Some(1)), true),
        Some(StarEvent { guild_id: 1, channel_id: 2, message_id: 3, is_removal: true })
    );
    assert_eq!(dispatch_reaction(&ev(ReactionEmoji::Unicode(STAR.to_string()), None), false), None);
    assert_eq!(dispatch_reaction(&ev(ReactionEmoji::Unicode("\u{1f31f}".to_string()), Some(1)), false), None);
    assert_eq!(
        dispatch_reaction(
            &ev(ReactionEmoji::Custom { id: 5, name: Some(STAR.to_string()), animated: false }, Some(1)),
            false
        ),
        None
    );
}

#[test]
fn star_count_snapshot() {
    assert_eq!(star_count(&vec![]), 0);
    assert_eq!(star_count(&vec![other("a", 4)]), 0);
    assert_eq!(star_count(&vec![other("a", 4), star(7), star(2)]), 7);
}

#[test]
fn config_resolution() {
    let row = |t: Option<i32>, c: Option<i64>| Some(GuildStarboardConfig { guild_id: 1, threshold: t, relay_channel_id: c });
    assert_eq!(resolve_config(&row(Some(3), Some(42))), Some(ActiveConfig { threshold: 3, relay_channel_id: 42 }));
    assert_eq!(resolve_config(&row(None, Some(42))), None);
    assert_eq!(resolve_config(&row(Some(3), None)), None);
    assert_eq!(resolve_config(&row(Some(0), Some(42))), None);
    assert_eq!(resolve_config(&row(Some(-2), Some(42))), None);
    assert_eq!(resolve_config(&None), None);
}

#[test]
fn nsfw_guard() {
    assert!(nsfw_blocked(true, false));
    assert!(!nsfw_blocked(true, true));
    assert!(!nsfw_blocked(false, false));
    assert!(!nsfw_blocked(false, true));
}

#[test]
fn threshold_parsing() {
    assert_eq!(parse_threshold("3"), Some(3));
    assert_eq!(parse_threshold("+12"), Some(12));
    assert_eq!(parse_threshold("2147483647"), Some(2147483647));
    assert_eq!(parse_threshold("2147483648"), None);
    assert_eq!(parse_threshold("0"), None);
    assert_eq!(parse_threshold("-1"), None);
    assert_eq!(parse_threshold("1x"), None);
    assert_eq!(parse_threshold(""), None);
    assert_eq!(parse_threshold("+"), None);
}

#[test]
fn channel_mention_parsing() {
    assert_eq!(parse_channel("<#123>"), Some(123));
    assert_eq!(parse_channel("<#18446744073709551615>"), Some(u64::MAX));
    assert_eq!(parse_channel("<#18446744073709551616>"), None);
    assert_eq!(parse_channel("<#>"), None);
    assert_eq!(parse_channel("<#12a>"), None);
    assert_eq!(parse_channel("#123"), None);
    assert_eq!(parse_channel("<@123>"), None);
}

#[test]
fn relay_formatting() {
    assert_eq!(relay_text(0, 5, 7), "\u{2b50} 0 <#5> ID: 7");
    assert_eq!(relay_text(12, 345, 6789), "\u{2b50} 12 <#345> ID: 6789");
    assert_eq!(get_message_url(1, 22, 333), "https://discordapp.com/channels/1/22/333");
    assert_eq!(
        get_message_url(u64::MAX, 0, 10),
        "https://discordapp.com/channels/18446744073709551615/0/10"
    );
}

#[test]
fn embed_preview_rules() {
    let ev = event(false);
    let mut src = source(3);
    let e = get_starboard_embed(&ev, &src);
    assert_eq!(e.color, RELAY_COLOR);
    assert_eq!(e.source_field_name, "Source");
    assert_eq!(e.source_field_value, "[Jump!](https://discordapp.com/channels/1/20/300)");
    assert_eq!(e.author_icon_url, "https://cdn.example/a.png");
    for (url, shown) in [("a.png", true), ("a.jpeg", true), ("a.webp", true), ("a.gif", true), ("a.txt", false), ("png", false)] {
        src.attachment_urls = vec![url.to_string(), "b.png".to_string()];
        let e = get_starboard_embed(&ev, &src);
        assert_eq!(e.image_url.is_some(), shown, "{}", url);
    }
    src.attachment_urls = vec![];
    assert_eq!(get_starboard_embed(&ev, &src).image_url, None);
    let c = relay_content(9, &ev, &src);
    assert_eq!(c.text, line(9));
}

#[test]
fn racing_creations_leave_one_relay_message() {
    // each racer saw the message unwatched at the threshold and got a creation plan
    let plans: Vec<RelayPlan> = (0..4).map(|_| quote_reaction(&facts(3, false, None))).collect();
    let mut store = EntryStore::new();
    let mut live: Vec<u64> = Vec::new();
    for (i, plan) in plans.into_iter().enumerate() {
        let relay_channel_id = match plan {
            RelayPlan::Create { relay_channel_id, .. } => relay_channel_id,
            _ => panic!("expected a creation"),
        };
        let posted = 500 + i as u64;
        live.push(posted);
        let entry = StarboardEntry { guild_id: 1, source_message_id: 300, relay_message_id: posted, expires_at: 9 };
        let taken = store.insert_if_absent(entry);
        match settle_creation(taken, relay_channel_id, posted) {
            CreationFollowUp::Keep => {}
            CreationFollowUp::WithdrawPost { relay_channel_id, relay_message_id } => {
                assert_eq!(relay_channel_id, 77);
                live.retain(|m| *m != relay_message_id);
            }
        }
    }
    assert_eq!(live, vec![500]);
    assert_eq!(store.len(), 1);
    assert_eq!(store.lookup(1, 300).unwrap().relay_message_id, 500);
}
