use chat_dump::discord::{
    convert_page, page_size, to_peer_message, ChannelPager, DiscordAPIRoutes, Message, PageOutcome,
    User, PAGE_DELAY_MS,
};
use chat_dump::error::UsernameResolveError;
use chat_dump::peer::{PeerMessage, ResolvedPeer};
use chat_dump::telegram::{resolve_outcome, resolved_peer_of, sender_label, Lookup};

fn rest_message(id: &str, timestamp: &str) -> Message {
    Message {
        id: id.to_string(),
        channel_id: "c1".to_string(),
        author: User {
            id: "42".to_string(),
            username: "u".to_string(),
            discriminator: "0".to_string(),
            avatar: None,
        },
        content: format!("hello {}", id),
        timestamp: timestamp.to_string(),
    }
}

fn page(from: u32, n: u32, newest: i64) -> Vec<PeerMessage> {
    (0..n)
        .map(|i| PeerMessage::new((from + i).to_string(), "user1".to_string(), String::new(), newest - i as i64))
        .collect()
}

#[test]
fn routes_build_urls() {
    assert_eq!(DiscordAPIRoutes::Users("9".to_string()).build(), "https://discord.com/api/v10/users/9");
    assert_eq!(DiscordAPIRoutes::Guilds("7".to_string()).build(), "https://discord.com/api/v10/guilds/7");
    assert_eq!(
        DiscordAPIRoutes::GuildChannels("7".to_string()).build(),
        "https://discord.com/api/v10/guilds/7/channels"
    );
    assert_eq!(DiscordAPIRoutes::JoinedGuilds.build(), "https://discord.com/api/v10/users/@me/guilds");
    assert_eq!(DiscordAPIRoutes::JoinedDMChannels.build(), "https://discord.com/api/v10/users/@me/channels");
    let plain = DiscordAPIRoutes::Messages { id: "55".to_string(), limit: 100, before: None, after: None, around: None };
    assert_eq!(plain.build(), "https://discord.com/api/v10/channels/55/messages?limit=100");
    let both = DiscordAPIRoutes::Messages {
        id: "55".to_string(),
        limit: 7,
        before: Some("b".to_string()),
        after: Some("a".to_string()),
        around: None,
    };
    assert_eq!(both.build(), "https://discord.com/api/v10/channels/55/messages?limit=7&before=b");
    let around = DiscordAPIRoutes::Messages { id: "1".to_string(), limit: 0, before: None, after: None, around: Some("x".to_string()) };
    assert_eq!(around.build(), "https://discord.com/api/v10/channels/1/messages?limit=0&around=x");
}

#[test]
fn page_size_follows_remaining_demand() {
    assert_eq!(page_size(Some(50)), 50);
    assert_eq!(page_size(Some(100)), 100);
    assert_eq!(page_size(Some(250)), 100);
    assert_eq!(page_size(None), 100);
}

fn request_of(p: &ChannelPager) -> (usize, Option<String>) {
    match p.next_request() {
        Some(DiscordAPIRoutes::Messages { limit, before, .. }) => (limit, before),
        _ => panic!("expected a message request"),
    }
}

#[test]
fn pager_single_page_for_small_limit() {
    let mut p = ChannelPager::new("c1".to_string(), Some(50), 0);
    assert_eq!(request_of(&p), (50, None));
    assert_eq!(p.take_page(&page(0, 50, 1_000)), PageOutcome::Done);
    assert!(p.next_request().is_none());
    let d = p.into_dump();
    assert_eq!(d.peer.peer_id, "c1");
    assert_eq!(d.peer.peer_username, "c1");
    assert_eq!(d.chunks.len(), 50);
}

#[test]
fn pager_walks_pages_with_cursor_and_delay() {
    let mut p = ChannelPager::new("c1".to_string(), Some(250), 0);
    assert_eq!(request_of(&p), (100, None));
    assert_eq!(p.take_page(&page(0, 100, 10_000)), PageOutcome::Continue(PAGE_DELAY_MS));
    assert_eq!(request_of(&p), (100, Some("99".to_string())));
    assert_eq!(p.take_page(&page(100, 100, 9_900)), PageOutcome::Continue(250));
    assert_eq!(request_of(&p), (50, Some("199".to_string())));
    assert_eq!(p.take_page(&page(200, 50, 9_800)), PageOutcome::Done);
    assert_eq!(p.into_dump().chunks.len(), 250);
}

#[test]
fn pager_stops_on_short_page() {
    let mut p = ChannelPager::new("c1".to_string(), None, 0);
    assert_eq!(p.take_page(&page(0, 100, 10_000)), PageOutcome::Continue(250));
    assert_eq!(p.take_page(&page(100, 30, 9_900)), PageOutcome::Done);
    assert_eq!(p.into_dump().chunks.len(), 130);
}

#[test]
fn pager_stops_at_date_point() {
    let mut p = ChannelPager::new("c1".to_string(), None, 9_950);
    assert_eq!(p.take_page(&page(0, 100, 10_000)), PageOutcome::Done);
    let d = p.into_dump();
    assert_eq!(d.chunks.len(), 51);
    assert_eq!(d.chunks.last().unwrap().date, 9_950);
}

#[test]
fn rest_message_converts_with_parsed_timestamp() {
    let m = rest_message("m1", "2024-01-01T00:00:00+00:00");
    let p = to_peer_message(&m).ok().unwrap();
    assert_eq!(p.id, "m1");
    assert_eq!(p.user_id, "user42");
    assert_eq!(p.message, "hello m1");
    assert_eq!(p.date, 1_704_067_200);
    let with_fraction = rest_message("m2", "2024-01-01T01:00:00.250000+01:00");
    assert_eq!(to_peer_message(&with_fraction).ok().unwrap().date, 1_704_067_200);
}

#[test]
fn bad_rest_timestamp_is_an_error() {
    let bad = rest_message("m1", "yesterday");
    match to_peer_message(&bad) {
        Err(e) => assert_eq!(e.datestring, "yesterday"),
        Ok(_) => panic!("not RFC 3339"),
    }
    let pagev = vec![rest_message("a", "1970-01-01T00:00:10Z"), bad];
    assert!(convert_page(&pagev).is_err());
    let good = vec![rest_message("a", "1970-01-01T00:00:10Z")];
    assert_eq!(convert_page(&good).ok().unwrap()[0].date, 10);
}

fn fields(r: Result<ResolvedPeer, UsernameResolveError>) -> Result<(String, String), (String, String)> {
    match r {
        Ok(p) => Ok((p.peer_id, p.peer_username)),
        Err(e) => Err((e.username, e.message)),
    }
}

#[test]
fn resolution_outcomes() {
    let found = resolve_outcome("alice".to_string(), Lookup::Found(-1001, Some("alice".to_string())));
    assert_eq!(fields(found), Ok(("-1001".to_string(), "alice".to_string())));
    let private = resolve_outcome("bob".to_string(), Lookup::Found(77, None));
    assert_eq!(fields(private), Ok(("77".to_string(), "PRIVATE_USERNAME".to_string())));
    let missing = resolve_outcome("carol".to_string(), Lookup::NotFound);
    assert_eq!(fields(missing), Err(("carol".to_string(), "No viable chat found".to_string())));
    let failed = resolve_outcome("dan".to_string(), Lookup::Failed("timeout".to_string()));
    assert_eq!(fields(failed), Err(("dan".to_string(), "Unable to resolve username (timeout)".to_string())));
}

#[test]
fn resolving_twice_gives_the_same_peer() {
    let a = fields(resolve_outcome("alice".to_string(), Lookup::Found(5, Some("alice".to_string()))));
    let b = fields(resolve_outcome("alice".to_string(), Lookup::Found(5, Some("alice".to_string()))));
    assert_eq!(a, b);
    let p = resolved_peer_of(5, None);
    let q = resolved_peer_of(5, None);
    assert_eq!(p, q);
    assert_ne!(p, resolved_peer_of(6, None));
    assert_eq!(p, ResolvedPeer::new("5".to_string(), "PRIVATE_USERNAME".to_string()));
}

#[test]
fn sender_labels() {
    assert_eq!(sender_label(Some(123)), "user123");
    assert_eq!(sender_label(Some(-5)), "user-5");
    assert_eq!(sender_label(None), "userXXX");
}
