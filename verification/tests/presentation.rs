use umbra_cli::api::{SearchUserResult, UsernameResponse};
use umbra_cli::clock::{format_timestamp, time_text, LocalTime};
use umbra_cli::discovery::{
    discovery_url, found_users, import_result_url, import_start_url, registration_outcome,
    search_kind, SearchKind,
};
use umbra_cli::display::{logo_char_at, logo_origin, permissions_summary, rain_char_at};
use umbra_cli::showing::{channel_tree_of, order_by_activity};
use umbra_cli::store::StoredReaction;
use umbra_cli::tally::{tally_reactions, text_less};
use umbra_cli::types::{
    AsyncResult, CategoryEntry, ChannelEntry, ChannelTreeItem, GroupEntry, SpaceEntry,
};
use umbra_cli::wrap::wrap_text;
use umbra_cli::api::{UsernameSearchItem, UsernameSearchResponse};
use umbra_cli::discovery::name_search_results;
use umbra_cli::relay::{after_round, RelayEvent, RoundEnd};
use umbra_cli::keyring::{legacy_parts, sealed_parts};
use umbra_cli::types::{ChatFocus, DashboardInfo, FriendEntry};

fn strings(v: &[&str]) -> Vec<String> {
    v.iter().map(|s| s.to_string()).collect()
}

#[test]
fn wrap_keeps_short_lines_whole() {
    assert_eq!(wrap_text("hello", 10), strings(&["hello"]));
    assert_eq!(wrap_text("hello world", 11), strings(&["hello world"]));
}

#[test]
fn wrap_fills_words_greedily() {
    assert_eq!(wrap_text("hello world foo", 11), strings(&["hello world", "foo"]));
    assert_eq!(wrap_text("a b c d e", 3), strings(&["a b", "c d", "e"]));
    assert_eq!(wrap_text("one   two", 4), strings(&["one", "two"]));
}

#[test]
fn wrap_leaves_a_long_word_whole() {
    assert_eq!(
        wrap_text("supercalifragilistic x", 5),
        strings(&["supercalifragilistic", "x"])
    );
}

#[test]
fn wrap_zero_width_returns_the_text() {
    assert_eq!(wrap_text("a b\nc", 0), strings(&["a b\nc"]));
}

#[test]
fn wrap_splits_lines_and_drops_carriage_returns() {
    assert_eq!(wrap_text("a\r\nb\n", 5), strings(&["a", "b"]));
    assert_eq!(wrap_text("a\n\nb", 5), strings(&["a", "", "b"]));
}

#[test]
fn wrap_of_nothing_is_one_empty_line() {
    assert_eq!(wrap_text("", 10), strings(&[""]));
}

#[test]
fn wrap_counts_bytes() {
    // "héllo wörld" is 13 bytes long.
    assert_eq!(wrap_text("héllo wörld", 13), strings(&["héllo wörld"]));
    assert_eq!(wrap_text("héllo wörld", 12), strings(&["héllo", "wörld"]));
}

#[test]
fn time_labels() {
    let t = LocalTime { year: 2024, month: 3, day: 5, hour: 9, minute: 7 };
    assert_eq!(time_text(Some(t), t), "09:07");
    let later = LocalTime { year: 2024, month: 3, day: 6, hour: 23, minute: 59 };
    assert_eq!(time_text(Some(t), later), "03/05 09:07");
    assert_eq!(time_text(None, later), "??:??");
}

#[test]
fn an_unreadable_time_is_question_marks() {
    assert_eq!(format_timestamp(i64::MAX), "??:??");
}

#[test]
fn permission_summaries() {
    assert_eq!(permissions_summary(i64::MAX), "All permissions");
    assert_eq!(permissions_summary(0), "No permissions");
    assert_eq!(permissions_summary(1 | 2048), "View, Send");
    assert_eq!(permissions_summary(280577), "View, Send, React");
    assert_eq!(permissions_summary((1 << 3) | (1 << 5)), "Manage, Ban");
}

#[test]
fn search_kinds() {
    assert_eq!(search_kind("alice#1234"), SearchKind::UsernameLookup);
    assert_eq!(search_kind("did:key:z6Mk"), SearchKind::Did);
    assert_eq!(search_kind("ali"), SearchKind::NameSearch);
    assert_eq!(search_kind("di"), SearchKind::NameSearch);
}

#[test]
fn found_users_keeps_the_found_ones() {
    let v = vec![
        SearchUserResult { found: false, did: None, username: None },
        SearchUserResult {
            found: true,
            did: Some("did:key:a".to_string()),
            username: Some("a#1".to_string()),
        },
        SearchUserResult { found: true, did: None, username: None },
    ];
    let r = found_users(v);
    assert_eq!(r.len(), 2);
    assert_eq!(r[0].did, "did:key:a");
    assert_eq!(r[0].username.as_deref(), Some("a#1"));
    assert_eq!(r[1].did, "");
    assert!(r[1].username.is_none());
}

#[test]
fn registration_answers() {
    let ok = UsernameResponse {
        did: "did:key:a".to_string(),
        username: Some("alice#0001".to_string()),
        name: None,
        tag: None,
    };
    match registration_outcome(ok) {
        AsyncResult::UsernameRegistered { username } => assert_eq!(username, "alice#0001"),
        other => panic!("unexpected {:?}", other),
    }
    let none = UsernameResponse { did: "did:key:a".to_string(), username: None, name: None, tag: None };
    match registration_outcome(none) {
        AsyncResult::UsernameError(m) => assert_eq!(m, "No username returned"),
        other => panic!("unexpected {:?}", other),
    }
}

#[test]
fn service_urls() {
    assert_eq!(import_start_url("discord"), "https://relay.umbra.chat/profile/import/discord/start");
    assert_eq!(import_result_url("abc"), "https://relay.umbra.chat/profile/import/result/abc");
    assert_eq!(discovery_url("/discovery/search"), "https://relay.umbra.chat/discovery/search");
}

#[test]
fn logo_is_centred() {
    assert_eq!(logo_origin(0, 0, 80, 24), (22, 9));
    assert_eq!(logo_origin(3, 4, 10, 2), (3, 4));
    assert_eq!(logo_char_at(22, 9, 22, 9), Some('█'));
    assert_eq!(logo_char_at(21, 9, 22, 9), None);
    assert_eq!(logo_char_at(22, 14, 22, 9), None);
}

#[test]
fn rain_is_a_function_of_its_cell_and_tick() {
    assert_eq!(rain_char_at(3, 4, 5), rain_char_at(3, 4, 5));
}

fn reaction(emoji: &str, who: &str) -> StoredReaction {
    StoredReaction {
        id: format!("{}-{}", emoji, who),
        message_id: "m".to_string(),
        sender_did: who.to_string(),
        emoji: emoji.to_string(),
        created_at: 0,
    }
}

#[test]
fn reactions_are_counted_per_emoji_in_text_order() {
    let rs = vec![reaction("b", "x"), reaction("a", "y"), reaction("b", "z")];
    let t = tally_reactions(&rs);
    assert_eq!(t, vec![("a".to_string(), 1), ("b".to_string(), 2)]);
    assert!(tally_reactions(&vec![]).is_empty());
}

#[test]
fn text_order() {
    assert!(text_less("a", "b"));
    assert!(text_less("ab", "abc"));
    assert!(!text_less("abc", "ab"));
    assert!(!text_less("a", "a"));
    assert!(text_less("Z", "a"));
}

fn group(id: &str, last: Option<i64>) -> GroupEntry {
    GroupEntry {
        id: id.to_string(),
        name: id.to_string(),
        description: None,
        created_by: "did:key:a".to_string(),
        members: vec![],
        last_message_at: last,
    }
}

#[test]
fn groups_are_ordered_by_recent_activity() {
    let v = vec![group("g1", None), group("g2", Some(30)), group("g3", Some(10)), group("g4", Some(30))];
    let ids: Vec<String> = order_by_activity(v).into_iter().map(|g| g.id).collect();
    assert_eq!(ids, strings(&["g2", "g4", "g3", "g1"]));
}

#[test]
fn channel_tree_lists_spaces_categories_and_channels() {
    let spaces = vec![SpaceEntry {
        id: "s".to_string(),
        name: "General".to_string(),
        categories: vec![CategoryEntry {
            id: "c".to_string(),
            name: "Text".to_string(),
            channels: vec![
                ChannelEntry { id: "h1".to_string(), name: "general".to_string(), channel_type: "text".to_string() },
                ChannelEntry { id: "h2".to_string(), name: "voice".to_string(), channel_type: "voice".to_string() },
            ],
        }],
    }];
    let t = channel_tree_of(&spaces);
    assert_eq!(t.len(), 4);
    assert!(matches!(&t[0], ChannelTreeItem::Space { id, .. } if id == "s"));
    assert!(matches!(&t[1], ChannelTreeItem::Category { id, .. } if id == "c"));
    assert!(matches!(&t[2], ChannelTreeItem::Channel { id, .. } if id == "h1"));
    assert!(matches!(&t[3], ChannelTreeItem::Channel { channel_type, .. } if channel_type == "voice"));
}

#[test]
fn wrapped_lines_stay_within_the_width_or_are_one_word() {
    let text = "the quick brown fox jumps over the extraordinarily lazy dog";
    for line in wrap_text(text, 10) {
        assert!(line.len() <= 10 || !line.contains(' '), "{}", line);
    }
}

fn chat_screen_with_key(key: Option<&str>) -> umbra_cli::app::App {
    let mut app = umbra_cli::app::App::new(true);
    app.screen = umbra_cli::types::Screen::Chat {
        info: DashboardInfo {
            display_name: "Alice".to_string(),
            did: "did:key:alice".to_string(),
            created_at: 1,
            username: None,
            linked_platform: None,
            linked_username: None,
        },
        focus: ChatFocus::Sidebar,
        selected_friend: 0,
        friends: vec![FriendEntry {
            did: "did:key:bob".to_string(),
            display_name: "Bob".to_string(),
            username: None,
            encryption_key: key.map(|k| k.to_string()),
            signing_key: None,
        }],
        active_conversation: None,
    };
    app
}

#[test]
fn a_friends_key_is_decoded_from_hex() {
    let key = "ab".repeat(32);
    let app = chat_screen_with_key(Some(&key));
    assert_eq!(app.find_friend_encryption_key("did:key:bob"), Some(vec![0xab; 32]));
    assert_eq!(app.find_friend_encryption_key("did:key:carol"), None);
    let short = chat_screen_with_key(Some("abcd"));
    assert_eq!(short.find_friend_encryption_key("did:key:bob"), None);
    let bad = chat_screen_with_key(Some(&"zz".repeat(32)));
    assert_eq!(bad.find_friend_encryption_key("did:key:bob"), None);
    let none = chat_screen_with_key(None);
    assert_eq!(none.find_friend_encryption_key("did:key:bob"), None);
}

#[test]
fn sealed_and_legacy_parts() {
    let nonce: Vec<u8> = (0u8..12).collect();
    assert_eq!(
        sealed_parts("aGk=", "000102030405060708090A0b"),
        Some((b"hi".to_vec(), nonce.clone()))
    );
    assert_eq!(sealed_parts("not base64!", "000102030405060708090a0b"), None);
    assert_eq!(sealed_parts("aGk=", "0001"), None);
    assert_eq!(legacy_parts("6869", "000102030405060708090a0b"), Some((b"hi".to_vec(), nonce)));
    assert_eq!(legacy_parts("686", "000102030405060708090a0b"), None);
}

#[test]
fn wrapping_keeps_every_word_in_order() {
    let text = "the quick  brown\nfox jumps\tover\r\n\nthe lazy dog";
    let wrapped = wrap_text(text, 7);
    let out: Vec<String> = wrapped.iter().flat_map(|l| l.split_whitespace().map(|w| w.to_string())).collect();
    let inp: Vec<String> = text.lines().flat_map(|l| l.split_whitespace().map(|w| w.to_string())).collect();
    assert_eq!(out, inp);
}

#[test]
fn a_name_search_keeps_at_most_ten_results() {
    let items: Vec<UsernameSearchItem> = (0..11)
        .map(|i| UsernameSearchItem { did: format!("did:key:{i}"), username: format!("user#{i}") })
        .collect();
    let r = name_search_results(UsernameSearchResponse { results: items });
    assert_eq!(r.len(), 10);
    assert_eq!(r[9].did.as_deref(), Some("did:key:9"));
    let few = name_search_results(UsernameSearchResponse {
        results: vec![UsernameSearchItem { did: "did:key:a".to_string(), username: "a#1".to_string() }],
    });
    assert_eq!(few.len(), 1);
    assert!(few[0].found);
}

#[test]
fn a_readable_time_is_labelled() {
    let label = format_timestamp(0);
    assert_ne!(label, "??:??");
    assert!(label.len() == 5 || label.len() == 11, "{}", label);
}

#[test]
fn after_a_connection_ends() {
    let stop = after_round(RoundEnd::Shutdown, 4);
    assert!(!stop.reconnect);
    assert!(stop.events.is_empty());
    let dropped = after_round(RoundEnd::Dropped, 4);
    assert!(dropped.reconnect);
    assert_eq!(dropped.wait_secs, 4);
    assert_eq!(dropped.next_delay, 8);
    assert!(matches!(dropped.events.as_slice(), [RelayEvent::Disconnected]));
    let failed = after_round(RoundEnd::Failed("boom".to_string()), 20);
    assert_eq!(failed.next_delay, 30);
    match failed.events.as_slice() {
        [RelayEvent::Error(m), RelayEvent::Disconnected] => assert_eq!(m, "Relay error: boom"),
        other => panic!("unexpected {:?}", other),
    }
}
