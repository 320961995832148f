use umbra_cli::app::App;
use umbra_cli::effects::Effect;
use umbra_cli::inbox::{Envelope, EnvelopePayload, IncomingFacts};
use umbra_cli::keys::{KeyCode, KeyEvent};
use umbra_cli::relay::{classify_server_message, RelayEvent, ServerMessage};
use umbra_cli::store::{StoredFriend, StoredIdentity, StoredMessage};
use umbra_cli::types::Screen;

fn friend(did: &str, name: &str) -> StoredFriend {
    StoredFriend {
        did: did.to_string(),
        display_name: name.to_string(),
        username: None,
        encryption_key: None,
        signing_key: None,
    }
}

fn chat_app() -> App {
    let mut app = App::new(true);
    let stored = StoredIdentity {
        recovery_phrase: "words".to_string(),
        display_name: "Alice".to_string(),
        did: "did:key:alice".to_string(),
        created_at: 1,
        username: None,
        linked_platform: None,
        linked_username: None,
        discoverable: false,
    };
    app.restore_session(
        stored,
        "did:key:alice".to_string(),
        vec![friend("did:key:bob", "Bob"), friend("did:key:carol", "Carol")],
    );
    app.take_effects();
    app
}

fn envelope() -> Envelope {
    Envelope {
        envelope: None,
        kind: None,
        text: None,
        content: None,
        has_ciphertext: false,
        message_id: None,
        emoji: None,
        conversation_id: None,
        edited_at: None,
        timestamp: None,
        group_id: None,
        name: None,
        members: vec![],
        creator_did: None,
        creator_name: None,
        sender_did: None,
        sender_name: None,
        member_did: None,
        community_id: None,
        channel_id: None,
        new_content: None,
        description: None,
        community_name: None,
        action: None,
        target_did: None,
        joiner_did: None,
        joiner_name: None,
        payload: None,
        plaintext: None,
    }
}

fn facts() -> IncomingFacts {
    IncomingFacts {
        sender_blocked: false,
        sender_is_friend: false,
        request_pending: false,
        group_member: true,
        community_known: false,
        community_members: vec![],
    }
}

fn message(app: &App) -> String {
    app.session.error_message.clone().unwrap_or_default()
}

fn open_bob(app: &mut App) {
    app.handle_key(KeyEvent::plain(KeyCode::Enter), 0);
    app.take_effects();
}

#[test]
fn a_plain_message_in_the_open_conversation_is_shown_and_read() {
    let mut app = chat_app();
    open_bob(&mut app);
    let mut env = envelope();
    env.kind = Some("chat".to_string());
    env.text = Some("hey".to_string());
    app.handle_incoming("did:key:bob".to_string(), env, facts(), Some(1234), 0);
    assert_eq!(app.chat.messages.len(), 1);
    let m = app.chat.messages[0].clone();
    assert_eq!(m.content, "hey");
    assert_eq!(m.sender_name, "Bob");
    assert_eq!(m.timestamp, 1234);
    assert!(!m.is_mine);
    let effects = app.take_effects();
    match (&effects[0], &effects[1]) {
        (Effect::StoreIncomingDirect { peer_did, open, .. }, Effect::SendReadReceipt { friend_did, message_id }) => {
            assert_eq!(peer_did, "did:key:bob");
            assert!(*open);
            assert_eq!(friend_did, "did:key:bob");
            assert_eq!(message_id, &m.id);
        }
        _ => panic!("expected a stored message and a receipt"),
    }
}

#[test]
fn a_message_for_another_conversation_is_only_stored() {
    let mut app = chat_app();
    open_bob(&mut app);
    let mut env = envelope();
    env.content = Some("psst".to_string());
    app.handle_incoming("did:key:carol".to_string(), env, facts(), None, 0);
    assert!(app.chat.messages.is_empty());
    let effects = app.take_effects();
    assert_eq!(effects.len(), 1);
    assert!(matches!(effects[0], Effect::StoreIncomingDirect { open: false, .. }));
}

#[test]
fn an_encrypted_chat_envelope_uses_its_payload() {
    let mut app = chat_app();
    open_bob(&mut app);
    let mut env = envelope();
    env.envelope = Some("chat_message".to_string());
    env.plaintext = Some("secret".to_string());
    env.payload = Some(EnvelopePayload {
        id: None,
        request_id: None,
        from_display_name: None,
        from_signing_key: None,
        from_encryption_key: None,
        message_id: Some("m-1".to_string()),
        conversation_id: Some("conv-1".to_string()),
        sender_did: Some("did:key:bob".to_string()),
        timestamp: Some(99),
    });
    app.handle_incoming("did:key:relay".to_string(), env, facts(), None, 0);
    assert_eq!(app.chat.messages[0].id, "m-1");
    assert_eq!(app.chat.messages[0].content, "secret");
    match &app.take_effects()[0] {
        Effect::StoreIncomingDirect { conversation_id, timestamp, .. } => {
            assert_eq!(conversation_id.as_deref(), Some("conv-1"));
            assert_eq!(*timestamp, 99);
        }
        _ => panic!(),
    }
}

#[test]
fn friend_requests_from_strangers_are_announced() {
    let mut app = chat_app();
    let mut env = envelope();
    env.envelope = Some("friend_request".to_string());
    env.payload = Some(EnvelopePayload {
        id: Some("req-9".to_string()),
        request_id: None,
        from_display_name: Some("".to_string()),
        from_signing_key: None,
        from_encryption_key: Some("enc".to_string()),
        message_id: None,
        conversation_id: None,
        sender_did: None,
        timestamp: None,
    });
    app.handle_incoming("did:key:0123456789abcdefXYZ".to_string(), env, facts(), None, 0);
    assert_eq!(message(&app), "Friend request from did:key:01234567");
    assert!(matches!(app.take_effects()[0], Effect::SaveIncomingRequest { .. }));
}

#[test]
fn friend_requests_from_blocked_users_are_dropped() {
    let mut app = chat_app();
    let mut env = envelope();
    env.envelope = Some("friend_request".to_string());
    env.payload = Some(EnvelopePayload {
        id: Some("req-9".to_string()),
        request_id: None,
        from_display_name: Some("Mallory".to_string()),
        from_signing_key: None,
        from_encryption_key: None,
        message_id: None,
        conversation_id: None,
        sender_did: None,
        timestamp: None,
    });
    let mut f = facts();
    f.sender_blocked = true;
    app.handle_incoming("did:key:mallory".to_string(), env, f, None, 0);
    assert_eq!(app.session.error_message, None);
    assert!(app.take_effects().is_empty());
}

#[test]
fn an_accepted_request_adds_the_friend_first() {
    let mut app = chat_app();
    let mut env = envelope();
    env.envelope = Some("friend_accept".to_string());
    env.payload = Some(EnvelopePayload {
        id: None,
        request_id: Some("req-1".to_string()),
        from_display_name: Some("Dave".to_string()),
        from_signing_key: None,
        from_encryption_key: None,
        message_id: None,
        conversation_id: None,
        sender_did: None,
        timestamp: None,
    });
    app.handle_incoming("did:key:dave".to_string(), env, facts(), None, 0);
    assert_eq!(message(&app), "Dave accepted your friend request");
    match &app.screen {
        Screen::Chat { friends, .. } => {
            assert_eq!(friends.len(), 3);
            assert_eq!(friends[0].did, "did:key:dave");
        }
        _ => panic!(),
    }
    let effects = app.take_effects();
    assert!(matches!(effects[0], Effect::SaveAcceptedFriend { .. }));
    assert!(matches!(effects[1], Effect::SendAcceptAck { .. }));
}

#[test]
fn edits_deletions_and_receipts_update_the_shown_message() {
    let mut app = chat_app();
    open_bob(&mut app);
    app.show_direct_messages(
        vec![StoredMessage {
            id: "m1".to_string(),
            conversation_id: "c".to_string(),
            sender_did: "did:key:alice".to_string(),
            content: "first".to_string(),
            timestamp: 5,
            delivered: true,
            edited_at: None,
            deleted: false,
            status: "sent".to_string(),
        }],
        vec![],
        vec!["m1".to_string()],
    );
    assert!(app.chat.messages[0].is_mine);
    assert!(app.chat.messages[0].pinned);
    assert_eq!(app.chat.messages[0].sender_name, "Alice");
    let mut env = envelope();
    env.kind = Some("message_edit".to_string());
    env.message_id = Some("m1".to_string());
    env.content = Some("second".to_string());
    env.edited_at = Some(77);
    app.handle_incoming("did:key:bob".to_string(), env, facts(), None, 0);
    assert_eq!(app.chat.messages[0].content, "second");
    assert_eq!(app.chat.messages[0].edited_at, Some(77));
    let mut env = envelope();
    env.kind = Some("read_receipt".to_string());
    env.message_id = Some("m1".to_string());
    app.handle_incoming("did:key:bob".to_string(), env, facts(), None, 0);
    assert_eq!(app.chat.messages[0].status, "read");
    let mut env = envelope();
    env.kind = Some("message_delete".to_string());
    env.message_id = Some("m1".to_string());
    app.handle_incoming("did:key:bob".to_string(), env, facts(), None, 0);
    assert!(app.chat.messages[0].deleted);
}

#[test]
fn typing_peers_are_remembered_then_expire() {
    let mut app = chat_app();
    open_bob(&mut app);
    let mut env = envelope();
    env.kind = Some("typing".to_string());
    app.handle_incoming("did:key:bob".to_string(), env, facts(), None, 10_000);
    assert_eq!(app.chat.typing_peers.len(), 1);
    app.tick(12_000);
    assert_eq!(app.chat.typing_peers.len(), 1);
    app.tick(15_000);
    assert!(app.chat.typing_peers.is_empty());
}

#[test]
fn being_kicked_from_the_open_community_closes_it() {
    let mut app = chat_app();
    app.comm.active_community = Some("c1".to_string());
    let mut env = envelope();
    env.kind = Some("community_member_action".to_string());
    env.community_id = Some("c1".to_string());
    env.target_did = Some("did:key:alice".to_string());
    env.action = Some("kick".to_string());
    env.community_name = Some("Crabs".to_string());
    app.handle_incoming("did:key:bob".to_string(), env, facts(), None, 0);
    assert_eq!(message(&app), "You were kicked from 'Crabs'");
    assert_eq!(app.comm.active_community, None);
}

#[test]
fn a_new_group_is_saved_with_member_names() {
    let mut app = chat_app();
    let mut env = envelope();
    env.kind = Some("group_create".to_string());
    env.group_id = Some("g1".to_string());
    env.name = Some("Trip".to_string());
    env.creator_did = Some("did:key:bob".to_string());
    env.creator_name = Some("Bobby".to_string());
    env.members = vec!["did:key:bob".to_string(), "did:key:carol".to_string(), "did:key:x".to_string()];
    app.handle_incoming("did:key:bob".to_string(), env, facts(), None, 0);
    assert_eq!(message(&app), "Added to group 'Trip'");
    match &app.take_effects()[0] {
        Effect::SaveIncomingGroup { members, .. } => {
            assert_eq!(members[0].1.as_deref(), Some("Bobby"));
            assert_eq!(members[1].1.as_deref(), Some("Carol"));
            assert_eq!(members[2].1, None);
        }
        _ => panic!(),
    }
}

#[test]
fn server_messages_become_relay_events() {
    let base = || ServerMessage {
        msg_type: String::new(),
        from_did: None,
        payload: None,
        timestamp: None,
        messages: None,
        id: None,
        message: None,
        code: None,
        community_id: None,
        community_name: None,
        community_description: None,
        member_count: None,
        invite_payload: None,
    };
    let mut m = base();
    m.msg_type = "message".to_string();
    m.from_did = Some("did:key:bob".to_string());
    m.payload = Some("{}".to_string());
    assert!(matches!(classify_server_message(m), Some(RelayEvent::Message { .. })));
    let mut m = base();
    m.msg_type = "message".to_string();
    assert!(classify_server_message(m).is_none());
    let mut m = base();
    m.msg_type = "invite_resolved".to_string();
    m.code = Some("abc".to_string());
    match classify_server_message(m) {
        Some(RelayEvent::InviteResolved { community_name, member_count, community_id, .. }) => {
            assert_eq!(community_name, "Unknown");
            assert_eq!(member_count, 0);
            assert_eq!(community_id, "");
        }
        _ => panic!(),
    }
    let mut m = base();
    m.msg_type = "pong".to_string();
    assert!(classify_server_message(m).is_none());
    let mut m = base();
    m.msg_type = "error".to_string();
    m.message = Some("bad".to_string());
    assert!(matches!(classify_server_message(m), Some(RelayEvent::Error(_))));
}

#[test]
fn relay_events_update_the_connection_state() {
    let mut app = chat_app();
    app.handle_relay_event(RelayEvent::Connected);
    assert!(app.session.relay_connected);
    app.handle_relay_event(RelayEvent::Error("timeout".to_string()));
    assert_eq!(message(&app), "Relay: timeout");
    app.handle_relay_event(RelayEvent::Disconnected);
    assert!(!app.session.relay_connected);
}
