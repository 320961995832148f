use umbra_cli::app::App;
use umbra_cli::effects::Effect;
use umbra_cli::keys::{KeyCode, KeyEvent};
use umbra_cli::store::{StoredFriend, StoredIdentity};
use umbra_cli::types::{ChatFocus, MessageAction, NavRoute, Screen, SidebarMode};

fn press(app: &mut App, code: KeyCode) {
    app.handle_key(KeyEvent::plain(code), 0);
}

fn press_at(app: &mut App, code: KeyCode, now: u64) {
    app.handle_key(KeyEvent::plain(code), now);
}

fn type_text(app: &mut App, text: &str) {
    for c in text.chars() {
        press(app, KeyCode::Char(c));
    }
}

fn friend(did: &str, name: &str) -> StoredFriend {
    StoredFriend {
        did: did.to_string(),
        display_name: name.to_string(),
        username: None,
        encryption_key: None,
        signing_key: None,
    }
}

fn chat_app() -> App {
    let mut app = App::new(true);
    let stored = StoredIdentity {
        recovery_phrase: "words".to_string(),
        display_name: "Alice".to_string(),
        did: "did:key:alice".to_string(),
        created_at: 1,
        username: None,
        linked_platform: None,
        linked_username: None,
        discoverable: false,
    };
    app.restore_session(
        stored,
        "did:key:alice".to_string(),
        vec![friend("did:key:bob", "Bob"), friend("did:key:carol", "Carol")],
    );
    app.take_effects();
    app
}

fn focus(app: &App) -> ChatFocus {
    match &app.screen {
        Screen::Chat { focus, .. } => *focus,
        _ => panic!("not on the chat screen"),
    }
}

fn open_bob(app: &mut App) {
    press(app, KeyCode::Enter);
    app.take_effects();
}

#[test]
fn restored_session_lists_friends_and_loads_groups_and_communities() {
    let mut app = App::new(true);
    let stored = StoredIdentity {
        recovery_phrase: "w".to_string(),
        display_name: "Alice".to_string(),
        did: "did:key:alice".to_string(),
        created_at: 7,
        username: Some("alice#1".to_string()),
        linked_platform: None,
        linked_username: None,
        discoverable: true,
    };
    app.restore_session(stored, "did:key:alice".to_string(), vec![friend("did:key:bob", "Bob")]);
    match &app.screen {
        Screen::Chat { info, focus, friends, .. } => {
            assert_eq!(info.display_name, "Alice");
            assert_eq!(*focus, ChatFocus::Sidebar);
            assert_eq!(friends.len(), 1);
        }
        _ => panic!("expected chat"),
    }
    let effects = app.take_effects();
    assert!(matches!(effects[0], Effect::ReloadGroups));
    assert!(matches!(effects[1], Effect::ReloadCommunities));
    assert!(app.take_effects().is_empty());
}

#[test]
fn tab_cycles_through_the_panes() {
    let mut app = chat_app();
    assert_eq!(focus(&app), ChatFocus::Sidebar);
    press(&mut app, KeyCode::Tab);
    assert_eq!(focus(&app), ChatFocus::MainArea);
    press(&mut app, KeyCode::Tab);
    assert_eq!(focus(&app), ChatFocus::TabBar);
    press(&mut app, KeyCode::Tab);
    assert_eq!(focus(&app), ChatFocus::Sidebar);
    press(&mut app, KeyCode::BackTab);
    assert_eq!(focus(&app), ChatFocus::TabBar);
}

#[test]
fn routes_move_left_and_right_in_the_tab_bar() {
    let mut app = chat_app();
    press(&mut app, KeyCode::Esc);
    assert_eq!(focus(&app), ChatFocus::TabBar);
    assert_eq!(app.chat.nav_route, NavRoute::Messages);
    press(&mut app, KeyCode::Right);
    assert_eq!(app.chat.nav_route, NavRoute::Communities);
    press(&mut app, KeyCode::Right);
    press(&mut app, KeyCode::Right);
    assert_eq!(app.chat.nav_route, NavRoute::Settings);
    press(&mut app, KeyCode::Left);
    assert_eq!(app.chat.nav_route, NavRoute::Communities);
}

#[test]
fn enter_on_a_friend_opens_the_conversation() {
    let mut app = chat_app();
    press(&mut app, KeyCode::Enter);
    match &app.screen {
        Screen::Chat { focus, active_conversation, .. } => {
            assert_eq!(*focus, ChatFocus::MainArea);
            assert_eq!(*active_conversation, Some(0));
        }
        _ => panic!(),
    }
    let effects = app.take_effects();
    assert_eq!(effects.len(), 1);
    match &effects[0] {
        Effect::OpenConversation { friend_did } => assert_eq!(friend_did, "did:key:bob"),
        _ => panic!("expected a conversation load"),
    }
}

#[test]
fn typing_and_enter_sends_a_direct_message() {
    let mut app = chat_app();
    open_bob(&mut app);
    press(&mut app, KeyCode::Char('i'));
    assert_eq!(focus(&app), ChatFocus::Input);
    type_text(&mut app, "  hi there ");
    app.take_effects();
    press(&mut app, KeyCode::Enter);
    assert_eq!(app.chat.messages.len(), 1);
    let m = app.chat.messages[0].clone();
    assert_eq!(m.content, "hi there");
    assert!(m.is_mine);
    assert_eq!(m.sender_name, "Alice");
    assert_eq!(m.status, "sent");
    assert!(app.chat.message_input.is_empty());
    assert_eq!(app.chat.message_cursor, 0);
    let effects = app.take_effects();
    match &effects[0] {
        Effect::SendDirectMessage { friend_did, message_id, text, .. } => {
            assert_eq!(friend_did, "did:key:bob");
            assert_eq!(text, "hi there");
            assert_eq!(message_id.len(), 36);
            assert_eq!(message_id, &m.id);
        }
        _ => panic!("expected a direct message"),
    }
}

#[test]
fn blank_messages_are_not_sent() {
    let mut app = chat_app();
    open_bob(&mut app);
    press(&mut app, KeyCode::Char('i'));
    type_text(&mut app, "   ");
    app.take_effects();
    press(&mut app, KeyCode::Enter);
    assert!(app.chat.messages.is_empty());
    assert!(app.take_effects().is_empty());
    assert_eq!(app.chat.message_input.len(), 3);
}

#[test]
fn typing_indicators_are_at_least_three_seconds_apart() {
    let mut app = chat_app();
    open_bob(&mut app);
    press(&mut app, KeyCode::Char('i'));
    press_at(&mut app, KeyCode::Char('a'), 10_000);
    press_at(&mut app, KeyCode::Char('b'), 11_000);
    press_at(&mut app, KeyCode::Char('c'), 13_000);
    let typing: Vec<_> = app
        .take_effects()
        .into_iter()
        .filter(|e| matches!(e, Effect::SendTyping { .. }))
        .collect();
    assert_eq!(typing.len(), 2);
    assert_eq!(app.chat.last_typing_sent, Some(13_000));
}

#[test]
fn input_cursor_moves_and_deletes() {
    let mut app = chat_app();
    open_bob(&mut app);
    press(&mut app, KeyCode::Char('i'));
    type_text(&mut app, "abc");
    press(&mut app, KeyCode::Home);
    assert_eq!(app.chat.message_cursor, 0);
    press(&mut app, KeyCode::Delete);
    assert_eq!(app.chat.message_input, vec!['b', 'c']);
    press(&mut app, KeyCode::End);
    press(&mut app, KeyCode::Backspace);
    assert_eq!(app.chat.message_input, vec!['b']);
    press(&mut app, KeyCode::Esc);
    assert_eq!(focus(&app), ChatFocus::MainArea);
}

fn app_with_sent_message() -> App {
    let mut app = chat_app();
    open_bob(&mut app);
    press(&mut app, KeyCode::Char('i'));
    type_text(&mut app, "hello");
    press(&mut app, KeyCode::Enter);
    press(&mut app, KeyCode::Esc);
    app.take_effects();
    app
}

#[test]
fn deleting_an_own_message_after_confirmation() {
    let mut app = app_with_sent_message();
    press(&mut app, KeyCode::Char('e'));
    assert_eq!(app.chat.selected_message, Some(0));
    press(&mut app, KeyCode::Char('d'));
    assert_eq!(app.chat.message_action_mode, Some(MessageAction::Delete));
    press(&mut app, KeyCode::Char('y'));
    assert!(app.chat.messages[0].deleted);
    assert_eq!(app.chat.selected_message, None);
    assert_eq!(app.chat.message_action_mode, None);
    let effects = app.take_effects();
    match &effects[0] {
        Effect::DeleteDirectMessage { friend_did, message_id } => {
            assert_eq!(friend_did, "did:key:bob");
            assert_eq!(message_id, &app.chat.messages[0].id);
        }
        _ => panic!("expected a delete"),
    }
}

#[test]
fn declining_the_deletion_keeps_the_message() {
    let mut app = app_with_sent_message();
    press(&mut app, KeyCode::Char('e'));
    press(&mut app, KeyCode::Char('d'));
    press(&mut app, KeyCode::Char('n'));
    assert!(!app.chat.messages[0].deleted);
    assert_eq!(app.chat.message_action_mode, None);
    assert_eq!(app.chat.selected_message, Some(0));
    assert!(app.take_effects().is_empty());
}

#[test]
fn editing_an_own_message() {
    let mut app = app_with_sent_message();
    press(&mut app, KeyCode::Char('e'));
    press(&mut app, KeyCode::Char('e'));
    assert_eq!(app.chat.message_action_mode, Some(MessageAction::Edit));
    assert_eq!(app.chat.edit_buffer.iter().collect::<String>(), "hello");
    assert_eq!(app.chat.edit_cursor, 5);
    press(&mut app, KeyCode::Backspace);
    type_text(&mut app, "!");
    press(&mut app, KeyCode::Enter);
    assert_eq!(app.chat.messages[0].content, "hell!");
    assert!(app.chat.messages[0].edited_at.is_some());
    assert!(app.chat.edit_buffer.is_empty());
    let effects = app.take_effects();
    match &effects[0] {
        Effect::EditDirectMessage { content, edited_at, .. } => {
            assert_eq!(content, "hell!");
            assert_eq!(Some(*edited_at), app.chat.messages[0].edited_at);
        }
        _ => panic!("expected an edit"),
    }
}

#[test]
fn reacting_with_a_number_key() {
    let mut app = app_with_sent_message();
    press(&mut app, KeyCode::Char('e'));
    press(&mut app, KeyCode::Char('+'));
    assert_eq!(app.chat.message_action_mode, Some(MessageAction::React));
    press(&mut app, KeyCode::Char('1'));
    assert_eq!(app.chat.message_action_mode, None);
    let effects = app.take_effects();
    match &effects[0] {
        Effect::SendReaction { emoji, add, .. } => {
            assert_eq!(emoji, "\u{1F44D}");
            assert!(*add);
        }
        _ => panic!("expected a reaction"),
    }
}

#[test]
fn pinning_asks_for_a_toggle() {
    let mut app = app_with_sent_message();
    press(&mut app, KeyCode::Char('e'));
    press(&mut app, KeyCode::Char('p'));
    let effects = app.take_effects();
    assert!(matches!(effects[0], Effect::TogglePin { .. }));
    let id = app.chat.messages[0].id.clone();
    app.set_message_pinned(id, true);
    assert!(app.chat.messages[0].pinned);
}

#[test]
fn removing_a_friend_keeps_the_selection_in_the_list() {
    let mut app = chat_app();
    press(&mut app, KeyCode::Down);
    press(&mut app, KeyCode::Char('x'));
    match &app.screen {
        Screen::Chat { friends, selected_friend, active_conversation, .. } => {
            assert_eq!(friends.len(), 1);
            assert_eq!(friends[0].display_name, "Bob");
            assert_eq!(*selected_friend, 0);
            assert_eq!(*active_conversation, None);
        }
        _ => panic!(),
    }
    let effects = app.take_effects();
    match &effects[0] {
        Effect::RemoveFriend { did } => assert_eq!(did, "did:key:carol"),
        _ => panic!(),
    }
}

#[test]
fn blocking_a_friend() {
    let mut app = chat_app();
    press(&mut app, KeyCode::Char('b'));
    let effects = app.take_effects();
    match &effects[0] {
        Effect::BlockUser { did, display_name, .. } => {
            assert_eq!(did, "did:key:bob");
            assert_eq!(display_name.as_deref(), Some("Bob"));
        }
        _ => panic!(),
    }
}

#[test]
fn quitting_with_q() {
    let mut app = chat_app();
    press(&mut app, KeyCode::Char('q'));
    assert!(app.session.should_quit);
}

#[test]
fn sidebar_switches_to_groups_and_back() {
    let mut app = chat_app();
    press(&mut app, KeyCode::Char('g'));
    assert_eq!(app.chat.sidebar_mode, SidebarMode::Groups);
    assert!(matches!(app.take_effects()[0], Effect::ReloadGroups));
    press(&mut app, KeyCode::Char('g'));
    assert_eq!(app.chat.sidebar_mode, SidebarMode::DMs);
    assert!(app.take_effects().is_empty());
}

#[test]
fn a_key_clears_the_message_line() {
    let mut app = chat_app();
    app.set_error("something");
    press(&mut app, KeyCode::Other);
    assert_eq!(app.session.error_message, None);
}
