use umbra_cli::app::App;
use umbra_cli::effects::Effect;
use umbra_cli::keys::{KeyCode, KeyEvent};
use umbra_cli::store::{StoredFriend, StoredFriendRequest, StoredIdentity};
use umbra_cli::types::{
    AsyncAction, AsyncResult, ChatFocus, CommunityEntry, InviteEntry, RequestTab, ResolvedInvite,
    Screen, SearchResult, SidebarMode,
};

fn press(app: &mut App, code: KeyCode) -> Option<AsyncAction> {
    app.handle_key(KeyEvent::plain(code), 0)
}

fn type_text(app: &mut App, text: &str) {
    for c in text.chars() {
        press(app, KeyCode::Char(c));
    }
}

fn friend(did: &str, name: &str) -> StoredFriend {
    StoredFriend {
        did: did.to_string(),
        display_name: name.to_string(),
        username: None,
        encryption_key: None,
        signing_key: None,
    }
}

fn chat_app(has_relay: bool) -> App {
    let mut app = App::new(true);
    app.session.has_relay = has_relay;
    let stored = StoredIdentity {
        recovery_phrase: "words".to_string(),
        display_name: "Alice".to_string(),
        did: "did:key:alice".to_string(),
        created_at: 1,
        username: None,
        linked_platform: None,
        linked_username: None,
        discoverable: false,
    };
    app.restore_session(
        stored,
        "did:key:alice".to_string(),
        vec![friend("did:key:bob", "Bob"), friend("did:key:carol", "Carol")],
    );
    app.take_effects();
    app
}

fn message(app: &App) -> String {
    app.session.error_message.clone().unwrap_or_default()
}

#[test]
fn creating_a_group_with_one_friend() {
    let mut app = chat_app(false);
    press(&mut app, KeyCode::Char('g'));
    press(&mut app, KeyCode::Char('n'));
    assert!(matches!(app.screen, Screen::CreateGroup { .. }));
    type_text(&mut app, "Team");
    press(&mut app, KeyCode::Enter);
    press(&mut app, KeyCode::Down);
    press(&mut app, KeyCode::Char(' '));
    app.take_effects();
    press(&mut app, KeyCode::Enter);
    assert_eq!(message(&app), "Group 'Team' created with 1 member");
    assert_eq!(app.chat.sidebar_mode, SidebarMode::Groups);
    assert!(matches!(app.screen, Screen::Chat { focus: ChatFocus::Sidebar, .. }));
    let effects = app.take_effects();
    match &effects[0] {
        Effect::CreateGroup { group_id, name, members, .. } => {
            assert_eq!(group_id.len(), 36);
            assert_eq!(name, "Team");
            assert_eq!(members.len(), 2);
            assert_eq!(members[0], ("did:key:alice".to_string(), "Alice".to_string()));
            assert_eq!(members[1], ("did:key:carol".to_string(), "Carol".to_string()));
        }
        _ => panic!("expected a group"),
    }
    assert!(matches!(effects[1], Effect::ReloadGroups));
}

#[test]
fn a_group_needs_a_name_and_a_member() {
    let mut app = chat_app(false);
    press(&mut app, KeyCode::Char('g'));
    press(&mut app, KeyCode::Char('n'));
    press(&mut app, KeyCode::Tab);
    press(&mut app, KeyCode::Enter);
    assert_eq!(message(&app), "Group name is required");
    press(&mut app, KeyCode::Tab);
    type_text(&mut app, "X");
    press(&mut app, KeyCode::Tab);
    press(&mut app, KeyCode::Enter);
    assert_eq!(message(&app), "Select at least one friend to add");
    press(&mut app, KeyCode::Esc);
    assert!(matches!(app.screen, Screen::Chat { .. }));
}

#[test]
fn group_names_stop_growing_at_fifty_bytes() {
    let mut app = chat_app(false);
    press(&mut app, KeyCode::Char('g'));
    press(&mut app, KeyCode::Char('n'));
    type_text(&mut app, &"a".repeat(60));
    match &app.screen {
        Screen::CreateGroup { group_name, .. } => assert_eq!(group_name.len(), 50),
        _ => panic!(),
    }
}

#[test]
fn creating_a_community_saves_its_default_layout() {
    let mut app = chat_app(false);
    app.chat.nav_route = umbra_cli::types::NavRoute::Communities;
    press(&mut app, KeyCode::Char('n'));
    assert!(matches!(app.screen, Screen::CreateCommunity { .. }));
    type_text(&mut app, "Rustaceans");
    press(&mut app, KeyCode::Tab);
    type_text(&mut app, "  crabs  ");
    press(&mut app, KeyCode::Enter);
    let effects = app.take_effects();
    assert_eq!(effects.len(), 3);
    match &effects[0] {
        Effect::CreateCommunity { layout } => {
            assert_eq!(layout.community.name, "Rustaceans");
            assert_eq!(layout.community.description.as_deref(), Some("crabs"));
            assert!(layout.community.id.starts_with("community_"));
            assert_eq!(layout.space.name, "General");
            assert_eq!(layout.category.name, "Text Channels");
            assert_eq!(layout.channels[0].name, "welcome");
            assert_eq!(layout.channels[1].name, "general");
            assert_eq!(layout.channels[1].position, 1);
            assert_eq!(layout.roles[0].name, "Owner");
            assert_eq!(layout.roles[0].permissions, i64::MAX);
            assert_eq!(layout.roles[1].permissions, 280577);
            assert_eq!(layout.owner_role_id, layout.roles[0].id);
            assert_eq!(layout.creator.display_name.as_deref(), Some("Alice"));
        }
        _ => panic!("expected a community"),
    }
    assert!(matches!(effects[1], Effect::ReloadCommunities));
    assert!(matches!(effects[2], Effect::LoadFriends));
    match &app.screen {
        Screen::Chat { friends, focus, .. } => {
            assert!(friends.is_empty());
            assert_eq!(*focus, ChatFocus::Sidebar);
        }
        _ => panic!(),
    }
}

#[test]
fn a_community_needs_a_name() {
    let mut app = chat_app(false);
    app.chat.nav_route = umbra_cli::types::NavRoute::Communities;
    press(&mut app, KeyCode::Char('n'));
    press(&mut app, KeyCode::Enter);
    assert_eq!(message(&app), "Community name cannot be empty");
}

#[test]
fn joining_by_invite_code() {
    let mut app = chat_app(true);
    app.chat.nav_route = umbra_cli::types::NavRoute::Communities;
    press(&mut app, KeyCode::Char('j'));
    assert!(matches!(app.screen, Screen::JoinCommunity { .. }));
    press(&mut app, KeyCode::Enter);
    assert_eq!(message(&app), "Please enter an invite code");
    type_text(&mut app, "abc123");
    press(&mut app, KeyCode::Enter);
    match &app.take_effects()[0] {
        Effect::ResolveInvite { code } => assert_eq!(code, "abc123"),
        _ => panic!(),
    }
    assert!(matches!(app.screen, Screen::JoinCommunity { resolving: true, .. }));
    app.invite_resolved(ResolvedInvite {
        code: "abc123".to_string(),
        community_id: "c1".to_string(),
        community_name: "Crabs".to_string(),
        community_description: None,
        member_count: 3,
        invite_payload: "{}".to_string(),
    });
    press(&mut app, KeyCode::Enter);
    assert!(matches!(app.take_effects()[0], Effect::CheckMembership { .. }));
    app.join_checked(false);
    assert_eq!(message(&app), "Joined community 'Crabs'");
    let effects = app.take_effects();
    assert!(matches!(effects[0], Effect::JoinCommunity { .. }));
    assert!(matches!(effects[1], Effect::ReloadCommunities));
    assert!(matches!(effects[2], Effect::LoadFriends));
}

#[test]
fn joining_without_a_relay_is_refused() {
    let mut app = chat_app(false);
    app.chat.nav_route = umbra_cli::types::NavRoute::Communities;
    press(&mut app, KeyCode::Char('j'));
    type_text(&mut app, "abc");
    press(&mut app, KeyCode::Enter);
    assert_eq!(message(&app), "Not connected to relay");
}

#[test]
fn an_unknown_invite_code_is_reported() {
    let mut app = chat_app(true);
    app.invite_not_found("zzz");
    assert_eq!(message(&app), "Invite code 'zzz' not found");
}

#[test]
fn searching_and_sending_a_friend_request() {
    let mut app = chat_app(false);
    press(&mut app, KeyCode::Char('a'));
    assert!(matches!(app.screen, Screen::AddFriend { .. }));
    assert_eq!(press(&mut app, KeyCode::Enter).is_none(), true);
    assert_eq!(message(&app), "Enter a username or DID");
    type_text(&mut app, " dave#42 ");
    match press(&mut app, KeyCode::Enter) {
        Some(AsyncAction::SearchUser { query }) => assert_eq!(query, "dave#42"),
        _ => panic!("expected a search"),
    }
    assert!(app.search.searching);
    app.handle_async_result(AsyncResult::UserSearchResult {
        results: vec![SearchResult { did: "did:key:dave".to_string(), username: Some("dave#42".to_string()) }],
    });
    press(&mut app, KeyCode::Enter);
    match &app.take_effects()[0] {
        Effect::CheckRequestTarget { did } => assert_eq!(did, "did:key:dave"),
        _ => panic!(),
    }
    app.friend_request_checked(false, false);
    assert_eq!(message(&app), "Friend request sent to dave#42");
    match &app.take_effects()[0] {
        Effect::SendFriendRequest { request_id, did, display_name, .. } => {
            assert_eq!(request_id.len(), 36);
            assert_eq!(did, "did:key:dave");
            assert_eq!(display_name, "dave#42");
        }
        _ => panic!(),
    }
    assert!(matches!(app.screen, Screen::Chat { .. }));
    assert!(app.search.search_results.is_empty());
}

#[test]
fn a_friend_cannot_be_requested_again() {
    let mut app = chat_app(false);
    press(&mut app, KeyCode::Char('a'));
    app.handle_async_result(AsyncResult::UserSearchResult {
        results: vec![SearchResult { did: "did:key:bob".to_string(), username: None }],
    });
    press(&mut app, KeyCode::Enter);
    assert_eq!(message(&app), "Already in your friends list");
}

#[test]
fn a_blocked_user_cannot_be_requested() {
    let mut app = chat_app(false);
    press(&mut app, KeyCode::Char('a'));
    app.handle_async_result(AsyncResult::UserSearchResult {
        results: vec![SearchResult { did: "did:key:eve".to_string(), username: None }],
    });
    press(&mut app, KeyCode::Enter);
    app.take_effects();
    app.friend_request_checked(true, false);
    assert_eq!(message(&app), "This user is blocked");
    app.friend_request_checked(false, true);
    assert_eq!(message(&app), "Request already pending");
}

fn stored_request(id: &str, did: &str, name: &str) -> StoredFriendRequest {
    StoredFriendRequest {
        id: id.to_string(),
        did: did.to_string(),
        display_name: name.to_string(),
        username: None,
        direction: "incoming".to_string(),
        status: "pending".to_string(),
        created_at: 0,
        encryption_key: Some("ek".to_string()),
        signing_key: None,
    }
}

#[test]
fn accepting_an_incoming_request() {
    let mut app = chat_app(false);
    press(&mut app, KeyCode::Char('r'));
    assert!(matches!(app.take_effects()[0], Effect::LoadFriendRequests));
    app.set_friend_requests(
        vec![stored_request("r1", "did:key:dave", "Dave")],
        vec![stored_request("r2", "did:key:erin", "Erin")],
        vec![],
    );
    press(&mut app, KeyCode::Enter);
    assert_eq!(message(&app), "Dave added as friend");
    match &app.screen {
        Screen::FriendRequests { friends, requests, .. } => {
            assert_eq!(friends[0].did, "did:key:dave");
            assert_eq!(friends[0].encryption_key.as_deref(), Some("ek"));
            assert_eq!(requests.len(), 1);
            assert_eq!(requests[0].id, "r2");
        }
        _ => panic!(),
    }
    assert!(matches!(app.take_effects()[0], Effect::AcceptFriendRequest { .. }));
}

#[test]
fn cancelling_an_outgoing_request_and_blocking() {
    let mut app = chat_app(false);
    press(&mut app, KeyCode::Char('r'));
    app.set_friend_requests(
        vec![stored_request("r1", "did:key:dave", "Dave")],
        vec![stored_request("r2", "did:key:erin", "Erin")],
        vec![],
    );
    press(&mut app, KeyCode::Tab);
    press(&mut app, KeyCode::Char('x'));
    assert_eq!(message(&app), "Cancelled request to Erin");
    press(&mut app, KeyCode::Tab);
    press(&mut app, KeyCode::Tab);
    match &app.screen {
        Screen::FriendRequests { active_tab, .. } => assert_eq!(*active_tab, RequestTab::Incoming),
        _ => panic!(),
    }
    press(&mut app, KeyCode::Char('b'));
    assert_eq!(message(&app), "Blocked Dave");
    match &app.screen {
        Screen::FriendRequests { requests, blocked, .. } => {
            assert!(requests.is_empty());
            assert_eq!(blocked.len(), 1);
        }
        _ => panic!(),
    }
    press(&mut app, KeyCode::Tab);
    press(&mut app, KeyCode::Tab);
    press(&mut app, KeyCode::Char('u'));
    assert_eq!(message(&app), "Unblocked Dave");
    press(&mut app, KeyCode::Esc);
    assert!(matches!(app.screen, Screen::Chat { .. }));
}

#[test]
fn invites_are_created_and_the_selection_clamped() {
    let mut app = chat_app(false);
    app.chat.nav_route = umbra_cli::types::NavRoute::Communities;
    app.set_communities(vec![CommunityEntry {
        id: "c1".to_string(),
        name: "Crabs".to_string(),
        description: None,
        created_by: "did:key:alice".to_string(),
        member_count: 4,
    }]);
    app.comm.active_community = Some("c1".to_string());
    press(&mut app, KeyCode::Char('I'));
    assert!(matches!(app.take_effects()[0], Effect::LoadInvites { .. }));
    press(&mut app, KeyCode::Char('n'));
    let effects = app.take_effects();
    match &effects[0] {
        Effect::CreateInvite { invite_id, code, community_name, member_count, .. } => {
            assert!(invite_id.starts_with("inv_"));
            assert_eq!(code.len(), 8);
            assert_eq!(community_name, "Crabs");
            assert_eq!(*member_count, 4);
            assert_eq!(message(&app), format!("Invite created: {}", code));
        }
        _ => panic!(),
    }
    let inv = |id: &str| InviteEntry {
        id: id.to_string(),
        community_id: "c1".to_string(),
        code: "code".to_string(),
        creator_did: "did:key:alice".to_string(),
        max_uses: None,
        use_count: 0,
        expires_at: None,
        created_at: 0,
    };
    app.set_invites(vec![inv("a"), inv("b")]);
    press(&mut app, KeyCode::Down);
    press(&mut app, KeyCode::Char('d'));
    assert_eq!(message(&app), "Invite deleted");
    app.set_invites(vec![inv("a")]);
    match &app.screen {
        Screen::CommunityInvites { selected_invite, .. } => assert_eq!(*selected_invite, 0),
        _ => panic!(),
    }
}

#[test]
fn kicking_a_member() {
    let mut app = chat_app(false);
    app.chat.nav_route = umbra_cli::types::NavRoute::Communities;
    app.comm.active_community = Some("c1".to_string());
    press(&mut app, KeyCode::Char('m'));
    app.set_community_members(vec![
        umbra_cli::types::CommunityMemberEntry { did: "did:key:alice".to_string(), display_name: None },
        umbra_cli::types::CommunityMemberEntry { did: "did:key:zed-long-did".to_string(), display_name: None },
    ]);
    press(&mut app, KeyCode::Enter);
    assert_eq!(message(&app), "Cannot perform actions on yourself");
    press(&mut app, KeyCode::Down);
    press(&mut app, KeyCode::Enter);
    match &app.screen {
        Screen::MemberActions { member_name, .. } => assert_eq!(member_name, "did:key:"),
        _ => panic!(),
    }
    app.take_effects();
    press(&mut app, KeyCode::Enter);
    assert_eq!(message(&app), "Kicked did:key: from community");
    let effects = app.take_effects();
    assert!(matches!(effects[0], Effect::KickMember { .. }));
    assert!(matches!(effects[1], Effect::ReloadCommunities));
    assert!(matches!(effects[2], Effect::LoadCommunityMembers { .. }));
    assert!(matches!(app.screen, Screen::CommunityMembers { .. }));
}
