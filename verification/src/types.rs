//! Screens, list entries and the messages exchanged with the main loop.

use vstd::prelude::*;
use crate::api::ImportedProfile;

verus! {

/// Information displayed on the chat screen after onboarding.
#[derive(Clone, Debug)]
pub struct DashboardInfo {
    pub display_name: String,
    pub did: String,
    pub created_at: i64,
    pub username: Option<String>,
    pub linked_platform: Option<String>,
    pub linked_username: Option<String>,
}

/// Which pane has keyboard focus on the Chat screen.
#[derive(Clone, Copy, Debug, PartialEq, Eq, Structural)]
pub enum ChatFocus {
    TabBar,
    Sidebar,
    MainArea,
    Input,
}

/// Route selected in the tab bar.
#[derive(Clone, Copy, Debug, PartialEq, Eq, Structural)]
pub enum NavRoute {
    Home,
    Messages,
    Communities,
    Settings,
}

/// A friend entry for the sidebar list.
#[derive(Clone, Debug)]
pub struct FriendEntry {
    pub did: String,
    pub display_name: String,
    pub username: Option<String>,
    pub encryption_key: Option<String>,
    pub signing_key: Option<String>,
}

/// A message displayed in the chat area.
#[derive(Clone, Debug)]
pub struct DisplayMessage {
    pub id: String,
    pub sender_did: String,
    pub sender_name: String,
    pub content: String,
    pub timestamp: i64,
    pub is_mine: bool,
    pub edited_at: Option<i64>,
    pub deleted: bool,
    pub status: String,
    /// (emoji, count) pairs.
    pub reactions: Vec<(String, usize)>,
    pub pinned: bool,
}

/// Actions that can be performed on a selected message.
#[derive(Clone, Copy, Debug, PartialEq, Eq, Structural)]
pub enum MessageAction {
    Edit,
    Delete,
    React,
    Pin,
}

/// Sidebar display mode: direct messages or groups.
#[derive(Clone, Copy, Debug, PartialEq, Eq, Structural)]
pub enum SidebarMode {
    DMs,
    Groups,
}

/// A group entry for the sidebar list.
#[derive(Clone, Debug)]
pub struct GroupEntry {
    pub id: String,
    pub name: String,
    pub description: Option<String>,
    pub created_by: String,
    pub members: Vec<GroupMemberEntry>,
    pub last_message_at: Option<i64>,
}

/// A member of a group.
#[derive(Clone, Debug)]
pub struct GroupMemberEntry {
    pub did: String,
    pub display_name: Option<String>,
}

/// Focus target when creating a group.
#[derive(Clone, Copy, Debug, PartialEq, Eq, Structural)]
pub enum CreateGroupFocus {
    Name,
    Members,
}

/// A community entry for the sidebar list.
#[derive(Clone, Debug)]
pub struct CommunityEntry {
    pub id: String,
    pub name: String,
    pub description: Option<String>,
    pub created_by: String,
    pub member_count: usize,
}

/// A space within a community.
#[derive(Clone, Debug)]
pub struct SpaceEntry {
    pub id: String,
    pub name: String,
    pub categories: Vec<CategoryEntry>,
}

/// A category within a space.
#[derive(Clone, Debug)]
pub struct CategoryEntry {
    pub id: String,
    pub name: String,
    pub channels: Vec<ChannelEntry>,
}

/// A channel within a category.
#[derive(Clone, Debug)]
pub struct ChannelEntry {
    pub id: String,
    pub name: String,
    pub channel_type: String,
}

/// A member of a community.
#[derive(Clone, Debug)]
pub struct CommunityMemberEntry {
    pub did: String,
    pub display_name: Option<String>,
}

/// Focus target within the community view.
#[derive(Clone, Copy, Debug, PartialEq, Eq, Structural)]
pub enum CommunityFocus {
    CommunityList,
    ChannelTree,
    ChannelContent,
    Input,
}

/// A flattened item of the channel tree.
#[derive(Clone, Debug)]
pub enum ChannelTreeItem {
    Space { id: String, name: String },
    Category { id: String, name: String },
    Channel { id: String, name: String, channel_type: String },
}

/// Focus target when creating a community.
#[derive(Clone, Copy, Debug, PartialEq, Eq, Structural)]
pub enum CreateCommunityFocus {
    Name,
    Description,
}

/// A role entry for display.
#[derive(Clone, Debug)]
pub struct RoleEntry {
    pub id: String,
    pub name: String,
    pub permissions: i64,
    pub position: i32,
    pub color: Option<String>,
}

/// Actions available on a community member.
#[derive(Clone, Copy, Debug, PartialEq, Eq, Structural)]
pub enum MemberActionItem {
    Kick,
    Ban,
}

/// An invite entry for display.
#[derive(Clone, Debug)]
pub struct InviteEntry {
    pub id: String,
    pub community_id: String,
    pub code: String,
    pub creator_did: String,
    pub max_uses: Option<i32>,
    pub use_count: i32,
    pub expires_at: Option<i64>,
    pub created_at: i64,
}

/// A resolved invite for joining a community.
#[derive(Clone, Debug)]
pub struct ResolvedInvite {
    pub code: String,
    pub community_id: String,
    pub community_name: String,
    pub community_description: Option<String>,
    pub member_count: u32,
    pub invite_payload: String,
}

/// Direction filter of the friend requests screen.
#[derive(Clone, Copy, Debug, PartialEq, Eq, Structural)]
pub enum RequestTab {
    Incoming,
    Outgoing,
    Blocked,
}

/// A search result from user discovery.
#[derive(Clone, Debug)]
pub struct SearchResult {
    pub did: String,
    pub username: Option<String>,
}

/// A friend request entry for display.
#[derive(Clone, Debug)]
pub struct FriendRequestEntry {
    pub id: String,
    pub display_name: String,
    pub did: String,
    pub username: Option<String>,
    pub direction: RequestTab,
    pub encryption_key: Option<String>,
    pub signing_key: Option<String>,
}

/// A blocked user entry for display.
#[derive(Clone, Debug)]
pub struct BlockedEntry {
    pub did: String,
    pub display_name: Option<String>,
    pub username: Option<String>,
}

/// Async actions the main loop executes against the discovery service.
#[derive(Debug)]
pub enum AsyncAction {
    StartProfileImport { platform: String, did: Option<String> },
    PollProfileImport { state: String },
    LinkAccount { did: String, platform: String, platform_id: String, username: String },
    RegisterUsername { did: String, name: String },
    EnableDiscovery { did: String, discoverable: bool },
    SearchUser { query: String },
}

/// Results of completed async operations.
#[derive(Debug)]
pub enum AsyncResult {
    ProfileImportStarted { redirect_url: String, state: String },
    ProfileImportResult { profile: Option<ImportedProfile> },
    ProfileImportError(String),
    AccountLinked,
    AccountLinkError(String),
    UsernameRegistered { username: String },
    UsernameError(String),
    DiscoveryUpdated,
    DiscoveryError(String),
    UserSearchResult { results: Vec<SearchResult> },
    UserSearchError(String),
}

/// The current screen of the application.  Text being typed on a screen is
/// kept as the sequence of its characters.
#[derive(Debug)]
pub enum Screen {
    Welcome,
    CreateName,
    CreatePhrase { name: String, phrase: Vec<String> },
    CreateConfirm { name: String, phrase: Vec<String> },
    ImportPhrase,
    ImportName { phrase: Vec<String> },
    ProfileImportSelect { did: String, display_name: String },
    ProfileImportLoading {
        did: String,
        display_name: String,
        platform: String,
        state: String,
        poll_count: u16,
    },
    ProfileImportSuccess {
        did: String,
        display_name: String,
        platform: String,
        platform_username: String,
        platform_id: String,
    },
    UsernameRegister {
        did: String,
        display_name: String,
        linked_platform: Option<String>,
        linked_username: Option<String>,
    },
    UsernameSuccess {
        did: String,
        display_name: String,
        username: String,
        linked_platform: Option<String>,
        linked_username: Option<String>,
    },
    DiscoveryOptIn {
        did: String,
        display_name: String,
        username: Option<String>,
        linked_platform: Option<String>,
        linked_username: Option<String>,
    },
    Chat {
        info: DashboardInfo,
        focus: ChatFocus,
        friends: Vec<FriendEntry>,
        selected_friend: usize,
        active_conversation: Option<usize>,
    },
    AddFriend { info: DashboardInfo, friends: Vec<FriendEntry>, selected_friend: usize },
    FriendRequests {
        info: DashboardInfo,
        friends: Vec<FriendEntry>,
        selected_friend: usize,
        requests: Vec<FriendRequestEntry>,
        selected_request: usize,
        active_tab: RequestTab,
        blocked: Vec<BlockedEntry>,
    },
    CreateGroup {
        info: DashboardInfo,
        friends: Vec<FriendEntry>,
        selected_friend: usize,
        group_name: Vec<char>,
        selected_members: Vec<bool>,
        member_cursor: usize,
        field_focus: CreateGroupFocus,
    },
    CreateCommunity {
        info: DashboardInfo,
        community_name: Vec<char>,
        community_description: Vec<char>,
        field_focus: CreateCommunityFocus,
    },
    CommunityMembers {
        info: DashboardInfo,
        community_id: String,
        community_name: String,
        members: Vec<CommunityMemberEntry>,
        selected_member: usize,
    },
    CommunityRoles {
        info: DashboardInfo,
        community_id: String,
        community_name: String,
        roles: Vec<RoleEntry>,
        selected_role: usize,
    },
    MemberActions {
        info: DashboardInfo,
        community_id: String,
        member_did: String,
        member_name: String,
        actions: Vec<MemberActionItem>,
        selected_action: usize,
    },
    CommunityInvites {
        info: DashboardInfo,
        community_id: String,
        community_name: String,
        invites: Vec<InviteEntry>,
        selected_invite: usize,
    },
    JoinCommunity {
        info: DashboardInfo,
        invite_code_input: Vec<char>,
        resolved_invite: Option<ResolvedInvite>,
        resolving: bool,
    },
}

} // verus!
