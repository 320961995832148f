//! Outside work that the state machine asks the main loop to perform:
//! writes to the local store, messages for the relay, identity operations,
//! and loads whose results come back through the `App::set_*` / `App::show_*`
//! methods.

use vstd::prelude::*;
use crate::store::{
    StoredCategory, StoredChannel, StoredCommunity, StoredCommunityMember, StoredCommunityMessage,
    StoredCommunityRole, StoredSpace,
};
use crate::types::{FriendRequestEntry, ResolvedInvite};

verus! {

/// Everything a new community is saved with: its record, the default space,
/// category and channels, its creator as first member, and the default
/// roles (the owner role first).
#[derive(Debug)]
pub struct CommunityLayout {
    pub community: StoredCommunity,
    pub space: StoredSpace,
    pub category: StoredCategory,
    pub channels: Vec<StoredChannel>,
    pub creator: StoredCommunityMember,
    pub roles: Vec<StoredCommunityRole>,
    /// The role given to the creator.
    pub owner_role_id: String,
}

/// One piece of outside work, in the order in which it is to be performed.
#[derive(Debug)]
pub enum Effect {
    // ── identity ────────────────────────────────────────────────────
    /// Create a new identity; the answer goes to `App::identity_created`.
    CreateIdentity { name: String },
    /// Check a recovery phrase; the answer goes to `App::phrase_validated`.
    ValidatePhrase { words: Vec<String> },
    /// Restore an identity from its phrase; the answer goes to `App::identity_imported`.
    ImportIdentity { words: Vec<String>, name: String },
    /// Persist the identity.
    SaveIdentity { phrase: Vec<String>, display_name: String, did: String, created_at: i64 },
    /// Open a web page in the user's browser.
    OpenBrowser { url: String },
    UpdateLinkedAccount { platform: String, username: String },
    UpdateUsername { username: String },
    UpdateDiscoverable { discoverable: bool },
    // ── friends ─────────────────────────────────────────────────────
    /// Load pending requests and blocked users; answer: `App::set_friend_requests`.
    LoadFriendRequests,
    /// Load the friend list; answer: `App::set_friends`.
    LoadFriends,
    RemoveFriend { did: String },
    BlockUser { did: String, display_name: Option<String>, username: Option<String> },
    UnblockUser { did: String },
    DeleteFriendRequest { id: String },
    /// Save the requester as a friend, drop the request and send the acceptance.
    AcceptFriendRequest { request: FriendRequestEntry },
    /// Ask whether `did` is blocked or already has a pending request;
    /// answer: `App::friend_request_checked`.
    CheckRequestTarget { did: String },
    /// Save an outgoing request and send it over the relay.
    SendFriendRequest { request_id: String, did: String, display_name: String, username: Option<String> },
    // ── direct messages ─────────────────────────────────────────────
    /// Load a conversation; answer: `App::show_direct_messages`.
    OpenConversation { friend_did: String },
    SendDirectMessage { friend_did: String, message_id: String, text: String, timestamp: i64 },
    EditDirectMessage { friend_did: String, message_id: String, content: String, edited_at: i64 },
    DeleteDirectMessage { friend_did: String, message_id: String },
    /// Record a reaction and send it; answer: `App::set_message_reactions`.
    SendReaction { friend_did: String, message_id: String, emoji: String, add: bool },
    /// Flip the pin of a message and send it; answer: `App::set_message_pinned`.
    TogglePin { friend_did: String, message_id: String },
    SendTyping { friend_did: String },
    SendReadReceipt { friend_did: String, message_id: String },
    // ── groups ──────────────────────────────────────────────────────
    /// Load groups; answer: `App::set_groups`.
    ReloadGroups,
    /// Load a group's messages; answer: `App::show_group_messages`.
    LoadGroupMessages { group_id: String },
    /// Save a group with its members (creator first) and invite the others.
    CreateGroup { group_id: String, name: String, members: Vec<(String, String)>, timestamp: i64 },
    SendGroupMessage {
        group_id: String,
        message_id: String,
        content: String,
        timestamp: i64,
        recipients: Vec<String>,
    },
    EditGroupMessage {
        group_id: String,
        message_id: String,
        content: String,
        edited_at: i64,
        recipients: Vec<String>,
    },
    DeleteGroupMessage { group_id: String, message_id: String, recipients: Vec<String> },
    LeaveGroup { group_id: String, recipients: Vec<String> },
    // ── communities ─────────────────────────────────────────────────
    /// Load communities; answer: `App::set_communities`.
    ReloadCommunities,
    /// Save a new community with its default layout and roles, give the
    /// creator the owner role, and announce it to our friends.
    CreateCommunity { layout: CommunityLayout },
    /// Load spaces, categories and channels; answer: `App::set_community_structure`.
    LoadCommunityStructure { community_id: String },
    /// Load a channel's messages; answer: `App::show_channel_messages`.
    LoadChannelMessages { channel_id: String },
    /// Answer: `App::set_community_members`.
    LoadCommunityMembers { community_id: String },
    /// Answer: `App::set_community_roles`.
    LoadCommunityRoles { community_id: String },
    /// Answer: `App::set_invites`.
    LoadInvites { community_id: String },
    LeaveCommunity { community_id: String },
    KickMember { community_id: String, member_did: String, community_name: String },
    BanMember { community_id: String, member_did: String, community_name: String },
    SendCommunityMessage {
        community_id: String,
        channel_id: String,
        message_id: String,
        content: String,
        timestamp: i64,
    },
    EditCommunityMessage {
        community_id: String,
        channel_id: String,
        message_id: String,
        content: String,
        timestamp: i64,
    },
    DeleteCommunityMessage { community_id: String, channel_id: String, message_id: String },
    CreateInvite {
        invite_id: String,
        community_id: String,
        code: String,
        created_at: i64,
        community_name: String,
        community_description: Option<String>,
        member_count: u32,
    },
    DeleteInvite { invite_id: String, code: String },
    ResolveInvite { code: String },
    /// Ask whether we already belong to the community; answer:
    /// `App::join_checked`.
    CheckMembership { community_id: String },
    /// Save the community, add us, and tell the creator named in the payload.
    JoinCommunity { invite: ResolvedInvite, joined_at: i64, member_name: String },
    // ── what arrives over the relay ─────────────────────────────────
    /// Save an incoming friend request.
    SaveIncomingRequest {
        id: String,
        did: String,
        display_name: String,
        encryption_key: Option<String>,
        signing_key: Option<String>,
    },
    /// Save the friend who accepted our request, and drop that request.
    SaveAcceptedFriend {
        did: String,
        display_name: String,
        encryption_key: Option<String>,
        signing_key: Option<String>,
        request_id: Option<String>,
    },
    /// Confirm to `to_did` that we saw their acceptance.
    SendAcceptAck { to_did: String },
    /// Save a received direct message (in the conversation with `peer_did`
    /// unless a conversation id is given), and count it unread when its
    /// conversation is not open.
    StoreIncomingDirect {
        conversation_id: Option<String>,
        peer_did: String,
        message_id: String,
        content: String,
        timestamp: i64,
        open: bool,
    },
    EditStoredMessage { message_id: String, content: String, edited_at: i64 },
    DeleteStoredMessage { message_id: String },
    /// Record a reaction from `sender_did`; answer: `App::set_message_reactions`.
    StoreReaction { message_id: String, sender_did: String, emoji: String, add: bool },
    MarkMessageRead { message_id: String },
    PinStoredMessage { conversation_id: String, message_id: String, pin: bool },
    /// Save a group we were added to, with its members and their names.
    SaveIncomingGroup {
        group_id: String,
        name: String,
        creator_did: String,
        timestamp: i64,
        members: Vec<(String, Option<String>)>,
    },
    SaveGroupMessage {
        message_id: String,
        group_id: String,
        sender_did: String,
        content: String,
        timestamp: i64,
    },
    RemoveGroupMember { group_id: String, member_did: String },
    DeleteGroup { group_id: String },
    EditStoredGroupMessage { message_id: String, content: String, edited_at: i64 },
    DeleteStoredGroupMessage { message_id: String },
    /// Save a community announced to us, with us and its creator as members.
    SaveIncomingCommunity {
        community: StoredCommunity,
        me: Option<StoredCommunityMember>,
        creator: StoredCommunityMember,
    },
    SaveCommunityMessage { message: StoredCommunityMessage },
    EditStoredCommunityMessage { message_id: String, content: String, edited_at: i64 },
    DeleteStoredCommunityMessage { message_id: String },
    RemoveCommunityMember { community_id: String, member_did: String },
    AddCommunityMember { member: StoredCommunityMember },
}

} // verus!
