//! Records as they are kept in the local store.

use vstd::prelude::*;

verus! {
/// All identity fields of the local store.
#[derive(Clone, Debug)]
pub struct StoredIdentity {
    pub recovery_phrase: String,
    pub display_name: String,
    pub did: String,
    pub created_at: i64,
    pub username: Option<String>,
    pub linked_platform: Option<String>,
    pub linked_username: Option<String>,
    pub discoverable: bool,
}

/// A stored friend.
#[derive(Clone, Debug)]
pub struct StoredFriend {
    pub did: String,
    pub display_name: String,
    pub username: Option<String>,
    pub encryption_key: Option<String>,
    pub signing_key: Option<String>,
}

/// A stored friend request (incoming or outgoing).
#[derive(Clone, Debug)]
pub struct StoredFriendRequest {
    pub id: String,
    pub did: String,
    pub display_name: String,
    pub username: Option<String>,
    pub direction: String,
    pub status: String,
    pub created_at: i64,
    pub encryption_key: Option<String>,
    pub signing_key: Option<String>,
}

/// A stored blocked user.
#[derive(Clone, Debug)]
pub struct StoredBlockedUser {
    pub did: String,
    pub display_name: Option<String>,
    pub username: Option<String>,
}

/// A stored direct message.
#[derive(Clone, Debug)]
pub struct StoredMessage {
    pub id: String,
    pub conversation_id: String,
    pub sender_did: String,
    pub content: String,
    pub timestamp: i64,
    pub delivered: bool,
    pub edited_at: Option<i64>,
    pub deleted: bool,
    pub status: String,
}

/// A stored conversation.
#[derive(Clone, Debug)]
pub struct StoredConversation {
    pub id: String,
    pub friend_did: String,
    pub last_message_at: Option<i64>,
    pub unread_count: i32,
}

/// A stored reaction on a message.
#[derive(Clone, Debug)]
pub struct StoredReaction {
    pub id: String,
    pub message_id: String,
    pub sender_did: String,
    pub emoji: String,
    pub created_at: i64,
}

/// A stored group.
#[derive(Clone, Debug)]
pub struct StoredGroup {
    pub id: String,
    pub name: String,
    pub description: Option<String>,
    pub created_by: String,
    pub created_at: i64,
}

/// A stored group member.
#[derive(Clone, Debug)]
pub struct StoredGroupMember {
    pub group_id: String,
    pub did: String,
    pub display_name: Option<String>,
    pub joined_at: i64,
}

/// A stored group message.
#[derive(Clone, Debug)]
pub struct StoredGroupMessage {
    pub id: String,
    pub group_id: String,
    pub sender_did: String,
    pub content: String,
    pub timestamp: i64,
    pub edited_at: Option<i64>,
    pub deleted: bool,
}

/// A stored community.
#[derive(Clone, Debug)]
pub struct StoredCommunity {
    pub id: String,
    pub name: String,
    pub description: Option<String>,
    pub created_by: String,
    pub created_at: i64,
}

/// A stored space of a community.
#[derive(Clone, Debug)]
pub struct StoredSpace {
    pub id: String,
    pub community_id: String,
    pub name: String,
    pub position: i32,
}

/// A stored category of a space.
#[derive(Clone, Debug)]
pub struct StoredCategory {
    pub id: String,
    pub space_id: String,
    pub name: String,
    pub position: i32,
}

/// A stored channel of a category.
#[derive(Clone, Debug)]
pub struct StoredChannel {
    pub id: String,
    pub category_id: String,
    pub community_id: String,
    pub name: String,
    pub channel_type: String,
    pub position: i32,
}

/// A stored community member.
#[derive(Clone, Debug)]
pub struct StoredCommunityMember {
    pub community_id: String,
    pub did: String,
    pub display_name: Option<String>,
    pub joined_at: i64,
}

/// A stored community role.
#[derive(Clone, Debug)]
pub struct StoredCommunityRole {
    pub id: String,
    pub community_id: String,
    pub name: String,
    pub permissions: i64,
    pub position: i32,
    pub color: Option<String>,
}

/// A role assigned to a community member.
#[derive(Clone, Debug)]
pub struct StoredMemberRole {
    pub community_id: String,
    pub did: String,
    pub role_id: String,
}

/// A stored community invite.
#[derive(Clone, Debug)]
pub struct StoredCommunityInvite {
    pub id: String,
    pub community_id: String,
    pub code: String,
    pub creator_did: String,
    pub max_uses: Option<i32>,
    pub use_count: i32,
    pub expires_at: Option<i64>,
    pub created_at: i64,
}

/// A stored community channel message.
#[derive(Clone, Debug)]
pub struct StoredCommunityMessage {
    pub id: String,
    pub channel_id: String,
    pub sender_did: String,
    pub content: String,
    pub timestamp: i64,
    pub edited_at: Option<i64>,
    pub deleted: bool,
}


} // verus!
