//! What the main loop loaded from the store, put in place: friend lists,
//! requests, communities and their members, roles and invites, and the
//! reactions and pins of messages.

use vstd::prelude::*;
use crate::app::{App, AppView, CommView};
use crate::lifecycle::{friend_of, friends_of};
use crate::msglist::{mark_pinned, mark_reactions, update_first};
use crate::store::{StoredBlockedUser, StoredFriend, StoredFriendRequest};
use crate::types::{
    BlockedEntry, CommunityEntry, CommunityMemberEntry, DisplayMessage, FriendRequestEntry,
    InviteEntry, RequestTab, RoleEntry, Screen,
};

verus! {

/// The request entry shown for a stored request in a direction.
pub open spec fn request_entry(r: StoredFriendRequest, dir: RequestTab) -> FriendRequestEntry {
    FriendRequestEntry {
        id: r.id,
        display_name: r.display_name,
        did: r.did,
        username: r.username,
        direction: dir,
        encryption_key: r.encryption_key,
        signing_key: r.signing_key,
    }
}

/// The entry shown for a stored blocked user.
pub open spec fn blocked_entry(b: StoredBlockedUser) -> BlockedEntry {
    BlockedEntry { did: b.did, display_name: b.display_name, username: b.username }
}

/// Request entries in one direction, in order.
pub fn request_entries(v: Vec<StoredFriendRequest>, dir: RequestTab) -> (r: Vec<FriendRequestEntry>)
    ensures
        r@ == v@.map_values(|x: StoredFriendRequest| request_entry(x, dir)),
{
    let ghost orig = v@;
    let total = v.len();
    let mut v = v;
    let mut out: Vec<FriendRequestEntry> = Vec::new();
    let mut k: usize = 0;
    proof {
        assert(orig.subrange(0, orig.len() as int) =~= orig);
    }
    while v.len() > 0
        invariant
            k <= orig.len(),
            orig.len() == total,
            v@ == orig.subrange(k as int, orig.len() as int),
            out@ == orig.subrange(0, k as int).map_values(|x: StoredFriendRequest| request_entry(x, dir)),
        decreases v@.len(),
    {
        let x = v.remove(0);
        proof {
            assert(x == orig[k as int]);
            assert(v@ =~= orig.subrange(k + 1, orig.len() as int));
        }
        out.push(
            FriendRequestEntry {
                id: x.id,
                display_name: x.display_name,
                did: x.did,
                username: x.username,
                direction: dir,
                encryption_key: x.encryption_key,
                signing_key: x.signing_key,
            },
        );
        k = k + 1;
        proof {
            assert(out@ =~= orig.subrange(0, k as int).map_values(
                |x: StoredFriendRequest| request_entry(x, dir),
            ));
        }
    }
    out
}

/// Blocked entries, in order.
pub fn blocked_entries(v: Vec<StoredBlockedUser>) -> (r: Vec<BlockedEntry>)
    ensures
        r@ == v@.map_values(|x: StoredBlockedUser| blocked_entry(x)),
{
    let ghost orig = v@;
    let total = v.len();
    let mut v = v;
    let mut out: Vec<BlockedEntry> = Vec::new();
    let mut k: usize = 0;
    while v.len() > 0
        invariant
            k <= orig.len(),
            orig.len() == total,
            v@ == orig.subrange(k as int, orig.len() as int),
            out@ == orig.subrange(0, k as int).map_values(|x: StoredBlockedUser| blocked_entry(x)),
        decreases v@.len(),
    {
        let x = v.remove(0);
        proof {
            assert(x == orig[k as int]);
            assert(v@ =~= orig.subrange(k + 1, orig.len() as int));
        }
        out.push(BlockedEntry { did: x.did, display_name: x.display_name, username: x.username });
        k = k + 1;
        proof {
            assert(out@ =~= orig.subrange(0, k as int).map_values(|x: StoredBlockedUser| blocked_entry(x)));
        }
    }
    proof {
        assert(orig.subrange(0, orig.len() as int) =~= orig);
    }
    out
}

/// The friend requests screen shows the incoming requests, then the
/// outgoing ones, and the blocked users (elsewhere nothing changes).
pub open spec fn requests_loaded(
    pre: AppView,
    incoming: Seq<StoredFriendRequest>,
    outgoing: Seq<StoredFriendRequest>,
    blocked: Seq<StoredBlockedUser>,
    post: AppView,
) -> bool {
    match pre.screen {
        Screen::FriendRequests { info, friends, selected_friend, selected_request, active_tab, .. } => {
            &&& post == (AppView { screen: post.screen, ..pre })
            &&& crate::friends::requests_screen(
                post.screen,
                info,
                friends@,
                selected_friend,
                incoming.map_values(|x: StoredFriendRequest| request_entry(x, RequestTab::Incoming))
                    + outgoing.map_values(|x: StoredFriendRequest| request_entry(x, RequestTab::Outgoing)),
                selected_request,
                active_tab,
                blocked.map_values(|x: StoredBlockedUser| blocked_entry(x)),
            )
        },
        _ => post == pre,
    }
}

impl App {
    /// The stored friend requests (incoming, outgoing) and blocked users.
    pub fn set_friend_requests(
        &mut self,
        incoming: Vec<StoredFriendRequest>,
        outgoing: Vec<StoredFriendRequest>,
        blocked: Vec<StoredBlockedUser>,
    )
        ensures
            old(self)@.wf() ==> final(self)@.wf(),
            requests_loaded(old(self)@, incoming@, outgoing@, blocked@, final(self)@),
    {
        let s = self.take_screen();
        self.screen = match s {
            Screen::FriendRequests { info, friends, selected_friend, selected_request, active_tab, .. } => {
                let mut requests = request_entries(incoming, RequestTab::Incoming);
                let mut out = request_entries(outgoing, RequestTab::Outgoing);
                requests.append(&mut out);
                Screen::FriendRequests {
                    info,
                    friends,
                    selected_friend,
                    requests,
                    selected_request,
                    active_tab,
                    blocked: blocked_entries(blocked),
                }
            },
            other => other,
        };
    }

    /// The stored friends, shown on the chat screen.
    pub fn set_friends(&mut self, friends: Vec<StoredFriend>)
        ensures
            old(self)@.wf() ==> final(self)@.wf(),
            match old(self)@.screen {
                Screen::Chat { info, focus, selected_friend, active_conversation, .. } => {
                    &&& final(self)@ == (AppView { screen: final(self)@.screen, ..old(self)@ })
                    &&& final(self)@.screen matches Screen::Chat {
                        info: i,
                        focus: f,
                        friends: fr,
                        selected_friend: s,
                        active_conversation: ac,
                    }
                    &&& i == info && f == focus && s == selected_friend && ac == active_conversation
                    &&& fr@ == friends@.map_values(|x: StoredFriend| friend_of(x))
                },
                _ => final(self)@ == old(self)@,
            },
    {
        let s = self.take_screen();
        self.screen = match s {
            Screen::Chat { info, focus, selected_friend, active_conversation, .. } => Screen::Chat {
                info,
                focus,
                friends: friends_of(friends),
                selected_friend,
                active_conversation,
            },
            other => other,
        };
    }

    /// The stored communities.
    pub fn set_communities(&mut self, communities: Vec<CommunityEntry>)
        ensures
            old(self)@.wf() ==> final(self)@.wf(),
            final(self)@ == (AppView {
                comm: CommView { communities: communities@, ..old(self)@.comm },
                ..old(self)@
            }),
    {
        self.comm.communities = communities;
    }

    /// The members of the community whose members screen is shown.
    pub fn set_community_members(&mut self, members: Vec<CommunityMemberEntry>)
        ensures
            old(self)@.wf() ==> final(self)@.wf(),
            match old(self)@.screen {
                Screen::CommunityMembers { info, community_id, community_name, selected_member, .. } => {
                    &&& final(self)@ == (AppView { screen: final(self)@.screen, ..old(self)@ })
                    &&& final(self)@.screen matches Screen::CommunityMembers {
                        info: i,
                        community_id: c,
                        community_name: n,
                        members: m,
                        selected_member: k,
                    }
                    &&& i == info && c == community_id && n == community_name && k == selected_member
                    &&& m@ == members@
                },
                _ => final(self)@ == old(self)@,
            },
    {
        let s = self.take_screen();
        self.screen = match s {
            Screen::CommunityMembers { info, community_id, community_name, selected_member, .. } => {
                Screen::CommunityMembers { info, community_id, community_name, members, selected_member }
            },
            other => other,
        };
    }

    /// The roles of the community whose roles screen is shown.
    pub fn set_community_roles(&mut self, roles: Vec<RoleEntry>)
        ensures
            old(self)@.wf() ==> final(self)@.wf(),
            match old(self)@.screen {
                Screen::CommunityRoles { info, community_id, community_name, selected_role, .. } => {
                    &&& final(self)@ == (AppView { screen: final(self)@.screen, ..old(self)@ })
                    &&& final(self)@.screen matches Screen::CommunityRoles {
                        info: i,
                        community_id: c,
                        community_name: n,
                        roles: r,
                        selected_role: k,
                    }
                    &&& i == info && c == community_id && n == community_name && k == selected_role
                    &&& r@ == roles@
                },
                _ => final(self)@ == old(self)@,
            },
    {
        let s = self.take_screen();
        self.screen = match s {
            Screen::CommunityRoles { info, community_id, community_name, selected_role, .. } => {
                Screen::CommunityRoles { info, community_id, community_name, roles, selected_role }
            },
            other => other,
        };
    }

    /// The invites of the community whose invites screen is shown; the
    /// selection moves to the last invite when it fell off the end.
    pub fn set_invites(&mut self, invites: Vec<InviteEntry>)
        ensures
            old(self)@.wf() ==> final(self)@.wf(),
            match old(self)@.screen {
                Screen::CommunityInvites { info, community_id, community_name, selected_invite, .. } => {
                    &&& final(self)@ == (AppView { screen: final(self)@.screen, ..old(self)@ })
                    &&& final(self)@.screen matches Screen::CommunityInvites {
                        info: i,
                        community_id: c,
                        community_name: n,
                        invites: v,
                        selected_invite: k,
                    }
                    &&& i == info && c == community_id && n == community_name && v@ == invites@
                    &&& k == if selected_invite >= invites@.len() && invites@.len() > 0 {
                        (invites@.len() - 1) as usize
                    } else {
                        selected_invite
                    }
                },
                _ => final(self)@ == old(self)@,
            },
    {
        let s = self.take_screen();
        self.screen = match s {
            Screen::CommunityInvites { info, community_id, community_name, selected_invite, .. } => {
                let n = invites.len();
                let k = if selected_invite >= n && n > 0 {
                    n - 1
                } else {
                    selected_invite
                };
                Screen::CommunityInvites { info, community_id, community_name, invites, selected_invite: k }
            },
            other => other,
        };
    }

    /// The reloaded reactions of message `id`.
    pub fn set_message_reactions(&mut self, id: String, reactions: Vec<(String, usize)>)
        ensures
            old(self)@.wf() ==> final(self)@.wf(),
            update_first(
                old(self)@.chat.messages,
                id@,
                final(self)@.chat.messages,
                |m: DisplayMessage| DisplayMessage { reactions, ..m },
            ),
            final(self)@ == (AppView {
                chat: crate::app::ChatView { messages: final(self)@.chat.messages, ..old(self)@.chat },
                ..old(self)@
            }),
    {
        mark_reactions(&mut self.chat.messages, id.as_str(), reactions);
    }

    /// Message `id` is now pinned or not.
    pub fn set_message_pinned(&mut self, id: String, pinned: bool)
        ensures
            old(self)@.wf() ==> final(self)@.wf(),
            update_first(
                old(self)@.chat.messages,
                id@,
                final(self)@.chat.messages,
                |m: DisplayMessage| DisplayMessage { pinned, ..m },
            ),
            final(self)@ == (AppView {
                chat: crate::app::ChatView { messages: final(self)@.chat.messages, ..old(self)@.chat },
                ..old(self)@
            }),
    {
        mark_pinned(&mut self.chat.messages, id.as_str(), pinned);
    }
}

} // verus!
