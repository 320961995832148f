//! Sending, editing and deleting messages from the chat screen, in direct
//! conversations, groups and community channels.

use vstd::prelude::*;
use crate::app::{App, AppView, ChatView};
use crate::effects::Effect;
use crate::ids::uuid_text;
use crate::msglist::{
    deleted, edited, erased, friend_at, group_recipients, mark_deleted, mark_edited, mark_erased,
    recipients_of, update_first,
};
use crate::types::{DisplayMessage, FriendEntry, Screen};

verus! {

/// The friend of the active direct conversation, if any.
pub open spec fn active_friend(v: AppView) -> Option<FriendEntry> {
    match v.screen {
        Screen::Chat { friends, active_conversation, .. } => friend_at(friends@, active_conversation),
        _ => None,
    }
}

/// Our display name as shown in the dashboard ("Me" when not on a screen
/// that carries it).
pub open spec fn dashboard_name(s: Screen) -> Seq<char> {
    match s {
        Screen::Chat { info, .. } | Screen::CreateCommunity { info, .. } | Screen::CommunityMembers {
            info,
            ..
        } | Screen::CommunityRoles { info, .. } | Screen::MemberActions { info, .. }
        | Screen::CommunityInvites { info, .. } | Screen::JoinCommunity { info, .. }
        | Screen::AddFriend { info, .. } | Screen::FriendRequests { info, .. }
        | Screen::CreateGroup { info, .. } => info.display_name@,
        _ => "Me"@,
    }
}

/// Our identity's name ("Me" when none is loaded).
pub open spec fn identity_name(v: AppView) -> Seq<char> {
    match v.session.my_name {
        Some(n) => n@,
        None => "Me"@,
    }
}

/// A message we just sent, as displayed.
pub open spec fn own_message(
    m: DisplayMessage,
    id: String,
    me: String,
    name: Seq<char>,
    text: Seq<char>,
    ts: i64,
) -> bool {
    &&& m.id == id
    &&& m.sender_did == me
    &&& m.sender_name@ == name
    &&& m.content@ == text
    &&& m.timestamp == ts
    &&& m.is_mine
    &&& m.edited_at is None
    &&& !m.deleted
    &&& m.status@ == "sent"@
    &&& m.reactions@.len() == 0
    &&& !m.pinned
}

/// `post` is `pre` with the chat part replaced.
pub open spec fn with_chat(pre: AppView, c: ChatView) -> AppView {
    AppView { chat: c, ..pre }
}

/// Sending `text` to the active group.
pub open spec fn group_send_step(pre: AppView, text: Seq<char>, post: AppView) -> bool {
    match (pre.chat.active_group, pre.session.my_did) {
        (Some(g), Some(me)) => {
            &&& post.effects.len() == pre.effects.len() + 1
            &&& post.effects.subrange(0, pre.effects.len() as int) == pre.effects
            &&& post.effects.last() matches Effect::SendGroupMessage {
                group_id,
                message_id,
                content,
                timestamp,
                recipients,
            }
            &&& group_id == g && content@ == text
            &&& recipients@ == group_recipients(pre.chat.groups, g@, me@)
            &&& post.chat.messages.len() == pre.chat.messages.len() + 1
            &&& post.chat.messages.drop_last() == pre.chat.messages
            &&& own_message(
                post.chat.messages.last(),
                message_id,
                me,
                identity_name(pre),
                text,
                timestamp,
            )
            &&& post == (AppView {
                chat: ChatView { messages: post.chat.messages, message_scroll: 0, ..pre.chat },
                effects: post.effects,
                ..pre
            })
        },
        (Some(_), None) => {
            &&& post == pre.with_error_text(post.session.error_message)
            &&& post.session.error_message matches Some(m) && m@ == "Identity not loaded"@
        },
        _ => post == pre,
    }
}

/// Sending `text` to the active community channel.
pub open spec fn channel_send_step(pre: AppView, text: Seq<char>, post: AppView) -> bool {
    match (pre.comm.active_channel, pre.comm.active_community, pre.session.my_did) {
        (Some(ch), Some(c), Some(me)) => {
            &&& post.effects.len() == pre.effects.len() + 1
            &&& post.effects.subrange(0, pre.effects.len() as int) == pre.effects
            &&& post.effects.last() matches Effect::SendCommunityMessage {
                community_id,
                channel_id,
                message_id,
                content,
                timestamp,
            }
            &&& community_id == c && channel_id == ch && content@ == text
            &&& exists|t: u128| message_id@ == "cmsg_"@ + #[trigger] uuid_text(t)
            &&& post.chat.messages.len() == pre.chat.messages.len() + 1
            &&& post.chat.messages.drop_last() == pre.chat.messages
            &&& own_message(
                post.chat.messages.last(),
                message_id,
                me,
                dashboard_name(pre.screen),
                text,
                timestamp,
            )
            &&& post == (AppView {
                chat: ChatView { messages: post.chat.messages, ..pre.chat },
                effects: post.effects,
                ..pre
            })
        },
        _ => post == pre,
    }
}

/// Sending `text` to the friend of the active conversation.
pub open spec fn direct_send_step(pre: AppView, text: Seq<char>, post: AppView) -> bool {
    match (active_friend(pre), pre.session.my_did) {
        (Some(f), Some(me)) => {
            &&& post.effects.len() == pre.effects.len() + 1
            &&& post.effects.subrange(0, pre.effects.len() as int) == pre.effects
            &&& post.effects.last() matches Effect::SendDirectMessage {
                friend_did,
                message_id,
                text: t,
                timestamp,
            }
            &&& friend_did == f.did && t@ == text
            &&& post.chat.messages.len() == pre.chat.messages.len() + 1
            &&& post.chat.messages.drop_last() == pre.chat.messages
            &&& own_message(
                post.chat.messages.last(),
                message_id,
                me,
                identity_name(pre),
                text,
                timestamp,
            )
            &&& post == (AppView {
                chat: ChatView { messages: post.chat.messages, message_scroll: 0, ..pre.chat },
                effects: post.effects,
                ..pre
            })
        },
        (Some(_), None) => {
            &&& post == pre.with_error_text(post.session.error_message)
            &&& post.session.error_message matches Some(m) && m@ == "Identity not loaded"@
        },
        _ => post == pre,
    }
}

/// The first message `id` marked deleted, its content replaced by the
/// notice `n`.
pub open spec fn erased_by(pre: Seq<DisplayMessage>, id: Seq<char>, post: Seq<DisplayMessage>, n: String) -> bool {
    &&& n@ == "[message deleted]"@
    &&& update_first(pre, id, post, |m: DisplayMessage| erased(m, n))
}

/// `post` has exactly one more effect than `pre`, at the end.
pub open spec fn one_more_effect(pre: AppView, post: AppView) -> bool {
    &&& post.effects.len() == pre.effects.len() + 1
    &&& post.effects.drop_last() == pre.effects
}

/// `post` differs from `pre` in its messages and one more effect.
pub open spec fn msgs_and_effect(pre: AppView, post: AppView) -> bool {
    &&& one_more_effect(pre, post)
    &&& post == (AppView {
        chat: ChatView { messages: post.chat.messages, ..pre.chat },
        effects: post.effects,
        ..pre
    })
}

/// Deleting our message `id` wherever the conversation is.
pub open spec fn delete_step(pre: AppView, id: Seq<char>, post: AppView) -> bool {
    match pre.chat.active_group {
        Some(g) => match pre.session.my_did {
            Some(me) => {
                &&& msgs_and_effect(pre, post)
                &&& post.effects.last() matches Effect::DeleteGroupMessage { group_id, message_id, recipients }
                &&& group_id == g && message_id@ == id
                &&& recipients@ == group_recipients(pre.chat.groups, g@, me@)
                &&& update_first(pre.chat.messages, id, post.chat.messages, |m: DisplayMessage| deleted(m))
            },
            None => post == pre,
        },
        None => match pre.comm.active_channel {
            Some(ch) => match (pre.comm.active_community, pre.session.my_did) {
                (Some(c), Some(_)) => {
                    &&& msgs_and_effect(pre, post)
                    &&& post.effects.last() matches Effect::DeleteCommunityMessage {
                        community_id,
                        channel_id,
                        message_id,
                    }
                    &&& community_id == c && channel_id == ch && message_id@ == id
                    &&& exists|n: String| #[trigger] erased_by(pre.chat.messages, id, post.chat.messages, n)
                },
                _ => post == pre,
            },
            None => match (active_friend(pre), pre.session.my_did) {
                (Some(f), Some(_)) => {
                    &&& msgs_and_effect(pre, post)
                    &&& post.effects.last() matches Effect::DeleteDirectMessage { friend_did, message_id }
                    &&& friend_did == f.did && message_id@ == id
                    &&& update_first(pre.chat.messages, id, post.chat.messages, |m: DisplayMessage| deleted(m))
                },
                _ => post == pre,
            },
        },
    }
}

/// The first message `id` given the content `c` and the edit time `at`.
pub open spec fn edited_by(pre: Seq<DisplayMessage>, id: Seq<char>, post: Seq<DisplayMessage>, c: String, at: i64) -> bool {
    update_first(pre, id, post, |m: DisplayMessage| edited(m, c, at))
}

/// The message's new content is `text` and its edit time `at`.
pub open spec fn edited_to(pre: Seq<DisplayMessage>, id: Seq<char>, post: Seq<DisplayMessage>, text: Seq<char>, at: i64) -> bool {
    exists|c: String| c@ == text && #[trigger] edited_by(pre, id, post, c, at)
}

/// Replacing the content of our message `id` by `text` wherever the
/// conversation is; the edit time is the one carried by the effect.
pub open spec fn edit_step(pre: AppView, id: Seq<char>, text: Seq<char>, post: AppView) -> bool {
    match pre.chat.active_group {
        Some(g) => match pre.session.my_did {
            Some(me) => {
                &&& msgs_and_effect(pre, post)
                &&& post.effects.last() matches Effect::EditGroupMessage {
                    group_id,
                    message_id,
                    content,
                    edited_at,
                    recipients,
                }
                &&& group_id == g && message_id@ == id && content@ == text
                &&& recipients@ == group_recipients(pre.chat.groups, g@, me@)
                &&& edited_to(pre.chat.messages, id, post.chat.messages, text, edited_at)
            },
            None => post == pre,
        },
        None => match pre.comm.active_channel {
            Some(ch) => match (pre.comm.active_community, pre.session.my_did) {
                (Some(c), Some(_)) => {
                    &&& msgs_and_effect(pre, post)
                    &&& post.effects.last() matches Effect::EditCommunityMessage {
                        community_id,
                        channel_id,
                        message_id,
                        content,
                        timestamp,
                    }
                    &&& community_id == c && channel_id == ch && message_id@ == id && content@ == text
                    &&& edited_to(pre.chat.messages, id, post.chat.messages, text, timestamp)
                },
                _ => post == pre,
            },
            None => match (active_friend(pre), pre.session.my_did) {
                (Some(f), Some(_)) => {
                    &&& msgs_and_effect(pre, post)
                    &&& post.effects.last() matches Effect::EditDirectMessage {
                        friend_did,
                        message_id,
                        content,
                        edited_at,
                    }
                    &&& friend_did == f.did && message_id@ == id && content@ == text
                    &&& edited_to(pre.chat.messages, id, post.chat.messages, text, edited_at)
                },
                _ => post == pre,
            },
        },
    }
}

/// A request about the active direct conversation: queued when a friend's
/// conversation is open and our identity is loaded, nothing otherwise.
/// `pred` says which effect, given the friend's DID.
pub open spec fn direct_request(pre: AppView, post: AppView, pred: spec_fn(String, Effect) -> bool) -> bool {
    match (active_friend(pre), pre.session.my_did) {
        (Some(f), Some(_)) => {
            &&& one_more_effect(pre, post)
            &&& post == (AppView { effects: post.effects, ..pre })
            &&& pred(f.did, post.effects.last())
        },
        _ => post == pre,
    }
}

impl App {
    /// Our identity's display name, "Me" when none is loaded.
    pub fn identity_display_name(&self) -> (r: String)
        ensures
            r@ == identity_name(self@),
    {
        match &self.session.my_name {
            Some(n) => n.clone(),
            None => "Me".to_owned(),
        }
    }

    /// Our display name as the current screen shows it, "Me" when it shows none.
    pub fn dashboard_display_name(&self) -> (r: String)
        ensures
            r@ == dashboard_name(self@.screen),
    {
        match &self.screen {
            Screen::Chat { info, .. } | Screen::CreateCommunity { info, .. }
            | Screen::CommunityMembers { info, .. } | Screen::CommunityRoles { info, .. }
            | Screen::MemberActions { info, .. } | Screen::CommunityInvites { info, .. }
            | Screen::JoinCommunity { info, .. } | Screen::AddFriend { info, .. }
            | Screen::FriendRequests { info, .. } | Screen::CreateGroup { info, .. } => {
                info.display_name.clone()
            },
            _ => "Me".to_owned(),
        }
    }

    /// DID of the friend of the active direct conversation.
    pub fn active_friend_did(&self) -> (r: Option<String>)
        ensures
            match r {
                Some(d) => active_friend(self@) matches Some(f) && d == f.did,
                None => active_friend(self@) is None,
            },
    {
        match &self.screen {
            Screen::Chat { friends, active_conversation, .. } => match active_conversation {
                Some(i) => if *i < friends.len() {
                    Some(friends[*i].did.clone())
                } else {
                    None
                },
                None => None,
            },
            _ => None,
        }
    }

    /// DID of the friend of the active direct conversation, when our
    /// identity is loaded too (what a conversation id is made from).
    pub fn conversation_peer(&self) -> (r: Option<String>)
        ensures
            match r {
                Some(d) => active_friend(self@) matches Some(f) && d == f.did
                    && self@.session.my_did is Some,
                None => active_friend(self@) is None || self@.session.my_did is None,
            },
    {
        if self.session.my_did.is_none() {
            return None;
        }
        self.active_friend_did()
    }

    /// A message of ours as displayed right after sending it.
    fn own_display_message(id: String, me: String, name: String, text: String, ts: i64) -> (m: DisplayMessage)
        ensures
            own_message(m, id, me, name@, text@, ts),
    {
        DisplayMessage {
            id,
            sender_did: me,
            sender_name: name,
            content: text,
            timestamp: ts,
            is_mine: true,
            edited_at: None,
            deleted: false,
            status: "sent".to_owned(),
            reactions: Vec::new(),
            pinned: false,
        }
    }

    /// Send `text` to the active group.
    pub fn send_group_message(&mut self, text: String)
        ensures
            group_send_step(old(self)@, text@, final(self)@),
    {
        let g = match &self.chat.active_group {
            Some(g) => g.clone(),
            None => return ,
        };
        let me = match &self.session.my_did {
            Some(d) => d.clone(),
            None => {
                self.set_error("Identity not loaded");
                return ;
            },
        };
        let name = self.identity_display_name();
        let ts = crate::ids::unix_secs();
        let id = crate::ids::random_uuid();
        let recipients = recipients_of(&self.chat.groups, g.as_str(), me.as_str());
        let m = Self::own_display_message(id.clone(), me, name, text.clone(), ts);
        self.chat.messages.push(m);
        self.chat.message_scroll = 0;
        self.push_effect(
            Effect::SendGroupMessage { group_id: g, message_id: id, content: text, timestamp: ts, recipients },
        );
        assert(self@.chat.messages.drop_last() =~= old(self)@.chat.messages);
    }

    /// Send `text` to the active community channel.
    pub fn send_community_message(&mut self, text: String)
        ensures
            channel_send_step(old(self)@, text@, final(self)@),
    {
        let ch = match &self.comm.active_channel {
            Some(c) => c.clone(),
            None => return ,
        };
        let c = match &self.comm.active_community {
            Some(c) => c.clone(),
            None => return ,
        };
        let me = match &self.session.my_did {
            Some(d) => d.clone(),
            None => return ,
        };
        let ts = crate::ids::unix_secs();
        let u = crate::ids::uuid_v4();
        let id = crate::text::concat2("cmsg_", u.as_str());
        let name = self.dashboard_display_name();
        let m = Self::own_display_message(id.clone(), me, name, text.clone(), ts);
        self.chat.messages.push(m);
        self.push_effect(
            Effect::SendCommunityMessage {
                community_id: c,
                channel_id: ch,
                message_id: id,
                content: text,
                timestamp: ts,
            },
        );
        assert(self@.chat.messages.drop_last() =~= old(self)@.chat.messages);
    }

    /// Send `text` to the friend of the active conversation.
    pub fn send_direct_message(&mut self, text: String)
        ensures
            direct_send_step(old(self)@, text@, final(self)@),
    {
        let f = match self.active_friend_did() {
            Some(d) => d,
            None => return ,
        };
        let me = match &self.session.my_did {
            Some(d) => d.clone(),
            None => {
                self.set_error("Identity not loaded");
                return ;
            },
        };
        let name = self.identity_display_name();
        let ts = crate::ids::unix_secs();
        let id = crate::ids::random_uuid();
        let m = Self::own_display_message(id.clone(), me, name, text.clone(), ts);
        self.chat.messages.push(m);
        self.chat.message_scroll = 0;
        self.push_effect(
            Effect::SendDirectMessage { friend_did: f, message_id: id, text, timestamp: ts },
        );
        assert(self@.chat.messages.drop_last() =~= old(self)@.chat.messages);
    }

    /// Delete our message `id` in the active group, channel or conversation.
    pub fn delete_message(&mut self, id: String)
        ensures
            delete_step(old(self)@, id@, final(self)@),
    {
        if let Some(g) = &self.chat.active_group {
            let g = g.clone();
            let me = match &self.session.my_did {
                Some(d) => d.clone(),
                None => return ,
            };
            let recipients = recipients_of(&self.chat.groups, g.as_str(), me.as_str());
            mark_deleted(&mut self.chat.messages, id.as_str());
            self.push_effect(Effect::DeleteGroupMessage { group_id: g, message_id: id, recipients });
        } else if let Some(ch) = &self.comm.active_channel {
            let ch = ch.clone();
            let c = match &self.comm.active_community {
                Some(c) => c.clone(),
                None => return ,
            };
            if self.session.my_did.is_none() {
                return ;
            }
            let notice = "[message deleted]".to_owned();
            let ghost n = notice;
            mark_erased(&mut self.chat.messages, id.as_str(), notice);
            assert(erased_by(old(self)@.chat.messages, id@, self@.chat.messages, n));
            self.push_effect(Effect::DeleteCommunityMessage { community_id: c, channel_id: ch, message_id: id });
        } else {
            let f = match self.conversation_peer() {
                Some(d) => d,
                None => return ,
            };
            mark_deleted(&mut self.chat.messages, id.as_str());
            self.push_effect(Effect::DeleteDirectMessage { friend_did: f, message_id: id });
        }
    }

    /// Replace the content of our message `id` by `text` in the active
    /// group, channel or conversation.
    pub fn edit_message(&mut self, id: String, text: String)
        ensures
            edit_step(old(self)@, id@, text@, final(self)@),
    {
        if let Some(g) = &self.chat.active_group {
            let g = g.clone();
            let me = match &self.session.my_did {
                Some(d) => d.clone(),
                None => return ,
            };
            let ts = crate::ids::unix_secs();
            let recipients = recipients_of(&self.chat.groups, g.as_str(), me.as_str());
            let t2 = text.clone();
            let ghost nc = t2;
            mark_edited(&mut self.chat.messages, id.as_str(), t2, ts);
            assert(edited_by(old(self)@.chat.messages, id@, self@.chat.messages, nc, ts));
            self.push_effect(
                Effect::EditGroupMessage { group_id: g, message_id: id, content: text, edited_at: ts, recipients },
            );
        } else if let Some(ch) = &self.comm.active_channel {
            let ch = ch.clone();
            let c = match &self.comm.active_community {
                Some(c) => c.clone(),
                None => return ,
            };
            if self.session.my_did.is_none() {
                return ;
            }
            let ts = crate::ids::unix_secs();
            let t2 = text.clone();
            let ghost nc = t2;
            mark_edited(&mut self.chat.messages, id.as_str(), t2, ts);
            assert(edited_by(old(self)@.chat.messages, id@, self@.chat.messages, nc, ts));
            self.push_effect(
                Effect::EditCommunityMessage {
                    community_id: c,
                    channel_id: ch,
                    message_id: id,
                    content: text,
                    timestamp: ts,
                },
            );
        } else {
            let f = match self.conversation_peer() {
                Some(d) => d,
                None => return ,
            };
            let ts = crate::ids::unix_secs();
            let t2 = text.clone();
            let ghost nc = t2;
            mark_edited(&mut self.chat.messages, id.as_str(), t2, ts);
            assert(edited_by(old(self)@.chat.messages, id@, self@.chat.messages, nc, ts));
            self.push_effect(
                Effect::EditDirectMessage { friend_did: f, message_id: id, content: text, edited_at: ts },
            );
        }
    }

    /// Add the reaction `emoji` to message `id` of the active conversation.
    pub fn send_reaction(&mut self, id: String, emoji: String)
        ensures
            direct_request(
                old(self)@,
                final(self)@,
                |d: String, e: Effect| e == Effect::SendReaction { friend_did: d, message_id: id, emoji, add: true },
            ),
    {
        if let Some(f) = self.conversation_peer() {
            self.push_effect(Effect::SendReaction { friend_did: f, message_id: id, emoji, add: true });
        }
    }

    /// Pin or unpin message `id` of the active conversation.
    pub fn toggle_pin(&mut self, id: String)
        ensures
            direct_request(
                old(self)@,
                final(self)@,
                |d: String, e: Effect| e == Effect::TogglePin { friend_did: d, message_id: id },
            ),
    {
        if let Some(f) = self.conversation_peer() {
            self.push_effect(Effect::TogglePin { friend_did: f, message_id: id });
        }
    }

    /// Tell the friend of the active conversation that we have read `id`.
    pub fn send_read_receipt(&mut self, id: String)
        ensures
            direct_request(
                old(self)@,
                final(self)@,
                |d: String, e: Effect| e == Effect::SendReadReceipt { friend_did: d, message_id: id },
            ),
    {
        if let Some(f) = self.conversation_peer() {
            self.push_effect(Effect::SendReadReceipt { friend_did: f, message_id: id });
        }
    }
}

} // verus!
