//! Group and community traffic arriving over the relay.

use vstd::prelude::*;
use crate::app::{App, AppView, ChatView, CommView, Session};
use crate::communities::member_label;
use crate::effects::Effect;
use crate::inbox::{
    filled, first_friend, friend_name, friend_name_in, is_text, prefix, text_is, text_of,
    Envelope, IncomingFacts,
};
use crate::msglist::{edited, erased, first_group, mark_edited, mark_erased, update_first};
use crate::sending::{dashboard_name, erased_by};
use crate::store::{StoredCommunity, StoredCommunityMember, StoredCommunityMessage};
use crate::types::{CommunityFocus, CommunityMemberEntry, DisplayMessage, GroupMemberEntry, Screen};

verus! {

/// The view of an optional text.
pub open spec fn opt_view(o: Option<String>) -> Option<Seq<char>> {
    match o {
        Some(s) => Some(s@),
        None => None,
    }
}

/// A field's text, or a default.
pub open spec fn text_or(o: Option<String>, d: Seq<char>) -> Seq<char> {
    match o {
        Some(s) => s@,
        None => d,
    }
}

/// The name a new group member is saved under: the creator's given name,
/// else the friend's name.
pub open spec fn member_name_for(m: Seq<char>, creator: Seq<char>, cname: Seq<char>, s: Screen) -> Option<Seq<char>> {
    if m == creator {
        Some(cname)
    } else {
        friend_name(s, m)
    }
}

/// A message shown as received, compared by text.
pub open spec fn shown_received(
    m: DisplayMessage,
    id: String,
    sender: Seq<char>,
    name: Seq<char>,
    content: Seq<char>,
    ts: i64,
    mine: bool,
) -> bool {
    &&& m.id == id && m.sender_did@ == sender && m.sender_name@ == name && m.content@ == content
    &&& m.timestamp == ts && m.is_mine == mine && m.edited_at is None && !m.deleted
    &&& m.status@ == "sent"@ && m.reactions@.len() == 0 && !m.pinned
}

/// `i` is the first group member with this DID.
pub open spec fn first_member(s: Seq<GroupMemberEntry>, did: Seq<char>, i: int) -> bool {
    &&& 0 <= i < s.len()
    &&& s[i].did@ == did
    &&& forall|j: int| 0 <= j < i ==> s[j].did@ != did
}

/// The name of `did` in group `g`: its member entry's name when the group
/// lists it, else the friend's name.
pub open spec fn group_member_name(v: AppView, g: Seq<char>, did: Seq<char>) -> Option<Seq<char>> {
    let groups = v.chat.groups;
    if exists|i: int| #[trigger] first_group(groups, g, i) {
        let gr = groups[choose|i: int| #[trigger] first_group(groups, g, i)];
        if exists|j: int| #[trigger] first_member(gr.members@, did, j) {
            opt_view(gr.members@[choose|j: int| #[trigger] first_member(gr.members@, did, j)].display_name)
        } else {
            friend_name(v.screen, did)
        }
    } else {
        friend_name(v.screen, did)
    }
}

/// `i` is the first community member with this DID.
pub open spec fn first_cmember(s: Seq<CommunityMemberEntry>, did: Seq<char>, i: int) -> bool {
    &&& 0 <= i < s.len()
    &&& s[i].did@ == did
    &&& forall|j: int| 0 <= j < i ==> s[j].did@ != did
}

/// The name a community message's sender is shown under: as a member of
/// the open community, else as a friend, else the first 8 characters of
/// the DID.
pub open spec fn community_sender_name(v: AppView, members: Seq<CommunityMemberEntry>, did: Seq<char>) -> Seq<char> {
    if v.comm.active_community is Some && exists|j: int| #[trigger] first_cmember(members, did, j) {
        member_label(members[choose|j: int| #[trigger] first_cmember(members, did, j)])
    } else {
        match friend_name(v.screen, did) {
            Some(n) => n,
            None => prefix(did, 8),
        }
    }
}

/// We were added to a group: it is saved with its members and announced.
pub open spec fn group_create_received(pre: AppView, from: String, env: Envelope, post: AppView) -> bool {
    match (env.group_id, env.name) {
        (Some(g), Some(n)) => {
            let creator = match env.creator_did {
                Some(c) => c,
                None => from,
            };
            let cname = text_or(env.creator_name, "Unknown"@);
            let k = pre.effects.len();
            &&& post.effects.len() == k + 2
            &&& post.effects.subrange(0, k as int) == pre.effects
            &&& post.effects[k as int] matches Effect::SaveIncomingGroup {
                group_id,
                name,
                creator_did,
                timestamp,
                members,
            }
            &&& group_id == g && name == n && creator_did == creator
            &&& (env.timestamp matches Some(t) ==> timestamp == t)
            &&& members@.len() == env.members@.len()
            &&& forall|i: int|
                0 <= i < members@.len() ==> (#[trigger] members@[i]).0 == env.members@[i] && opt_view(
                    members@[i].1,
                ) == member_name_for(env.members@[i]@, creator@, cname, pre.screen)
            &&& post.effects.last() == Effect::ReloadGroups
            &&& post.session.error_message matches Some(m) && m@ == "Added to group '"@ + n@ + "'"@
            &&& post == (AppView {
                effects: post.effects,
                session: Session { error_message: post.session.error_message, ..pre.session },
                ..pre
            })
        },
        _ => post == pre,
    }
}

/// A group message from someone else: ignored when it is our own or (with
/// a store) when we are not in the group; otherwise saved, and shown when
/// the group is open.
pub open spec fn group_chat_received(pre: AppView, env: Envelope, facts: IncomingFacts, post: AppView) -> bool {
    match (env.group_id, env.message_id, env.content, env.sender_did) {
        (Some(g), Some(mid), Some(c), Some(sd)) => {
            let mine = match pre.session.my_did {
                Some(me) => me@ == sd@,
                None => false,
            };
            if mine || (pre.session.has_db && pre.session.my_did is Some && !facts.group_member) {
                post == pre
            } else {
                let open = match pre.chat.active_group {
                    Some(a) => a@ == g@,
                    None => false,
                };
                let name = match env.sender_name {
                    Some(x) => x@,
                    None => match group_member_name(pre, g@, sd@) {
                        Some(x) => x,
                        None => prefix(sd@, 16),
                    },
                };
                &&& post.effects.len() == pre.effects.len() + 1
                &&& post.effects.drop_last() == pre.effects
                &&& post.effects.last() matches Effect::SaveGroupMessage {
                    message_id,
                    group_id,
                    sender_did,
                    content,
                    timestamp,
                }
                &&& message_id == mid && group_id == g && sender_did == sd && content == c
                &&& (env.timestamp matches Some(t) ==> timestamp == t)
                &&& if open {
                    &&& post.chat.messages.len() == pre.chat.messages.len() + 1
                    &&& post.chat.messages.drop_last() == pre.chat.messages
                    &&& shown_received(post.chat.messages.last(), mid, sd@, name, c@, timestamp, false)
                    &&& post == (AppView {
                        chat: ChatView { messages: post.chat.messages, message_scroll: 0, ..pre.chat },
                        effects: post.effects,
                        ..pre
                    })
                } else {
                    post == (AppView { effects: post.effects, ..pre })
                }
            }
        },
        _ => post == pre,
    }
}

/// A member left a group; when it was us, the group goes away and closes
/// if open.
pub open spec fn group_leave_received(pre: AppView, env: Envelope, post: AppView) -> bool {
    match (env.group_id, env.member_did) {
        (Some(g), Some(m)) => {
            let me_left = match pre.session.my_did {
                Some(me) => me@ == m@,
                None => false,
            };
            let open = match pre.chat.active_group {
                Some(a) => a@ == g@,
                None => false,
            };
            &&& post.effects == pre.effects + (if me_left {
                seq![
                    Effect::RemoveGroupMember { group_id: g, member_did: m },
                    Effect::DeleteGroup { group_id: g },
                    Effect::ReloadGroups,
                ]
            } else {
                seq![Effect::RemoveGroupMember { group_id: g, member_did: m }, Effect::ReloadGroups]
            })
            &&& if me_left && open {
                post == (AppView {
                    chat: ChatView { active_group: None, messages: Seq::empty(), ..pre.chat },
                    effects: post.effects,
                    ..pre
                })
            } else {
                post == (AppView { effects: post.effects, ..pre })
            }
        },
        _ => post == pre,
    }
}

/// A community announced to us: saved (with a store, when not known yet)
/// with us and its creator as members; communities are reloaded.
pub open spec fn community_create_received(pre: AppView, from: String, env: Envelope, facts: IncomingFacts, post: AppView) -> bool {
    match filled(env.community_id) {
        Some(c) => {
            let creator = match env.creator_did {
                Some(x) => x,
                None => from,
            };
            let k = pre.effects.len();
            &&& post == (AppView { effects: post.effects, ..pre })
            &&& post.effects.last() == Effect::ReloadCommunities
            &&& if pre.session.has_db && !facts.community_known {
                &&& post.effects.len() == k + 2
                &&& post.effects.subrange(0, k as int) == pre.effects
                &&& post.effects[k as int] matches Effect::SaveIncomingCommunity { community, me, creator: cm }
                &&& community.id == c && community.name@ == text_or(env.name, "Unknown"@)
                &&& community.description == env.description && community.created_by == creator
                &&& match pre.session.my_did {
                    Some(d) => me matches Some(x) && x.community_id == c && x.did == d
                        && x.display_name == Some(x.display_name->0) && x.display_name->0@ == dashboard_name(pre.screen)
                        && x.joined_at == community.created_at,
                    None => me is None,
                }
                &&& cm.community_id == c && cm.did == creator && cm.joined_at == community.created_at
                &&& cm.display_name matches Some(n) && n@ == match friend_name(pre.screen, creator@) {
                    Some(f) => f,
                    None => prefix(creator@, 8),
                }
            } else {
                post.effects == pre.effects.push(Effect::ReloadCommunities)
            }
        },
        None => post == pre,
    }
}

/// A channel message: saved, and shown when its channel is open.
pub open spec fn community_message_received(pre: AppView, env: Envelope, facts: IncomingFacts, post: AppView) -> bool {
    match (filled(env.community_id), filled(env.channel_id), filled(env.message_id)) {
        (Some(_), Some(ch), Some(mid)) => {
            let content = text_or(env.content, Seq::empty());
            let sender = text_or(env.sender_did, Seq::empty());
            let ts = match env.timestamp {
                Some(t) => t,
                None => 0,
            };
            let open = match pre.comm.active_channel {
                Some(a) => a@ == ch@,
                None => false,
            };
            &&& post.effects.len() == pre.effects.len() + 1
            &&& post.effects.drop_last() == pre.effects
            &&& post.effects.last() matches Effect::SaveCommunityMessage { message }
            &&& message.id == mid && message.channel_id == ch && message.sender_did@ == sender
            &&& message.content@ == content && message.timestamp == ts && message.edited_at is None
            &&& !message.deleted
            &&& if open {
                &&& post.chat.messages.len() == pre.chat.messages.len() + 1
                &&& post.chat.messages.drop_last() == pre.chat.messages
                &&& shown_received(
                    post.chat.messages.last(),
                    mid,
                    sender,
                    community_sender_name(pre, facts.community_members@, sender),
                    content,
                    ts,
                    sender == text_or(pre.session.my_did, Seq::empty()),
                )
                &&& post == (AppView {
                    chat: ChatView { messages: post.chat.messages, ..pre.chat },
                    effects: post.effects,
                    ..pre
                })
            } else {
                post == (AppView { effects: post.effects, ..pre })
            }
        },
        _ => post == pre,
    }
}

/// The channel is the open one.
pub open spec fn channel_open(v: AppView, env: Envelope) -> bool {
    match v.comm.active_channel {
        Some(a) => a@ == text_or(env.channel_id, Seq::empty()),
        None => false,
    }
}

/// A channel message was edited.
pub open spec fn community_edit_received(pre: AppView, env: Envelope, post: AppView) -> bool {
    match filled(env.message_id) {
        Some(mid) => {
            let ts = match env.timestamp {
                Some(t) => t,
                None => 0,
            };
            &&& post.effects.len() == pre.effects.len() + 1
            &&& post.effects.drop_last() == pre.effects
            &&& post.effects.last() matches Effect::EditStoredCommunityMessage { message_id, content, edited_at }
            &&& message_id == mid && content@ == text_or(env.new_content, Seq::empty()) && edited_at == ts
            &&& post == (AppView { chat: ChatView { messages: post.chat.messages, ..pre.chat }, effects: post.effects, ..pre })
            &&& if channel_open(pre, env) {
                update_first(pre.chat.messages, mid@, post.chat.messages, |m: DisplayMessage| edited(m, content, ts))
            } else {
                post.chat.messages == pre.chat.messages
            }
        },
        None => post == pre,
    }
}

/// A channel message was deleted.
pub open spec fn community_delete_received(pre: AppView, env: Envelope, post: AppView) -> bool {
    match filled(env.message_id) {
        Some(mid) => {
            &&& post.effects == pre.effects.push(Effect::DeleteStoredCommunityMessage { message_id: mid })
            &&& post == (AppView { chat: ChatView { messages: post.chat.messages, ..pre.chat }, effects: post.effects, ..pre })
            &&& if channel_open(pre, env) {
                exists|n: String| #[trigger] erased_by(pre.chat.messages, mid@, post.chat.messages, n)
            } else {
                post.chat.messages == pre.chat.messages
            }
        },
        None => post == pre,
    }
}

/// We were kicked or banned from a community: we leave it, are told, and
/// it closes if open.
pub open spec fn member_action_received(pre: AppView, env: Envelope, post: AppView) -> bool {
    match (filled(env.community_id), filled(env.target_did), pre.session.my_did) {
        (Some(c), Some(t), Some(me)) => {
            let kick = is_text(env.action, "kick"@);
            let ban = is_text(env.action, "ban"@);
            if me@ != t@ || !(kick || ban) {
                post == pre
            } else {
                let open = match pre.comm.active_community {
                    Some(a) => a@ == c@,
                    None => false,
                };
                let name = text_or(env.community_name, "Unknown"@);
                &&& post.effects == pre.effects.push(
                    Effect::RemoveCommunityMember { community_id: c, member_did: me },
                ).push(Effect::ReloadCommunities)
                &&& post.session.error_message matches Some(m) && m@ == (if kick {
                    "You were kicked from '"@
                } else {
                    "You were banned from '"@
                }) + name + "'"@
                &&& post == (AppView {
                    comm: if open {
                        CommView {
                            active_community: None,
                            active_channel: None,
                            active_channel_name: None,
                            channel_tree: Seq::empty(),
                            community_spaces: Seq::empty(),
                            community_focus: CommunityFocus::CommunityList,
                            ..pre.comm
                        }
                    } else {
                        pre.comm
                    },
                    chat: if open {
                        ChatView { messages: Seq::empty(), ..pre.chat }
                    } else {
                        pre.chat
                    },
                    effects: post.effects,
                    session: Session { error_message: post.session.error_message, ..pre.session },
                    ..pre
                })
            }
        },
        _ => post == pre,
    }
}

/// Someone joined one of our communities: they are added (with a store,
/// when we know the community); communities are reloaded.
pub open spec fn community_join_received(pre: AppView, env: Envelope, facts: IncomingFacts, post: AppView) -> bool {
    match (filled(env.community_id), filled(env.joiner_did)) {
        (Some(c), Some(j)) => {
            &&& post == (AppView { effects: post.effects, ..pre })
            &&& if pre.session.has_db && facts.community_known {
                &&& post.effects.len() == pre.effects.len() + 2
                &&& post.effects.subrange(0, pre.effects.len() as int) == pre.effects
                &&& post.effects[pre.effects.len() as int] matches Effect::AddCommunityMember { member }
                &&& member.community_id == c && member.did == j
                &&& member.display_name matches Some(n) && n@ == text_or(env.joiner_name, "Unknown"@)
                &&& post.effects.last() == Effect::ReloadCommunities
            } else {
                post.effects == pre.effects.push(Effect::ReloadCommunities)
            }
        },
        _ => post == pre,
    }
}

fn text_or_default(o: Option<String>, d: &str) -> (r: String)
    ensures
        r@ == text_or(o, d@),
{
    match o {
        Some(s) => s,
        None => d.to_owned(),
    }
}

fn text_or_none(o: Option<String>) -> (r: String)
    ensures
        r@ == text_or(o, Seq::empty()),
{
    match o {
        Some(s) => s,
        None => String::new(),
    }
}

/// Whether `a` is the text of `o` (empty when absent).
fn same_text(a: &String, o: &Option<String>) -> (r: bool)
    ensures
        r == (a@ == text_or(*o, Seq::empty())),
{
    match o {
        Some(c) => crate::text::str_eq(a.as_str(), c.as_str()),
        None => {
            let r = a.unicode_len() == 0;
            proof {
                if r {
                    assert(a@ =~= Seq::<char>::empty());
                }
            }
            r
        },
    }
}

fn member_index(s: &Vec<GroupMemberEntry>, did: &str) -> (r: Option<usize>)
    ensures
        match r {
            Some(i) => first_member(s@, did@, i as int),
            None => forall|k: int| !first_member(s@, did@, k),
        },
{
    let mut i: usize = 0;
    while i < s.len()
        invariant
            i <= s@.len(),
            forall|j: int| 0 <= j < i ==> s@[j].did@ != did@,
        decreases s@.len() - i,
    {
        if crate::text::str_eq(s[i].did.as_str(), did) {
            return Some(i);
        }
        i = i + 1;
    }
    None
}

fn cmember_index(s: &Vec<CommunityMemberEntry>, did: &str) -> (r: Option<usize>)
    ensures
        match r {
            Some(i) => first_cmember(s@, did@, i as int),
            None => forall|k: int| !first_cmember(s@, did@, k),
        },
{
    let mut i: usize = 0;
    while i < s.len()
        invariant
            i <= s@.len(),
            forall|j: int| 0 <= j < i ==> s@[j].did@ != did@,
        decreases s@.len() - i,
    {
        if crate::text::str_eq(s[i].did.as_str(), did) {
            return Some(i);
        }
        i = i + 1;
    }
    None
}

fn group_index(s: &Vec<crate::types::GroupEntry>, g: &str) -> (r: Option<usize>)
    ensures
        match r {
            Some(i) => first_group(s@, g@, i as int),
            None => forall|k: int| !first_group(s@, g@, k),
        },
{
    let mut i: usize = 0;
    while i < s.len()
        invariant
            i <= s@.len(),
            forall|j: int| 0 <= j < i ==> s@[j].id@ != g@,
        decreases s@.len() - i,
    {
        if crate::text::str_eq(s[i].id.as_str(), g) {
            return Some(i);
        }
        i = i + 1;
    }
    None
}

impl App {
    /// The name of `did` in group `g`.
    pub(crate) fn group_member_name_of(&self, g: &str, did: &str) -> (r: Option<String>)
        ensures
            opt_view(r) == group_member_name(self@, g@, did@),
    {
        match group_index(&self.chat.groups, g) {
            Some(i) => {
                proof {
                    let k = choose|k: int| #[trigger] first_group(self@.chat.groups, g@, k);
                    assert(k == i) by {
                        if k > i {
                            assert(self@.chat.groups[i as int].id@ == g@);
                        } else if k < i {
                            assert(self@.chat.groups[k].id@ == g@);
                        }
                    }
                }
                let members = &self.chat.groups[i].members;
                match member_index(members, did) {
                    Some(j) => {
                        proof {
                            let k = choose|k: int| #[trigger] first_member(members@, did@, k);
                            assert(k == j) by {
                                if k > j {
                                    assert(members@[j as int].did@ == did@);
                                } else if k < j {
                                    assert(members@[k].did@ == did@);
                                }
                            }
                        }
                        crate::text::dup_opt_string(&members[j].display_name)
                    },
                    None => friend_name_in(&self.screen, did),
                }
            },
            None => friend_name_in(&self.screen, did),
        }
    }

    /// The name a community message's sender is shown under.
    pub(crate) fn community_sender(&self, members: &Vec<CommunityMemberEntry>, did: &str) -> (r: String)
        ensures
            r@ == community_sender_name(self@, members@, did@),
    {
        if self.comm.active_community.is_some() {
            if let Some(j) = cmember_index(members, did) {
                proof {
                    let k = choose|k: int| #[trigger] first_cmember(members@, did@, k);
                    assert(k == j) by {
                        if k > j {
                            assert(members@[j as int].did@ == did@);
                        } else if k < j {
                            assert(members@[k].did@ == did@);
                        }
                    }
                }
                let m = &members[j];
                return match &m.display_name {
                    Some(n) => n.clone(),
                    None => crate::text::prefix_chars(m.did.as_str(), 8),
                };
            }
        }
        match friend_name_in(&self.screen, did) {
            Some(n) => n,
            None => crate::text::prefix_chars(did, 8),
        }
    }

    pub(crate) fn receive_group_create(&mut self, from: String, env: Envelope)
        ensures
            old(self)@.wf() ==> final(self)@.wf(),
            group_create_received(old(self)@, from, env, final(self)@),
    {
        let (g, n) = match (env.group_id, env.name) {
            (Some(g), Some(n)) => (g, n),
            _ => return ,
        };
        let creator = match env.creator_did {
            Some(c) => c,
            None => from,
        };
        let cname = text_or_default(env.creator_name, "Unknown");
        let ts = match env.timestamp {
            Some(t) => t,
            None => crate::ids::unix_secs(),
        };
        let members_in = env.members;
        let mut members: Vec<(String, Option<String>)> = Vec::new();
        let mut i: usize = 0;
        while i < members_in.len()
            invariant
                i <= members_in@.len(),
                members@.len() == i,
                self@ == old(self)@,
                forall|k: int|
                    0 <= k < i ==> (#[trigger] members@[k]).0 == members_in@[k] && opt_view(
                        members@[k].1,
                    ) == member_name_for(members_in@[k]@, creator@, cname@, self@.screen),
            decreases members_in@.len() - i,
        {
            let m = members_in[i].clone();
            let name = if crate::text::str_eq(m.as_str(), creator.as_str()) {
                Some(cname.clone())
            } else {
                friend_name_in(&self.screen, m.as_str())
            };
            members.push((m, name));
            i = i + 1;
        }
        self.set_error3("Added to group '", n.as_str(), "'");
        let ghost e0 = self@.effects;
        self.push_effect(
            Effect::SaveIncomingGroup { group_id: g, name: n, creator_did: creator, timestamp: ts, members },
        );
        let ghost e1 = self@.effects;
        self.push_effect(Effect::ReloadGroups);
        proof {
            assert(self@.effects.subrange(0, e0.len() as int) =~= e0) by {
                assert(self@.effects.subrange(0, e1.len() as int) == e1);
            }
            assert(self@.effects[e0.len() as int] == e1.last());
        }
    }

    pub(crate) fn receive_group_chat(&mut self, env: Envelope, facts: IncomingFacts)
        ensures
            old(self)@.wf() ==> final(self)@.wf(),
            group_chat_received(old(self)@, env, facts, final(self)@),
    {
        let (g, mid, c, sd) = match (env.group_id, env.message_id, env.content, env.sender_did) {
            (Some(g), Some(mid), Some(c), Some(sd)) => (g, mid, c, sd),
            _ => return ,
        };
        let mine = match &self.session.my_did {
            Some(me) => crate::text::str_eq(me.as_str(), sd.as_str()),
            None => false,
        };
        if mine || (self.session.has_db && self.session.my_did.is_some() && !facts.group_member) {
            return ;
        }
        let open = match &self.chat.active_group {
            Some(a) => crate::text::str_eq(a.as_str(), g.as_str()),
            None => false,
        };
        let ts = match env.timestamp {
            Some(t) => t,
            None => crate::ids::unix_secs(),
        };
        if open {
            let name = match env.sender_name {
                Some(x) => x,
                None => match self.group_member_name_of(g.as_str(), sd.as_str()) {
                    Some(x) => x,
                    None => crate::text::prefix_chars(sd.as_str(), 16),
                },
            };
            let m = crate::inbox::received_display(mid.clone(), sd.clone(), name, c.clone(), ts, false);
            self.chat.messages.push(m);
            self.chat.message_scroll = 0;
            assert(self@.chat.messages.drop_last() =~= old(self)@.chat.messages);
        }
        self.push_effect(
            Effect::SaveGroupMessage { message_id: mid, group_id: g, sender_did: sd, content: c, timestamp: ts },
        );
    }

    pub(crate) fn receive_group_leave(&mut self, env: Envelope)
        ensures
            old(self)@.wf() ==> final(self)@.wf(),
            group_leave_received(old(self)@, env, final(self)@),
    {
        let (g, m) = match (env.group_id, env.member_did) {
            (Some(g), Some(m)) => (g, m),
            _ => return ,
        };
        let me_left = match &self.session.my_did {
            Some(me) => crate::text::str_eq(me.as_str(), m.as_str()),
            None => false,
        };
        let open = match &self.chat.active_group {
            Some(a) => crate::text::str_eq(a.as_str(), g.as_str()),
            None => false,
        };
        let ghost e0 = self@.effects;
        self.push_effect(Effect::RemoveGroupMember { group_id: g.clone(), member_did: m });
        if me_left {
            self.push_effect(Effect::DeleteGroup { group_id: g });
            if open {
                self.chat.active_group = None;
                self.chat.messages = Vec::new();
                assert(self@.chat.messages =~= Seq::<DisplayMessage>::empty());
            }
        }
        self.push_effect(Effect::ReloadGroups);
        assert(self@.effects =~= e0 + (if me_left {
            seq![
                Effect::RemoveGroupMember { group_id: g, member_did: env.member_did->0 },
                Effect::DeleteGroup { group_id: g },
                Effect::ReloadGroups,
            ]
        } else {
            seq![Effect::RemoveGroupMember { group_id: g, member_did: env.member_did->0 }, Effect::ReloadGroups]
        }));
    }

    pub(crate) fn receive_community_create(&mut self, from: String, env: Envelope, facts: IncomingFacts)
        ensures
            old(self)@.wf() ==> final(self)@.wf(),
            community_create_received(old(self)@, from, env, facts, final(self)@),
    {
        let c = match nonempty_text(env.community_id) {
            Some(c) => c,
            None => return ,
        };
        if self.session.has_db && !facts.community_known {
            let creator = match env.creator_did {
                Some(x) => x,
                None => from,
            };
            let now = crate::ids::unix_secs();
            let me = match &self.session.my_did {
                Some(d) => Some(
                    StoredCommunityMember {
                        community_id: c.clone(),
                        did: d.clone(),
                        display_name: Some(self.dashboard_display_name()),
                        joined_at: now,
                    },
                ),
                None => None,
            };
            let cname = match friend_name_in(&self.screen, creator.as_str()) {
                Some(n) => n,
                None => crate::text::prefix_chars(creator.as_str(), 8),
            };
            let cm = StoredCommunityMember {
                community_id: c.clone(),
                did: creator.clone(),
                display_name: Some(cname),
                joined_at: now,
            };
            let community = StoredCommunity {
                id: c,
                name: text_or_default(env.name, "Unknown"),
                description: env.description,
                created_by: creator,
                created_at: now,
            };
            let ghost e0 = self@.effects;
            self.push_effect(Effect::SaveIncomingCommunity { community, me, creator: cm });
            let ghost e1 = self@.effects;
            self.push_effect(Effect::ReloadCommunities);
            proof {
                assert(self@.effects.subrange(0, e0.len() as int) =~= e0) by {
                    assert(self@.effects.subrange(0, e1.len() as int) == e1);
                }
                assert(self@.effects[e0.len() as int] == e1.last());
            }
        } else {
            self.push_effect(Effect::ReloadCommunities);
        }
    }

    pub(crate) fn receive_community_message(&mut self, env: Envelope, facts: IncomingFacts)
        ensures
            old(self)@.wf() ==> final(self)@.wf(),
            community_message_received(old(self)@, env, facts, final(self)@),
    {
        let (ch, mid) = match (nonempty_text(env.community_id), nonempty_text(env.channel_id), nonempty_text(env.message_id)) {
            (Some(_), Some(ch), Some(mid)) => (ch, mid),
            _ => return ,
        };
        let content = text_or_none(env.content);
        let sender = text_or_none(env.sender_did);
        let ts = match env.timestamp {
            Some(t) => t,
            None => 0,
        };
        let open = match &self.comm.active_channel {
            Some(a) => crate::text::str_eq(a.as_str(), ch.as_str()),
            None => false,
        };
        if open {
            let name = self.community_sender(&facts.community_members, sender.as_str());
            let mine = same_text(&sender, &self.session.my_did);
            let m = crate::inbox::received_display(mid.clone(), sender.clone(), name, content.clone(), ts, mine);
            self.chat.messages.push(m);
            assert(self@.chat.messages.drop_last() =~= old(self)@.chat.messages);
        }
        self.push_effect(
            Effect::SaveCommunityMessage {
                message: StoredCommunityMessage {
                    id: mid,
                    channel_id: ch,
                    sender_did: sender,
                    content,
                    timestamp: ts,
                    edited_at: None,
                    deleted: false,
                },
            },
        );
    }

    pub(crate) fn receive_community_edit(&mut self, env: Envelope)
        ensures
            old(self)@.wf() ==> final(self)@.wf(),
            community_edit_received(old(self)@, env, final(self)@),
    {
        let mid = match nonempty_text(env.message_id) {
            Some(m) => m,
            None => return ,
        };
        let content = text_or_none(env.new_content);
        let ts = match env.timestamp {
            Some(t) => t,
            None => 0,
        };
        let open = match &self.comm.active_channel {
            Some(a) => same_text(a, &env.channel_id),
            None => false,
        };
        if open {
            mark_edited(&mut self.chat.messages, mid.as_str(), content.clone(), ts);
        }
        self.push_effect(Effect::EditStoredCommunityMessage { message_id: mid, content, edited_at: ts });
    }

    pub(crate) fn receive_community_delete(&mut self, env: Envelope)
        ensures
            old(self)@.wf() ==> final(self)@.wf(),
            community_delete_received(old(self)@, env, final(self)@),
    {
        let mid = match nonempty_text(env.message_id) {
            Some(m) => m,
            None => return ,
        };
        let open = match &self.comm.active_channel {
            Some(a) => same_text(a, &env.channel_id),
            None => false,
        };
        if open {
            let notice = "[message deleted]".to_owned();
            let ghost n = notice;
            mark_erased(&mut self.chat.messages, mid.as_str(), notice);
            assert(erased_by(old(self)@.chat.messages, mid@, self@.chat.messages, n));
        }
        self.push_effect(Effect::DeleteStoredCommunityMessage { message_id: mid });
    }

    pub(crate) fn receive_member_action(&mut self, env: Envelope)
        ensures
            old(self)@.wf() ==> final(self)@.wf(),
            member_action_received(old(self)@, env, final(self)@),
    {
        let kick = text_is(&env.action, "kick");
        let ban = text_is(&env.action, "ban");
        let (c, t) = match (nonempty_text(env.community_id), nonempty_text(env.target_did)) {
            (Some(c), Some(t)) => (c, t),
            _ => return ,
        };
        let me = match &self.session.my_did {
            Some(me) => me.clone(),
            None => return ,
        };
        if !crate::text::str_eq(me.as_str(), t.as_str()) || !(kick || ban) {
            return ;
        }
        let name = text_or_default(env.community_name, "Unknown");
        if kick {
            self.set_error3("You were kicked from '", name.as_str(), "'");
        } else {
            self.set_error3("You were banned from '", name.as_str(), "'");
        }
        let open = match &self.comm.active_community {
            Some(a) => crate::text::str_eq(a.as_str(), c.as_str()),
            None => false,
        };
        if open {
            self.comm.active_community = None;
            self.comm.active_channel = None;
            self.comm.active_channel_name = None;
            self.comm.channel_tree = Vec::new();
            self.comm.community_spaces = Vec::new();
            self.comm.community_focus = CommunityFocus::CommunityList;
            self.chat.messages = Vec::new();
            assert(self@.chat.messages =~= Seq::<DisplayMessage>::empty());
            assert(self@.comm.channel_tree =~= Seq::<crate::types::ChannelTreeItem>::empty());
            assert(self@.comm.community_spaces =~= Seq::<crate::types::SpaceEntry>::empty());
        }
        self.push_effect(Effect::RemoveCommunityMember { community_id: c, member_did: me });
        self.push_effect(Effect::ReloadCommunities);
    }

    pub(crate) fn receive_community_join(&mut self, env: Envelope, facts: IncomingFacts)
        ensures
            old(self)@.wf() ==> final(self)@.wf(),
            community_join_received(old(self)@, env, facts, final(self)@),
    {
        let (c, j) = match (nonempty_text(env.community_id), nonempty_text(env.joiner_did)) {
            (Some(c), Some(j)) => (c, j),
            _ => return ,
        };
        if self.session.has_db && facts.community_known {
            let now = crate::ids::unix_secs();
            let member = StoredCommunityMember {
                community_id: c,
                did: j,
                display_name: Some(text_or_default(env.joiner_name, "Unknown")),
                joined_at: now,
            };
            let ghost e0 = self@.effects;
            self.push_effect(Effect::AddCommunityMember { member });
            let ghost e1 = self@.effects;
            self.push_effect(Effect::ReloadCommunities);
            proof {
                assert(self@.effects.subrange(0, e0.len() as int) =~= e0) by {
                    assert(self@.effects.subrange(0, e1.len() as int) == e1);
                }
                assert(self@.effects[e0.len() as int] == e1.last());
            }
        } else {
            self.push_effect(Effect::ReloadCommunities);
        }
    }
}

/// The option when it holds a non-empty text.
fn nonempty_text(o: Option<String>) -> (r: Option<String>)
    ensures
        r == filled(o),
{
    crate::inbox::nonempty(o)
}

} // verus!
