//! What arrives from other users over the relay: the fields of an
//! envelope, the stored facts they are judged against, and the handling of
//! friend requests, direct messages and their edits, reactions, receipts,
//! pins and typing indicators.

use vstd::prelude::*;
use crate::app::{App, AppView, ChatView, Session};
use crate::effects::Effect;
use crate::msglist::{deleted, edited, mark_deleted, mark_edited, mark_pinned, mark_status, update_first};
use crate::sending::{active_friend, direct_request};
use crate::types::{CommunityMemberEntry, DisplayMessage, FriendEntry, Screen};

verus! {

/// The nested `payload` object of a friend or chat envelope.
#[derive(Debug)]
pub struct EnvelopePayload {
    pub id: Option<String>,
    pub request_id: Option<String>,
    pub from_display_name: Option<String>,
    pub from_signing_key: Option<String>,
    pub from_encryption_key: Option<String>,
    pub message_id: Option<String>,
    pub conversation_id: Option<String>,
    pub sender_did: Option<String>,
    pub timestamp: Option<i64>,
}

/// The fields of a received JSON envelope that the application reads
/// (string fields that are absent or not strings are `None`), together
/// with the text the caller could decrypt from it, if any.
#[derive(Debug)]
pub struct Envelope {
    /// The `envelope` field (friend requests and encrypted chat).
    pub envelope: Option<String>,
    /// The `type` field (everything else).
    pub kind: Option<String>,
    pub text: Option<String>,
    pub content: Option<String>,
    /// Whether a `ciphertext` string is present.
    pub has_ciphertext: bool,
    pub message_id: Option<String>,
    pub emoji: Option<String>,
    pub conversation_id: Option<String>,
    pub edited_at: Option<i64>,
    pub timestamp: Option<i64>,
    pub group_id: Option<String>,
    pub name: Option<String>,
    /// The string entries of the `members` array.
    pub members: Vec<String>,
    pub creator_did: Option<String>,
    pub creator_name: Option<String>,
    pub sender_did: Option<String>,
    pub sender_name: Option<String>,
    pub member_did: Option<String>,
    pub community_id: Option<String>,
    pub channel_id: Option<String>,
    pub new_content: Option<String>,
    pub description: Option<String>,
    pub community_name: Option<String>,
    pub action: Option<String>,
    pub target_did: Option<String>,
    pub joiner_did: Option<String>,
    pub joiner_name: Option<String>,
    pub payload: Option<EnvelopePayload>,
    /// The decrypted text of an encrypted message, when it could be
    /// decrypted.
    pub plaintext: Option<String>,
}

/// What the local store says about the sender and the envelope's subject.
#[derive(Debug)]
pub struct IncomingFacts {
    /// The sender is blocked.
    pub sender_blocked: bool,
    /// The sender is a stored friend.
    pub sender_is_friend: bool,
    /// A request involving the sender is pending.
    pub request_pending: bool,
    /// We are a member of the envelope's group.
    pub group_member: bool,
    /// The envelope's community is stored.
    pub community_known: bool,
    /// Members of the open community.
    pub community_members: Vec<CommunityMemberEntry>,
}

// ── Reading fields ──────────────────────────────────────────────────

/// The field holds exactly this text.
pub open spec fn is_text(o: Option<String>, lit: Seq<char>) -> bool {
    match o {
        Some(s) => s@ == lit,
        None => false,
    }
}

/// The field's text, empty when absent.
pub open spec fn text_or_empty(o: Option<String>) -> Seq<char> {
    match o {
        Some(s) => s@,
        None => Seq::empty(),
    }
}

/// The field when it holds a non-empty text.
pub open spec fn filled(o: Option<String>) -> Option<String> {
    match o {
        Some(s) => if s@.len() > 0 {
            Some(s)
        } else {
            None
        },
        None => None,
    }
}

/// The first `n` characters (all when shorter).
pub open spec fn prefix(s: Seq<char>, n: int) -> Seq<char> {
    s.subrange(0, if s.len() < n { s.len() as int } else { n })
}

/// The name a user is shown under: `name` unless empty, else the first 16
/// characters of the DID.
pub open spec fn shown_name(name: Seq<char>, did: Seq<char>) -> Seq<char> {
    if name.len() == 0 {
        prefix(did, 16)
    } else {
        name
    }
}

/// `i` is the first friend with this DID.
pub open spec fn first_friend(s: Seq<FriendEntry>, did: Seq<char>, i: int) -> bool {
    &&& 0 <= i < s.len()
    &&& s[i].did@ == did
    &&& forall|j: int| 0 <= j < i ==> s[j].did@ != did
}

/// The display name of the friend with this DID, on the chat screen.
pub open spec fn friend_name(s: Screen, did: Seq<char>) -> Option<Seq<char>> {
    match s {
        Screen::Chat { friends, .. } => if exists|i: int| #[trigger] first_friend(friends@, did, i) {
            Some(friends@[choose|i: int| #[trigger] first_friend(friends@, did, i)].display_name@)
        } else {
            None
        },
        _ => None,
    }
}

/// The open direct conversation is with this DID.
pub open spec fn open_with(v: AppView, did: Seq<char>) -> bool {
    match active_friend(v) {
        Some(f) => f.did@ == did,
        None => false,
    }
}

/// A message from someone else, as displayed.
pub open spec fn received_message(
    m: DisplayMessage,
    id: String,
    sender: String,
    name: Seq<char>,
    content: String,
    ts: i64,
    mine: bool,
) -> bool {
    &&& m.id == id && m.sender_did == sender && m.sender_name@ == name && m.content == content
    &&& m.timestamp == ts && m.is_mine == mine && m.edited_at is None && !m.deleted
    &&& m.status@ == "sent"@ && m.reactions@.len() == 0 && !m.pinned
}

/// `post` is `pre` with one more effect and a new message text `m`.
pub open spec fn effect_and_message(pre: AppView, post: AppView, m: Seq<char>) -> bool {
    &&& post.effects.len() == pre.effects.len() + 1
    &&& post.effects.drop_last() == pre.effects
    &&& post.session.error_message matches Some(x) && x@ == m
    &&& post == (AppView {
        effects: post.effects,
        session: Session { error_message: post.session.error_message, ..pre.session },
        ..pre
    })
}

/// `post` is `pre` with its messages changed and one more effect.
pub open spec fn messages_and_effect(pre: AppView, post: AppView) -> bool {
    &&& post.effects.len() == pre.effects.len() + 1
    &&& post.effects.drop_last() == pre.effects
    &&& post == (AppView {
        chat: ChatView { messages: post.chat.messages, ..pre.chat },
        effects: post.effects,
        ..pre
    })
}

// ── Friend requests ─────────────────────────────────────────────────

/// A friend request from `from`: ignored without an id, and (with a
/// store) from a blocked user, a friend, or someone with a pending
/// request; otherwise saved and announced.
pub open spec fn friend_request_step(pre: AppView, from: String, env: Envelope, facts: IncomingFacts, post: AppView) -> bool {
    match env.payload {
        Some(p) => match filled(p.id) {
            Some(id) => if pre.session.has_db && (facts.sender_blocked || facts.sender_is_friend
                || facts.request_pending) {
                post == pre
            } else {
                let disp = text_or_empty(p.from_display_name);
                &&& effect_and_message(pre, post, "Friend request from "@ + shown_name(disp, from@))
                &&& post.effects.last() matches Effect::SaveIncomingRequest {
                    id: i,
                    did,
                    display_name,
                    encryption_key,
                    signing_key,
                }
                &&& i == id && did == from && display_name@ == disp
                &&& encryption_key == p.from_encryption_key && signing_key == p.from_signing_key
            },
            None => post == pre,
        },
        None => post == pre,
    }
}

/// `from` accepted our request: they are saved as a friend, shown first on
/// the chat screen's list if not there yet, and acknowledged.
pub open spec fn friend_accept_step(pre: AppView, from: String, env: Envelope, post: AppView) -> bool {
    match env.payload {
        Some(p) => {
            let disp = text_or_empty(p.from_display_name);
            &&& post.effects.len() == pre.effects.len() + 2
            &&& post.effects.subrange(0, pre.effects.len() as int) == pre.effects
            &&& post.effects[pre.effects.len() as int] matches Effect::SaveAcceptedFriend {
                did,
                display_name,
                encryption_key,
                signing_key,
                request_id,
            }
            &&& did == from && display_name@ == disp && encryption_key == p.from_encryption_key
            &&& signing_key == p.from_signing_key && request_id == filled(p.request_id)
            &&& post.effects.last() == Effect::SendAcceptAck { to_did: from }
            &&& post.session.error_message matches Some(x) && x@ == shown_name(disp, from@)
                + " accepted your friend request"@
            &&& post == (AppView {
                screen: post.screen,
                effects: post.effects,
                session: Session { error_message: post.session.error_message, ..pre.session },
                ..pre
            })
            &&& match pre.screen {
                Screen::Chat { info, focus, friends, selected_friend, active_conversation } => {
                    &&& post.screen matches Screen::Chat {
                        info: i,
                        focus: fo,
                        friends: fr,
                        selected_friend: s,
                        active_conversation: ac,
                    }
                    &&& i == info && fo == focus && s == selected_friend && ac == active_conversation
                    &&& if crate::friends::is_friend(friends@, from@) {
                        fr@ == friends@
                    } else {
                        &&& fr@.len() == friends@.len() + 1
                        &&& fr@.drop_first() == friends@
                        &&& fr@[0].did == from && fr@[0].display_name@ == disp && fr@[0].username is None
                        &&& fr@[0].encryption_key == p.from_encryption_key
                        &&& fr@[0].signing_key == p.from_signing_key
                    }
                },
                _ => post.screen == pre.screen,
            }
        },
        None => post == pre,
    }
}

// ── Direct messages ─────────────────────────────────────────────────

/// A direct message `content` from `sender` was received: it is stored
/// (under `mid` when given, else a fresh id; at `ts` when given); when the
/// conversation with the sender is open it is shown, the view snaps to the
/// bottom and a read receipt goes back.
pub open spec fn direct_received(
    pre: AppView,
    mid: Option<String>,
    sender: String,
    content: String,
    ts: Option<i64>,
    conv: Option<String>,
    post: AppView,
) -> bool {
    let open = open_with(pre, sender@);
    let n = pre.effects.len();
    &&& post.effects.len() == n + if open {
        2int
    } else {
        1int
    }
    &&& post.effects.subrange(0, n as int) == pre.effects
    &&& post.effects[n as int] matches Effect::StoreIncomingDirect {
        conversation_id,
        peer_did,
        message_id,
        content: c,
        timestamp,
        open: o,
    }
    &&& conversation_id == conv && peer_did == sender && c == content && o == open
    &&& match mid {
        Some(m) => message_id == m,
        None => message_id@.len() == 36,
    }
    &&& match ts {
        Some(t) => timestamp == t,
        None => true,
    }
    &&& if open {
        let name = match friend_name(pre.screen, sender@) {
            Some(x) => x,
            None => prefix(sender@, 16),
        };
        &&& post.chat.messages.len() == pre.chat.messages.len() + 1
        &&& post.chat.messages.drop_last() == pre.chat.messages
        &&& received_message(post.chat.messages.last(), message_id, sender, name, content, timestamp, false)
        &&& post.effects.last() == Effect::SendReadReceipt {
            friend_did: active_friend(pre)->0.did,
            message_id,
        }
        &&& post == (AppView {
            chat: ChatView { messages: post.chat.messages, message_scroll: 0, ..pre.chat },
            effects: post.effects,
            ..pre
        })
    } else {
        post == (AppView { effects: post.effects, ..pre })
    }
}

/// An encrypted chat envelope whose text could be decrypted.
pub open spec fn chat_envelope_step(pre: AppView, from: String, env: Envelope, post: AppView) -> bool {
    match (env.payload, env.plaintext, pre.session.my_did) {
        (Some(p), Some(text), Some(_)) => direct_received(
            pre,
            p.message_id,
            match p.sender_did {
                Some(s) => s,
                None => from,
            },
            text,
            p.timestamp,
            p.conversation_id,
            post,
        ),
        _ => post == pre,
    }
}

/// The content of a plain (or legacy encrypted) message: its `text`, else
/// its `content`, else the decrypted ciphertext.
pub open spec fn plain_content(env: Envelope) -> Option<String> {
    match env.text {
        Some(t) => Some(t),
        None => match env.content {
            Some(c) => Some(c),
            None => if env.has_ciphertext {
                env.plaintext
            } else {
                None
            },
        },
    }
}

/// A plain message from `from`, stamped by the relay at `ts` (seconds).
pub open spec fn plain_message_step(pre: AppView, from: String, env: Envelope, ts: Option<u64>, post: AppView) -> bool {
    match (plain_content(env), pre.session.my_did) {
        (Some(text), Some(_)) => direct_received(
            pre,
            None,
            from,
            text,
            match ts {
                Some(t) => Some(t as i64),
                None => None,
            },
            None,
            post,
        ),
        _ => post == pre,
    }
}

/// An edit of message `message_id` to `content`.
pub open spec fn edit_received(pre: AppView, env: Envelope, group: bool, post: AppView) -> bool {
    match (env.message_id, env.content) {
        (Some(id), Some(c)) => {
            &&& messages_and_effect(pre, post)
            &&& if group {
                post.effects.last() matches Effect::EditStoredGroupMessage { message_id, content, edited_at }
                    && message_id == id && content == c && (env.edited_at matches Some(a) ==> edited_at == a)
                    && update_first(pre.chat.messages, id@, post.chat.messages, |m: DisplayMessage| edited(m, c, edited_at))
            } else {
                post.effects.last() matches Effect::EditStoredMessage { message_id, content, edited_at }
                    && message_id == id && content == c && (env.edited_at matches Some(a) ==> edited_at == a)
                    && update_first(pre.chat.messages, id@, post.chat.messages, |m: DisplayMessage| edited(m, c, edited_at))
            }
        },
        _ => post == pre,
    }
}

/// A deletion of message `message_id`.
pub open spec fn delete_received(pre: AppView, env: Envelope, group: bool, post: AppView) -> bool {
    match env.message_id {
        Some(id) => {
            &&& messages_and_effect(pre, post)
            &&& post.effects.last() == if group {
                Effect::DeleteStoredGroupMessage { message_id: id }
            } else {
                Effect::DeleteStoredMessage { message_id: id }
            }
            &&& update_first(pre.chat.messages, id@, post.chat.messages, |m: DisplayMessage| deleted(m))
        },
        None => post == pre,
    }
}

/// A reaction added or removed by `from`; the message's reactions are
/// reloaded afterwards.
pub open spec fn reaction_received(pre: AppView, from: String, env: Envelope, add: bool, post: AppView) -> bool {
    match (env.message_id, env.emoji) {
        (Some(id), Some(e)) => post == (AppView {
            effects: pre.effects.push(Effect::StoreReaction { message_id: id, sender_did: from, emoji: e, add }),
            ..pre
        }),
        _ => post == pre,
    }
}

/// `post` is `pre` with the first message `id` given the status `st`.
pub open spec fn status_set_by(pre: Seq<DisplayMessage>, id: Seq<char>, post: Seq<DisplayMessage>, st: String) -> bool {
    update_first(pre, id, post, |m: DisplayMessage| DisplayMessage { status: st, ..m })
}

/// A read receipt for message `message_id`.
pub open spec fn receipt_received(pre: AppView, env: Envelope, post: AppView) -> bool {
    match env.message_id {
        Some(id) => {
            &&& messages_and_effect(pre, post)
            &&& post.effects.last() == Effect::MarkMessageRead { message_id: id }
            &&& exists|st: String| st@ == "read"@ && #[trigger] status_set_by(pre.chat.messages, id@, post.chat.messages, st)
        },
        None => post == pre,
    }
}

/// A pin or unpin of message `message_id` in `conversation_id`.
pub open spec fn pin_received(pre: AppView, env: Envelope, pin: bool, post: AppView) -> bool {
    match (env.message_id, env.conversation_id) {
        (Some(id), Some(c)) => {
            &&& messages_and_effect(pre, post)
            &&& post.effects.last() == Effect::PinStoredMessage { conversation_id: c, message_id: id, pin }
            &&& update_first(pre.chat.messages, id@, post.chat.messages, |m: DisplayMessage| DisplayMessage { pinned: pin, ..m })
        },
        _ => post == pre,
    }
}

/// `i` is the first typing entry of this DID.
pub open spec fn first_typing(s: Seq<(String, u64)>, did: Seq<char>, i: int) -> bool {
    &&& 0 <= i < s.len()
    &&& s[i].0@ == did
    &&& forall|j: int| 0 <= j < i ==> s[j].0@ != did
}

/// The typing entries with `did` seen at `t` (updated in place, or added).
pub open spec fn typing_upserted(pre: Seq<(String, u64)>, did: String, t: u64, post: Seq<(String, u64)>) -> bool {
    if exists|i: int| #[trigger] first_typing(pre, did@, i) {
        let i = choose|i: int| #[trigger] first_typing(pre, did@, i);
        post == pre.update(i, (pre[i].0, t))
    } else {
        post == pre.push((did, t))
    }
}

/// A typing indicator from `from` at `now` (milliseconds): remembered when
/// the conversation with them is open.
pub open spec fn typing_received(pre: AppView, from: String, now: u64, post: AppView) -> bool {
    if open_with(pre, from@) {
        &&& typing_upserted(pre.chat.typing_peers, from, now, post.chat.typing_peers)
        &&& post == (AppView { chat: ChatView { typing_peers: post.chat.typing_peers, ..pre.chat }, ..pre })
    } else {
        post == pre
    }
}

// ── Executable parts ────────────────────────────────────────────────

/// Characters of an optional text, empty when absent.
pub fn text_of(o: &Option<String>) -> (r: Vec<char>)
    ensures
        r@ == text_or_empty(*o),
{
    match o {
        Some(s) => crate::text::chars_of(s.as_str()),
        None => Vec::new(),
    }
}

/// The option when it holds a non-empty text.
pub fn nonempty(o: Option<String>) -> (r: Option<String>)
    ensures
        r == filled(o),
{
    match o {
        Some(s) => if s.unicode_len() > 0 {
            Some(s)
        } else {
            None
        },
        None => None,
    }
}

/// Whether an optional text is exactly `lit`.
pub fn text_is(o: &Option<String>, lit: &str) -> (r: bool)
    ensures
        r == is_text(*o, lit@),
{
    match o {
        Some(s) => crate::text::str_eq(s.as_str(), lit),
        None => false,
    }
}

/// The name a user is shown under.
pub fn name_for(name: &Vec<char>, did: &str) -> (r: String)
    ensures
        r@ == shown_name(name@, did@),
{
    if name.len() == 0 {
        crate::text::prefix_chars(did, 16)
    } else {
        crate::text::string_of(name)
    }
}

/// Position of the first friend with this DID.
pub(crate) fn friend_index(friends: &Vec<FriendEntry>, did: &str) -> (r: Option<usize>)
    ensures
        match r {
            Some(i) => first_friend(friends@, did@, i as int),
            None => forall|k: int| !first_friend(friends@, did@, k),
        },
{
    let mut i: usize = 0;
    while i < friends.len()
        invariant
            i <= friends@.len(),
            forall|j: int| 0 <= j < i ==> friends@[j].did@ != did@,
        decreases friends@.len() - i,
    {
        if crate::text::str_eq(friends[i].did.as_str(), did) {
            return Some(i);
        }
        i = i + 1;
    }
    None
}

/// The display name of a friend on the chat screen.
pub fn friend_name_in(s: &Screen, did: &str) -> (r: Option<String>)
    ensures
        match r {
            Some(n) => friend_name(*s, did@) == Some(n@),
            None => friend_name(*s, did@) is None,
        },
{
    match s {
        Screen::Chat { friends, .. } => match friend_index(friends, did) {
            Some(i) => {
                proof {
                    let k = choose|k: int| #[trigger] first_friend(friends@, did@, k);
                    assert(k == i) by {
                        if k > i {
                            assert(friends@[i as int].did@ == did@);
                        } else if k < i {
                            assert(friends@[k].did@ == did@);
                        }
                    }
                }
                Some(friends[i].display_name.clone())
            },
            None => None,
        },
        _ => None,
    }
}

/// A message from someone else, as displayed.
pub fn received_display(id: String, sender: String, name: String, content: String, ts: i64, mine: bool) -> (m: DisplayMessage)
    ensures
        received_message(m, id, sender, name@, content, ts, mine),
{
    DisplayMessage {
        id,
        sender_did: sender,
        sender_name: name,
        content,
        timestamp: ts,
        is_mine: mine,
        edited_at: None,
        deleted: false,
        status: "sent".to_owned(),
        reactions: Vec::new(),
        pinned: false,
    }
}

/// Position of the first typing entry of this DID.
fn typing_index(peers: &Vec<(String, u64)>, did: &str) -> (r: Option<usize>)
    ensures
        match r {
            Some(i) => first_typing(peers@, did@, i as int),
            None => forall|k: int| !first_typing(peers@, did@, k),
        },
{
    let mut i: usize = 0;
    while i < peers.len()
        invariant
            i <= peers@.len(),
            forall|j: int| 0 <= j < i ==> peers@[j].0@ != did@,
        decreases peers@.len() - i,
    {
        if crate::text::str_eq(peers[i].0.as_str(), did) {
            return Some(i);
        }
        i = i + 1;
    }
    None
}

impl App {
    /// Whether the open direct conversation is with this DID.
    pub fn is_open_with(&self, did: &str) -> (r: bool)
        ensures
            r == open_with(self@, did@),
    {
        match self.active_friend_did() {
            Some(d) => crate::text::str_eq(d.as_str(), did),
            None => false,
        }
    }

    pub(crate) fn receive_friend_request(&mut self, from: String, env: Envelope, facts: IncomingFacts)
        ensures
            old(self)@.wf() ==> final(self)@.wf(),
            friend_request_step(old(self)@, from, env, facts, final(self)@),
    {
        let p = match env.payload {
            Some(p) => p,
            None => return ,
        };
        let id = match nonempty(p.id) {
            Some(id) => id,
            None => return ,
        };
        if self.session.has_db && (facts.sender_blocked || facts.sender_is_friend || facts.request_pending) {
            return ;
        }
        let disp = text_of(&p.from_display_name);
        let shown = name_for(&disp, from.as_str());
        self.set_error2("Friend request from ", shown.as_str());
        self.push_effect(
            Effect::SaveIncomingRequest {
                id,
                did: from,
                display_name: crate::text::string_of(&disp),
                encryption_key: p.from_encryption_key,
                signing_key: p.from_signing_key,
            },
        );
    }

    pub(crate) fn receive_friend_accept(&mut self, from: String, env: Envelope)
        ensures
            old(self)@.wf() ==> final(self)@.wf(),
            friend_accept_step(old(self)@, from, env, final(self)@),
    {
        let p = match env.payload {
            Some(p) => p,
            None => return ,
        };
        let disp = text_of(&p.from_display_name);
        let shown = name_for(&disp, from.as_str());
        let s = self.take_screen();
        self.screen = match s {
            Screen::Chat { info, focus, friends, selected_friend, active_conversation } => {
                let mut friends = friends;
                let known = crate::friends::is_friend_in(&friends, from.as_str());
                if !known {
                    let ghost before = friends@;
                    friends.insert(
                        0,
                        FriendEntry {
                            did: from.clone(),
                            display_name: crate::text::string_of(&disp),
                            username: None,
                            encryption_key: crate::text::dup_opt_string(&p.from_encryption_key),
                            signing_key: crate::text::dup_opt_string(&p.from_signing_key),
                        },
                    );
                    assert(friends@.drop_first() =~= before);
                }
                Screen::Chat { info, focus, friends, selected_friend, active_conversation }
            },
            other => other,
        };
        self.set_error2(shown.as_str(), " accepted your friend request");
        let ghost e0 = self@.effects;
        self.push_effect(
            Effect::SaveAcceptedFriend {
                did: from.clone(),
                display_name: crate::text::string_of(&disp),
                encryption_key: p.from_encryption_key,
                signing_key: p.from_signing_key,
                request_id: nonempty(p.request_id),
            },
        );
        let ghost e1 = self@.effects;
        self.push_effect(Effect::SendAcceptAck { to_did: from });
        proof {
            assert(self@.effects.subrange(0, e0.len() as int) =~= e0) by {
                assert(self@.effects.subrange(0, e1.len() as int) == e1);
            }
            assert(self@.effects[e0.len() as int] == e1.last());
        }
    }

    /// A direct message was received from `sender`.
    pub(crate) fn receive_direct(
        &mut self,
        mid: Option<String>,
        sender: String,
        content: String,
        ts: Option<i64>,
        conv: Option<String>,
    )
        requires
            old(self)@.session.my_did is Some,
        ensures
            old(self)@.wf() ==> final(self)@.wf(),
            direct_received(old(self)@, mid, sender, content, ts, conv, final(self)@),
    {
        let open = self.is_open_with(sender.as_str());
        let message_id = match mid {
            Some(m) => m,
            None => crate::ids::random_uuid(),
        };
        let timestamp = match ts {
            Some(t) => t,
            None => crate::ids::unix_secs(),
        };
        let ghost e0 = self@.effects;
        if open {
            let name = match friend_name_in(&self.screen, sender.as_str()) {
                Some(n) => n,
                None => crate::text::prefix_chars(sender.as_str(), 16),
            };
            let m = received_display(message_id.clone(), sender.clone(), name, content.clone(), timestamp, false);
            self.chat.messages.push(m);
            self.chat.message_scroll = 0;
            assert(self@.chat.messages.drop_last() =~= old(self)@.chat.messages);
        }
        self.push_effect(
            Effect::StoreIncomingDirect {
                conversation_id: conv,
                peer_did: sender,
                message_id: message_id.clone(),
                content,
                timestamp,
                open,
            },
        );
        let ghost e1 = self@.effects;
        if open {
            self.send_read_receipt(message_id);
            proof {
                assert(self@.effects.subrange(0, e0.len() as int) =~= e0) by {
                    assert(self@.effects.subrange(0, e1.len() as int) == e1);
                }
                assert(self@.effects[e0.len() as int] == e1.last());
            }
        }
    }

    pub(crate) fn receive_edit(&mut self, env: Envelope, group: bool)
        ensures
            old(self)@.wf() ==> final(self)@.wf(),
            edit_received(old(self)@, env, group, final(self)@),
    {
        let (id, c) = match (env.message_id, env.content) {
            (Some(id), Some(c)) => (id, c),
            _ => return ,
        };
        let at = match env.edited_at {
            Some(a) => a,
            None => crate::ids::unix_secs(),
        };
        mark_edited(&mut self.chat.messages, id.as_str(), c.clone(), at);
        if group {
            self.push_effect(Effect::EditStoredGroupMessage { message_id: id, content: c, edited_at: at });
        } else {
            self.push_effect(Effect::EditStoredMessage { message_id: id, content: c, edited_at: at });
        }
    }

    pub(crate) fn receive_delete(&mut self, env: Envelope, group: bool)
        ensures
            old(self)@.wf() ==> final(self)@.wf(),
            delete_received(old(self)@, env, group, final(self)@),
    {
        let id = match env.message_id {
            Some(id) => id,
            None => return ,
        };
        mark_deleted(&mut self.chat.messages, id.as_str());
        if group {
            self.push_effect(Effect::DeleteStoredGroupMessage { message_id: id });
        } else {
            self.push_effect(Effect::DeleteStoredMessage { message_id: id });
        }
    }

    pub(crate) fn receive_reaction(&mut self, from: String, env: Envelope, add: bool)
        ensures
            old(self)@.wf() ==> final(self)@.wf(),
            reaction_received(old(self)@, from, env, add, final(self)@),
    {
        if let (Some(id), Some(e)) = (env.message_id, env.emoji) {
            self.push_effect(Effect::StoreReaction { message_id: id, sender_did: from, emoji: e, add });
        }
    }

    pub(crate) fn receive_receipt(&mut self, env: Envelope)
        ensures
            old(self)@.wf() ==> final(self)@.wf(),
            receipt_received(old(self)@, env, final(self)@),
    {
        let id = match env.message_id {
            Some(id) => id,
            None => return ,
        };
        let st = "read".to_owned();
        let ghost g = st;
        mark_status(&mut self.chat.messages, id.as_str(), st);
        assert(status_set_by(old(self)@.chat.messages, id@, self@.chat.messages, g));
        self.push_effect(Effect::MarkMessageRead { message_id: id });
    }

    pub(crate) fn receive_pin(&mut self, env: Envelope, pin: bool)
        ensures
            old(self)@.wf() ==> final(self)@.wf(),
            pin_received(old(self)@, env, pin, final(self)@),
    {
        let (id, c) = match (env.message_id, env.conversation_id) {
            (Some(id), Some(c)) => (id, c),
            _ => return ,
        };
        mark_pinned(&mut self.chat.messages, id.as_str(), pin);
        self.push_effect(Effect::PinStoredMessage { conversation_id: c, message_id: id, pin });
    }

    pub(crate) fn receive_typing(&mut self, from: String, now: u64)
        ensures
            old(self)@.wf() ==> final(self)@.wf(),
            typing_received(old(self)@, from, now, final(self)@),
            crate::app::typing_distinct(old(self)@.chat.typing_peers) ==> crate::app::typing_distinct(
                final(self)@.chat.typing_peers,
            ),
    {
        if !self.is_open_with(from.as_str()) {
            return ;
        }
        match typing_index(&self.chat.typing_peers, from.as_str()) {
            Some(i) => {
                proof {
                    let k = choose|k: int| #[trigger] first_typing(self.chat.typing_peers@, from@, k);
                    assert(k == i) by {
                        if k > i {
                            assert(self.chat.typing_peers@[i as int].0@ == from@);
                        } else if k < i {
                            assert(self.chat.typing_peers@[k].0@ == from@);
                        }
                    }
                }
                let did = self.chat.typing_peers[i].0.clone();
                let ghost before = self.chat.typing_peers@;
                self.chat.typing_peers.set(i, (did, now));
                proof {
                    let after = self.chat.typing_peers@;
                    assert forall|a: int, b: int| 0 <= a < b < after.len() && crate::app::typing_distinct(before) implies #[trigger] after[a].0@ != #[trigger] after[b].0@ by {
                        assert(after[a].0@ == before[a].0@);
                        assert(after[b].0@ == before[b].0@);
                        assert(before[a].0@ != before[b].0@);
                    }
                }
                return ;
            },
            None => {},
        }
        let ghost before = self.chat.typing_peers@;
        self.chat.typing_peers.push((from, now));
        proof {
            let after = self.chat.typing_peers@;
            assert forall|a: int, b: int| 0 <= a < b < after.len() && crate::app::typing_distinct(before) implies #[trigger] after[a].0@ != #[trigger] after[b].0@ by {
                if b < before.len() {
                    assert(after[a] == before[a] && after[b] == before[b]);
                } else {
                    assert(after[a] == before[a]);
                    assert(!first_typing(before, from@, a));
                }
            }
        }
    }
}

} // verus!
