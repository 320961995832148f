//! Stored messages of a conversation, group or channel, turned into the
//! messages the chat screen shows.

use vstd::prelude::*;
use crate::app::{App, AppView, ChatView};
use crate::broadcasts::{community_sender_name, group_member_name, text_or};
use crate::effects::Effect;
use crate::inbox::{friend_name, friend_name_in, prefix};
use crate::sending::{direct_request, identity_name};
use crate::store::{StoredCommunityMessage, StoredGroupMessage, StoredMessage};
use crate::types::{CommunityMemberEntry, DisplayMessage};

verus! {

/// Our DID as text (empty when no identity is loaded).
pub open spec fn my_did_text(v: AppView) -> Seq<char> {
    text_or(v.session.my_did, Seq::empty())
}

/// Some pinned id is this one.
pub open spec fn is_pinned(pinned: Seq<String>, id: Seq<char>) -> bool {
    exists|j: int| 0 <= j < pinned.len() && #[trigger] pinned[j]@ == id
}

/// How a stored direct message is shown: ours under our name, theirs under
/// the friend's name (else the first 16 characters of the DID), with its
/// reactions and pin.
pub open spec fn direct_row(
    v: AppView,
    m: StoredMessage,
    reactions: Seq<(String, usize)>,
    pinned: Seq<String>,
    d: DisplayMessage,
) -> bool {
    let mine = m.sender_did@ == my_did_text(v);
    &&& d.id == m.id && d.sender_did == m.sender_did && d.content == m.content
    &&& d.timestamp == m.timestamp && d.is_mine == mine && d.edited_at == m.edited_at
    &&& d.deleted == m.deleted && d.status == m.status && d.reactions@ == reactions
    &&& d.pinned == is_pinned(pinned, m.id@)
    &&& d.sender_name@ == if mine {
        identity_name(v)
    } else {
        match friend_name(v.screen, m.sender_did@) {
            Some(n) => n,
            None => prefix(m.sender_did@, 16),
        }
    }
}

/// How a stored group message of group `g` is shown.
pub open spec fn group_row(v: AppView, g: Seq<char>, m: StoredGroupMessage, d: DisplayMessage) -> bool {
    let mine = m.sender_did@ == my_did_text(v);
    &&& d.id == m.id && d.sender_did == m.sender_did && d.content == m.content
    &&& d.timestamp == m.timestamp && d.is_mine == mine && d.edited_at == m.edited_at
    &&& d.deleted == m.deleted && d.status@ == "sent"@ && d.reactions@.len() == 0 && !d.pinned
    &&& d.sender_name@ == if mine {
        identity_name(v)
    } else {
        match group_member_name(v, g, m.sender_did@) {
            Some(n) => n,
            None => prefix(m.sender_did@, 16),
        }
    }
}

/// How a stored channel message is shown.
pub open spec fn channel_row(v: AppView, members: Seq<CommunityMemberEntry>, m: StoredCommunityMessage, d: DisplayMessage) -> bool {
    &&& d.id == m.id && d.sender_did == m.sender_did && d.content == m.content
    &&& d.timestamp == m.timestamp && d.is_mine == (m.sender_did@ == my_did_text(v))
    &&& d.edited_at == m.edited_at && d.deleted == m.deleted && d.status@ == "sent"@
    &&& d.reactions@.len() == 0 && !d.pinned
    &&& d.sender_name@ == community_sender_name(v, members, m.sender_did@)
}

/// The reactions given for row `i`.
pub open spec fn reactions_at(r: Seq<Vec<(String, usize)>>, i: int) -> Seq<(String, usize)> {
    if i < r.len() {
        r[i]@
    } else {
        Seq::empty()
    }
}

/// The loaded conversation replaces the shown messages, the view snaps to
/// the bottom, and when the last message is the friend's a read receipt
/// goes back.
pub open spec fn direct_shown(
    pre: AppView,
    stored: Seq<StoredMessage>,
    reactions: Seq<Vec<(String, usize)>>,
    pinned: Seq<String>,
    post: AppView,
) -> bool {
    let msgs = post.chat.messages;
    let mid = AppView { chat: ChatView { messages: msgs, message_scroll: 0, ..pre.chat }, ..pre };
    &&& msgs.len() == stored.len()
    &&& forall|i: int| 0 <= i < msgs.len() ==> direct_row(pre, stored[i], reactions_at(reactions, i), pinned, #[trigger] msgs[i])
    &&& if msgs.len() > 0 && !msgs.last().is_mine {
        direct_request(mid, post, |d: String, e: Effect| e == Effect::SendReadReceipt { friend_did: d, message_id: msgs.last().id })
    } else {
        post == mid
    }
}

fn pinned_has(pinned: &Vec<String>, id: &str) -> (r: bool)
    ensures
        r == is_pinned(pinned@, id@),
{
    let mut j: usize = 0;
    while j < pinned.len()
        invariant
            j <= pinned@.len(),
            forall|k: int| 0 <= k < j ==> pinned@[k]@ != id@,
        decreases pinned@.len() - j,
    {
        if crate::text::str_eq(pinned[j].as_str(), id) {
            return true;
        }
        j = j + 1;
    }
    false
}

fn same_as_mine(did: &String, mine: &Option<String>) -> (r: bool)
    ensures
        r == (did@ == text_or(*mine, Seq::empty())),
{
    match mine {
        Some(m) => crate::text::str_eq(did.as_str(), m.as_str()),
        None => {
            let r = did.unicode_len() == 0;
            proof {
                if r {
                    assert(did@ =~= Seq::<char>::empty());
                }
            }
            r
        },
    }
}

impl App {
    fn direct_row_of(&self, m: StoredMessage, reactions: Vec<(String, usize)>, pinned: &Vec<String>) -> (d: DisplayMessage)
        ensures
            direct_row(self@, m, reactions@, pinned@, d),
    {
        let mine = same_as_mine(&m.sender_did, &self.session.my_did);
        let name = if mine {
            self.identity_display_name()
        } else {
            match friend_name_in(&self.screen, m.sender_did.as_str()) {
                Some(n) => n,
                None => crate::text::prefix_chars(m.sender_did.as_str(), 16),
            }
        };
        let pin = pinned_has(pinned, m.id.as_str());
        DisplayMessage {
            id: m.id,
            sender_did: m.sender_did,
            sender_name: name,
            content: m.content,
            timestamp: m.timestamp,
            is_mine: mine,
            edited_at: m.edited_at,
            deleted: m.deleted,
            status: m.status,
            reactions,
            pinned: pin,
        }
    }

    /// Show a loaded conversation: its stored messages with, row by row,
    /// their aggregated reactions, and the ids of its pinned messages.
    pub fn show_direct_messages(
        &mut self,
        stored: Vec<StoredMessage>,
        reactions: Vec<Vec<(String, usize)>>,
        pinned: Vec<String>,
    )
        ensures
            old(self)@.wf() ==> final(self)@.wf(),
            direct_shown(old(self)@, stored@, reactions@, pinned@, final(self)@),
    {
        let ghost orig = stored@;
        let ghost orig_r = reactions@;
        let total = stored.len();
        let mut stored = stored;
        let mut reactions = reactions;
        let mut out: Vec<DisplayMessage> = Vec::new();
        let mut k: usize = 0;
        while stored.len() > 0
            invariant
                k <= orig.len(),
                orig.len() == total,
                stored@ == orig.subrange(k as int, orig.len() as int),
                reactions@ == if k < orig_r.len() {
                    orig_r.subrange(k as int, orig_r.len() as int)
                } else {
                    Seq::empty()
                },
                out@.len() == k,
                self@ == old(self)@,
                forall|i: int| 0 <= i < k ==> direct_row(old(self)@, orig[i], reactions_at(orig_r, i), pinned@, #[trigger] out@[i]),
            decreases stored@.len(),
        {
            let m = stored.remove(0);
            let r = if reactions.len() > 0 {
                reactions.remove(0)
            } else {
                Vec::new()
            };
            proof {
                assert(m == orig[k as int]);
                assert(stored@ =~= orig.subrange(k + 1, orig.len() as int));
                assert(r@ == reactions_at(orig_r, k as int));
                if k + 1 < orig_r.len() {
                    assert(reactions@ =~= orig_r.subrange(k + 1, orig_r.len() as int));
                } else {
                    assert(reactions@ =~= Seq::<Vec<(String, usize)>>::empty());
                }
            }
            let d = self.direct_row_of(m, r, &pinned);
            out.push(d);
            k = k + 1;
        }
        let n = out.len();
        let last = if n > 0 && !out[n - 1].is_mine {
            Some(out[n - 1].id.clone())
        } else {
            None
        };
        self.chat.messages = out;
        self.chat.message_scroll = 0;
        if let Some(id) = last {
            self.send_read_receipt(id);
        }
    }

    fn group_row_of(&self, g: &str, m: StoredGroupMessage) -> (d: DisplayMessage)
        ensures
            group_row(self@, g@, m, d),
    {
        let mine = same_as_mine(&m.sender_did, &self.session.my_did);
        let name = if mine {
            self.identity_display_name()
        } else {
            match self.group_member_name_of(g, m.sender_did.as_str()) {
                Some(n) => n,
                None => crate::text::prefix_chars(m.sender_did.as_str(), 16),
            }
        };
        DisplayMessage {
            id: m.id,
            sender_did: m.sender_did,
            sender_name: name,
            content: m.content,
            timestamp: m.timestamp,
            is_mine: mine,
            edited_at: m.edited_at,
            deleted: m.deleted,
            status: "sent".to_owned(),
            reactions: Vec::new(),
            pinned: false,
        }
    }

    /// Show the loaded messages of group `group_id`.
    pub fn show_group_messages(&mut self, group_id: String, stored: Vec<StoredGroupMessage>)
        ensures
            old(self)@.wf() ==> final(self)@.wf(),
            final(self)@ == (AppView { chat: ChatView { messages: final(self)@.chat.messages, ..old(self)@.chat }, ..old(self)@ }),
            final(self)@.chat.messages.len() == stored@.len(),
            forall|i: int| 0 <= i < stored@.len() ==> group_row(old(self)@, group_id@, stored@[i], #[trigger] final(self)@.chat.messages[i]),
    {
        let ghost orig = stored@;
        let total = stored.len();
        let mut stored = stored;
        let mut out: Vec<DisplayMessage> = Vec::new();
        let mut k: usize = 0;
        while stored.len() > 0
            invariant
                k <= orig.len(),
                orig.len() == total,
                stored@ == orig.subrange(k as int, orig.len() as int),
                out@.len() == k,
                self@ == old(self)@,
                forall|i: int| 0 <= i < k ==> group_row(old(self)@, group_id@, orig[i], #[trigger] out@[i]),
            decreases stored@.len(),
        {
            let m = stored.remove(0);
            proof {
                assert(m == orig[k as int]);
                assert(stored@ =~= orig.subrange(k + 1, orig.len() as int));
            }
            let d = self.group_row_of(group_id.as_str(), m);
            out.push(d);
            k = k + 1;
        }
        self.chat.messages = out;
    }

    /// Show the loaded messages of the open channel, whose community has
    /// these members; the view snaps to the bottom with nothing selected.
    pub fn show_channel_messages(&mut self, stored: Vec<StoredCommunityMessage>, members: Vec<CommunityMemberEntry>)
        ensures
            old(self)@.wf() ==> final(self)@.wf(),
            final(self)@ == (AppView {
                chat: ChatView {
                    messages: final(self)@.chat.messages,
                    message_scroll: 0,
                    selected_message: None,
                    message_action_mode: None,
                    ..old(self)@.chat
                },
                ..old(self)@
            }),
            final(self)@.chat.messages.len() == stored@.len(),
            forall|i: int| 0 <= i < stored@.len() ==> channel_row(old(self)@, members@, stored@[i], #[trigger] final(self)@.chat.messages[i]),
    {
        let ghost orig = stored@;
        let total = stored.len();
        let mut stored = stored;
        let mut out: Vec<DisplayMessage> = Vec::new();
        let mut k: usize = 0;
        while stored.len() > 0
            invariant
                k <= orig.len(),
                orig.len() == total,
                stored@ == orig.subrange(k as int, orig.len() as int),
                out@.len() == k,
                self@ == old(self)@,
                forall|i: int| 0 <= i < k ==> channel_row(old(self)@, members@, orig[i], #[trigger] out@[i]),
            decreases stored@.len(),
        {
            let m = stored.remove(0);
            proof {
                assert(m == orig[k as int]);
                assert(stored@ =~= orig.subrange(k + 1, orig.len() as int));
            }
            let mine = same_as_mine(&m.sender_did, &self.session.my_did);
            let name = self.community_sender(&members, m.sender_did.as_str());
            out.push(
                DisplayMessage {
                    id: m.id,
                    sender_did: m.sender_did,
                    sender_name: name,
                    content: m.content,
                    timestamp: m.timestamp,
                    is_mine: mine,
                    edited_at: m.edited_at,
                    deleted: m.deleted,
                    status: "sent".to_owned(),
                    reactions: Vec::new(),
                    pinned: false,
                },
            );
            k = k + 1;
        }
        self.chat.messages = out;
        self.chat.message_scroll = 0;
        self.chat.selected_message = None;
        self.chat.message_action_mode = None;
    }
}

} // verus!
