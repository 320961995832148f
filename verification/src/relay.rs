//! The relay connection as the application sees it: what the relay server
//! sends, the events made from it, the reconnect schedule, and the
//! dispatch of what other users sent.

use vstd::prelude::*;
use crate::app::{App, AppView, Session};
use crate::broadcasts::{
    community_create_received, community_delete_received, community_edit_received,
    community_join_received, community_message_received, group_chat_received,
    group_create_received, group_leave_received, member_action_received,
};
use crate::inbox::{
    chat_envelope_step, delete_received, edit_received, friend_accept_step, friend_request_step,
    is_text, pin_received, plain_message_step, reaction_received, receipt_received,
    typing_received, Envelope, IncomingFacts,
};
use crate::types::{ResolvedInvite, Screen};

verus! {

/// Seconds before the first reconnect attempt.
pub const FIRST_RECONNECT_SECS: u64 = 2;

/// Longest wait between reconnect attempts, in seconds.
pub const MAX_RECONNECT_SECS: u64 = 30;

/// A message queued for us by the relay.
#[derive(Debug)]
pub struct RelayMessage {
    pub from_did: String,
    pub payload: String,
    pub timestamp: Option<u64>,
}

/// What the relay server sent, as read from its JSON text (absent fields
/// are `None`).
#[derive(Debug)]
pub struct ServerMessage {
    pub msg_type: String,
    pub from_did: Option<String>,
    pub payload: Option<String>,
    pub timestamp: Option<u64>,
    pub messages: Option<Vec<RelayMessage>>,
    pub id: Option<String>,
    pub message: Option<String>,
    pub code: Option<String>,
    pub community_id: Option<String>,
    pub community_name: Option<String>,
    pub community_description: Option<String>,
    pub member_count: Option<u32>,
    pub invite_payload: Option<String>,
}

/// Events of the relay connection.
#[derive(Debug)]
pub enum RelayEvent {
    /// Connected and registered.
    Connected,
    /// Disconnected (a reconnect follows).
    Disconnected,
    /// A message from another user.
    Message { from_did: String, payload: String, timestamp: Option<u64> },
    /// Messages queued while we were away.
    OfflineMessages { messages: Vec<RelayMessage> },
    /// An invite code was resolved.
    InviteResolved {
        code: String,
        community_id: String,
        community_name: String,
        community_description: Option<String>,
        member_count: u32,
        invite_payload: String,
    },
    /// No invite has this code.
    InviteNotFound { code: String },
    /// Something went wrong.
    Error(String),
}

/// The event made from a server message, if any: `message` with a sender
/// and a payload, `offline_messages` with a list, `invite_resolved` and
/// `invite_not_found` with a code, `error` with a text; anything else
/// (acknowledgements, pongs, unknown types, missing fields) makes none.
pub open spec fn server_event(m: ServerMessage, e: Option<RelayEvent>) -> bool {
    let t = m.msg_type@;
    if t == "message"@ {
        match (m.from_did, m.payload) {
            (Some(f), Some(p)) => e == Some(RelayEvent::Message { from_did: f, payload: p, timestamp: m.timestamp }),
            _ => e is None,
        }
    } else if t == "offline_messages"@ {
        match m.messages {
            Some(ms) => e == Some(RelayEvent::OfflineMessages { messages: ms }),
            None => e is None,
        }
    } else if t == "invite_resolved"@ {
        match m.code {
            Some(c) => e matches Some(RelayEvent::InviteResolved {
                code,
                community_id,
                community_name,
                community_description,
                member_count,
                invite_payload,
            }) && code == c && community_id@ == crate::broadcasts::text_or(m.community_id, Seq::empty())
                && community_name@ == crate::broadcasts::text_or(m.community_name, "Unknown"@)
                && community_description == m.community_description && member_count == (match m.member_count {
                Some(n) => n,
                None => 0,
            }) && invite_payload@ == crate::broadcasts::text_or(m.invite_payload, Seq::empty()),
            None => e is None,
        }
    } else if t == "invite_not_found"@ {
        match m.code {
            Some(c) => e == Some(RelayEvent::InviteNotFound { code: c }),
            None => e is None,
        }
    } else if t == "error"@ {
        match m.message {
            Some(x) => e == Some(RelayEvent::Error(x)),
            None => e is None,
        }
    } else {
        e is None
    }
}

fn or_empty(o: Option<String>) -> (r: String)
    ensures
        r@ == crate::broadcasts::text_or(o, Seq::empty()),
{
    match o {
        Some(s) => s,
        None => String::new(),
    }
}

/// The event made from a server message.
pub fn classify_server_message(m: ServerMessage) -> (e: Option<RelayEvent>)
    ensures
        server_event(m, e),
{
    let t = m.msg_type.as_str();
    if crate::text::str_eq(t, "message") {
        match (m.from_did, m.payload) {
            (Some(f), Some(p)) => Some(RelayEvent::Message { from_did: f, payload: p, timestamp: m.timestamp }),
            _ => None,
        }
    } else if crate::text::str_eq(t, "offline_messages") {
        match m.messages {
            Some(ms) => Some(RelayEvent::OfflineMessages { messages: ms }),
            None => None,
        }
    } else if crate::text::str_eq(t, "invite_resolved") {
        match m.code {
            Some(c) => Some(
                RelayEvent::InviteResolved {
                    code: c,
                    community_id: or_empty(m.community_id),
                    community_name: match m.community_name {
                        Some(n) => n,
                        None => "Unknown".to_owned(),
                    },
                    community_description: m.community_description,
                    member_count: match m.member_count {
                        Some(n) => n,
                        None => 0,
                    },
                    invite_payload: or_empty(m.invite_payload),
                },
            ),
            None => None,
        }
    } else if crate::text::str_eq(t, "invite_not_found") {
        match m.code {
            Some(c) => Some(RelayEvent::InviteNotFound { code: c }),
            None => None,
        }
    } else if crate::text::str_eq(t, "error") {
        match m.message {
            Some(x) => Some(RelayEvent::Error(x)),
            None => None,
        }
    } else {
        None
    }
}

/// The wait before the next reconnect attempt after waiting `secs`:
/// doubled, at most 30 seconds.
pub open spec fn reconnect_after(secs: u64) -> int {
    if 2 * secs < MAX_RECONNECT_SECS {
        2 * secs
    } else {
        MAX_RECONNECT_SECS as int
    }
}

/// The wait before the next reconnect attempt after waiting `secs`.
pub fn next_reconnect_delay(secs: u64) -> (r: u64)
    ensures
        r == reconnect_after(secs),
{
    if secs < MAX_RECONNECT_SECS / 2 {
        secs * 2
    } else {
        MAX_RECONNECT_SECS
    }
}

/// How one connection to the relay ended.
#[derive(Debug)]
pub enum RoundEnd {
    /// A shutdown was asked for.
    Shutdown,
    /// The server closed the connection, or a write failed.
    Dropped,
    /// Connecting or reading failed, with this text.
    Failed(String),
}

/// What follows the end of a connection.
#[derive(Debug)]
pub struct AfterRound {
    /// Events to report, in order.
    pub events: Vec<RelayEvent>,
    /// Whether to connect again.
    pub reconnect: bool,
    /// Seconds to wait before connecting again.
    pub wait_secs: u64,
    /// The wait to use after the next connection ends.
    pub next_delay: u64,
}

/// After a connection ends with `end`, having waited `delay` seconds last
/// time: a shutdown stops the task quietly; otherwise a failure is reported
/// ("Relay error: " and its text), then the disconnection, and the task
/// waits `delay` seconds and connects again, with the wait doubled (at
/// most 30 seconds) for the next time.
pub open spec fn after_round_spec(end: RoundEnd, delay: u64, a: AfterRound) -> bool {
    match end {
        RoundEnd::Shutdown => a.events@.len() == 0 && !a.reconnect,
        RoundEnd::Dropped => {
            &&& a.events@ == seq![RelayEvent::Disconnected]
            &&& a.reconnect
            &&& a.wait_secs == delay
            &&& a.next_delay == reconnect_after(delay)
        },
        RoundEnd::Failed(e) => {
            &&& a.events@.len() == 2
            &&& a.events@[0] matches RelayEvent::Error(m) && m@ == "Relay error: "@ + e@
            &&& a.events@[1] == RelayEvent::Disconnected
            &&& a.reconnect
            &&& a.wait_secs == delay
            &&& a.next_delay == reconnect_after(delay)
        },
    }
}

/// What the relay task does after a connection ends.
pub fn after_round(end: RoundEnd, delay: u64) -> (a: AfterRound)
    ensures
        after_round_spec(end, delay, a),
{
    let mut events: Vec<RelayEvent> = Vec::new();
    match end {
        RoundEnd::Shutdown => {
            return AfterRound { events, reconnect: false, wait_secs: 0, next_delay: delay };
        },
        RoundEnd::Dropped => {},
        RoundEnd::Failed(e) => {
            events.push(RelayEvent::Error(crate::text::concat2("Relay error: ", e.as_str())));
        },
    }
    events.push(RelayEvent::Disconnected);
    AfterRound { events, reconnect: true, wait_secs: delay, next_delay: next_reconnect_delay(delay) }
}

/// The effect of a relay event on the state.  A message and the offline
/// messages leave it unchanged: each is handed, once read, to
/// `App::handle_incoming`.
pub open spec fn relay_event_step(pre: AppView, e: RelayEvent, post: AppView) -> bool {
    match e {
        RelayEvent::Connected => post == (AppView { session: Session { relay_connected: true, ..pre.session }, ..pre }),
        RelayEvent::Disconnected => post == (AppView { session: Session { relay_connected: false, ..pre.session }, ..pre }),
        RelayEvent::InviteResolved {
            code,
            community_id,
            community_name,
            community_description,
            member_count,
            invite_payload,
        } => {
            let inv = ResolvedInvite {
                code,
                community_id,
                community_name,
                community_description,
                member_count,
                invite_payload,
            };
            match pre.screen {
                Screen::JoinCommunity { info, invite_code_input, .. } => post == (AppView {
                    screen: Screen::JoinCommunity {
                        info,
                        invite_code_input,
                        resolved_invite: Some(inv),
                        resolving: false,
                    },
                    ..pre
                }),
                _ => post == pre,
            }
        },
        RelayEvent::InviteNotFound { code } => {
            &&& post.session.error_message matches Some(m) && m@ == "Invite code '"@ + code@ + "' not found"@
            &&& post == (AppView {
                screen: match pre.screen {
                    Screen::JoinCommunity { info, invite_code_input, resolved_invite, .. } => Screen::JoinCommunity {
                        info,
                        invite_code_input,
                        resolved_invite,
                        resolving: false,
                    },
                    other => other,
                },
                session: Session { error_message: post.session.error_message, ..pre.session },
                ..pre
            })
        },
        RelayEvent::Error(x) => {
            &&& post.session.error_message matches Some(m) && m@ == "Relay: "@ + x@
            &&& post == pre.with_error_text(post.session.error_message)
        },
        _ => post == pre,
    }
}

/// What a message from another user does, by its envelope: friend
/// requests, acceptances and encrypted chat by the `envelope` field,
/// everything else by the `type` field, and plain text when neither names
/// a known kind.  `ts` is the relay's timestamp (seconds) and `now` the
/// time in milliseconds.
pub open spec fn incoming_step(
    pre: AppView,
    from: String,
    env: Envelope,
    facts: IncomingFacts,
    ts: Option<u64>,
    now: u64,
    post: AppView,
) -> bool {
    let e = env.envelope;
    let k = env.kind;
    if is_text(e, "friend_request"@) {
        friend_request_step(pre, from, env, facts, post)
    } else if is_text(e, "friend_accept"@) {
        friend_accept_step(pre, from, env, post)
    } else if is_text(e, "friend_accept_ack"@) {
        post == pre
    } else if is_text(e, "chat_message"@) {
        chat_envelope_step(pre, from, env, post)
    } else if is_text(k, "message_edit"@) {
        edit_received(pre, env, false, post)
    } else if is_text(k, "message_delete"@) {
        delete_received(pre, env, false, post)
    } else if is_text(k, "reaction_add"@) {
        reaction_received(pre, from, env, true, post)
    } else if is_text(k, "reaction_remove"@) {
        reaction_received(pre, from, env, false, post)
    } else if is_text(k, "typing"@) {
        typing_received(pre, from, now, post)
    } else if is_text(k, "read_receipt"@) {
        receipt_received(pre, env, post)
    } else if is_text(k, "message_pin"@) {
        pin_received(pre, env, true, post)
    } else if is_text(k, "message_unpin"@) {
        pin_received(pre, env, false, post)
    } else if is_text(k, "group_create"@) {
        group_create_received(pre, from, env, post)
    } else if is_text(k, "group_chat"@) {
        group_chat_received(pre, env, facts, post)
    } else if is_text(k, "group_leave"@) {
        group_leave_received(pre, env, post)
    } else if is_text(k, "group_message_edit"@) {
        edit_received(pre, env, true, post)
    } else if is_text(k, "group_message_delete"@) {
        delete_received(pre, env, true, post)
    } else if is_text(k, "community_create"@) {
        community_create_received(pre, from, env, facts, post)
    } else if is_text(k, "community_message"@) {
        community_message_received(pre, env, facts, post)
    } else if is_text(k, "community_message_edit"@) {
        community_edit_received(pre, env, post)
    } else if is_text(k, "community_message_delete"@) {
        community_delete_received(pre, env, post)
    } else if is_text(k, "community_member_action"@) {
        member_action_received(pre, env, post)
    } else if is_text(k, "community_join"@) {
        community_join_received(pre, env, facts, post)
    } else {
        plain_message_step(pre, from, env, ts, post)
    }
}

impl App {
    /// Record that a relay connection was started for our DID.
    pub fn relay_started(&mut self)
        ensures
            final(self)@ == (AppView { session: Session { has_relay: true, ..old(self)@.session }, ..old(self)@ }),
            old(self)@.wf() ==> final(self)@.wf(),
    {
        self.session.has_relay = true;
    }

    /// Handle an event of the relay connection.
    pub fn handle_relay_event(&mut self, event: RelayEvent)
        ensures
            old(self)@.wf() ==> final(self)@.wf(),
            relay_event_step(old(self)@, event, final(self)@),
    {
        match event {
            RelayEvent::Connected => {
                self.session.relay_connected = true;
            },
            RelayEvent::Disconnected => {
                self.session.relay_connected = false;
            },
            RelayEvent::InviteResolved {
                code,
                community_id,
                community_name,
                community_description,
                member_count,
                invite_payload,
            } => {
                self.invite_resolved(
                    ResolvedInvite {
                        code,
                        community_id,
                        community_name,
                        community_description,
                        member_count,
                        invite_payload,
                    },
                );
            },
            RelayEvent::InviteNotFound { code } => {
                self.invite_not_found(code.as_str());
            },
            RelayEvent::Error(x) => {
                self.set_error2("Relay: ", x.as_str());
            },
            _ => {},
        }
    }

    /// Handle a message from another user, read from its payload into
    /// `env`, judged against `facts`, stamped by the relay at `ts`, at
    /// `now` (milliseconds).
    pub fn handle_incoming(
        &mut self,
        from: String,
        env: Envelope,
        facts: IncomingFacts,
        ts: Option<u64>,
        now: u64,
    )
        ensures
            old(self)@.wf() ==> final(self)@.wf(),
            incoming_step(old(self)@, from, env, facts, ts, now, final(self)@),
    {
        let e = &env.envelope;
        let k = &env.kind;
        if crate::inbox::text_is(e, "friend_request") {
            self.receive_friend_request(from, env, facts);
        } else if crate::inbox::text_is(e, "friend_accept") {
            self.receive_friend_accept(from, env);
        } else if crate::inbox::text_is(e, "friend_accept_ack") {
        } else if crate::inbox::text_is(e, "chat_message") {
            self.receive_chat_envelope(from, env);
        } else if crate::inbox::text_is(k, "message_edit") {
            self.receive_edit(env, false);
        } else if crate::inbox::text_is(k, "message_delete") {
            self.receive_delete(env, false);
        } else if crate::inbox::text_is(k, "reaction_add") {
            self.receive_reaction(from, env, true);
        } else if crate::inbox::text_is(k, "reaction_remove") {
            self.receive_reaction(from, env, false);
        } else if crate::inbox::text_is(k, "typing") {
            self.receive_typing(from, now);
        } else if crate::inbox::text_is(k, "read_receipt") {
            self.receive_receipt(env);
        } else if crate::inbox::text_is(k, "message_pin") {
            self.receive_pin(env, true);
        } else if crate::inbox::text_is(k, "message_unpin") {
            self.receive_pin(env, false);
        } else if crate::inbox::text_is(k, "group_create") {
            self.receive_group_create(from, env);
        } else if crate::inbox::text_is(k, "group_chat") {
            self.receive_group_chat(env, facts);
        } else if crate::inbox::text_is(k, "group_leave") {
            self.receive_group_leave(env);
        } else if crate::inbox::text_is(k, "group_message_edit") {
            self.receive_edit(env, true);
        } else if crate::inbox::text_is(k, "group_message_delete") {
            self.receive_delete(env, true);
        } else if crate::inbox::text_is(k, "community_create") {
            self.receive_community_create(from, env, facts);
        } else if crate::inbox::text_is(k, "community_message") {
            self.receive_community_message(env, facts);
        } else if crate::inbox::text_is(k, "community_message_edit") {
            self.receive_community_edit(env);
        } else if crate::inbox::text_is(k, "community_message_delete") {
            self.receive_community_delete(env);
        } else if crate::inbox::text_is(k, "community_member_action") {
            self.receive_member_action(env);
        } else if crate::inbox::text_is(k, "community_join") {
            self.receive_community_join(env, facts);
        } else {
            self.receive_plain(from, env, ts);
        }
    }

    fn receive_chat_envelope(&mut self, from: String, env: Envelope)
        ensures
            old(self)@.wf() ==> final(self)@.wf(),
            chat_envelope_step(old(self)@, from, env, final(self)@),
    {
        match (env.payload, env.plaintext) {
            (Some(p), Some(text)) => {
                if self.session.my_did.is_none() {
                    return ;
                }
                let sender = match p.sender_did {
                    Some(s) => s,
                    None => from,
                };
                self.receive_direct(p.message_id, sender, text, p.timestamp, p.conversation_id);
            },
            _ => {},
        }
    }

    fn receive_plain(&mut self, from: String, env: Envelope, ts: Option<u64>)
        ensures
            old(self)@.wf() ==> final(self)@.wf(),
            plain_message_step(old(self)@, from, env, ts, final(self)@),
    {
        let content = match env.text {
            Some(t) => Some(t),
            None => match env.content {
                Some(c) => Some(c),
                None => if env.has_ciphertext {
                    env.plaintext
                } else {
                    None
                },
            },
        };
        let text = match content {
            Some(t) => t,
            None => return ,
        };
        if self.session.my_did.is_none() {
            return ;
        }
        let stamp = match ts {
            Some(t) => Some(t as i64),
            None => None,
        };
        self.receive_direct(None, from, text, stamp, None);
    }
}

} // verus!
