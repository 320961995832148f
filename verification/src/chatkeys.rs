//! Keys of the chat screen: typing a message, the message action modes
//! (react, delete, edit), message selection, and the dispatch to the
//! navigation keys.

use vstd::prelude::*;
use crate::app::{App, AppView, ChatView};
use crate::chatmove::{
    down_step, enter_step, esc_step, leave_step, next_focus, prev_focus, route_step,
    select_last_step, start_input_step, up_step,
};
use crate::chatnav::{
    add_friend_open_step, focus_of, focused, friend_drop_step, has_active, join_open_step,
    new_item_step, panel_open_step, quit_step, requests_open_step, sidebar_toggle_step,
    CommunityPanel,
};
use crate::effects::Effect;
use crate::keys::KeyCode;
use crate::sending::{
    active_friend, channel_send_step, delete_step, direct_request, direct_send_step, edit_step,
    group_send_step,
};
use crate::text::trim;
use crate::types::{ChatFocus, MessageAction, Screen};

verus! {

/// Minimum time between two typing indicators, in milliseconds.
pub const TYPING_INTERVAL_MS: u64 = 3000;

// ── Typing a message ────────────────────────────────────────────────

/// Sending `text` to whatever is open: the group, else the channel, else
/// the direct conversation.
pub open spec fn send_text_step(pre: AppView, text: Seq<char>, post: AppView) -> bool {
    if pre.chat.active_group is Some {
        group_send_step(pre, text, post)
    } else if pre.comm.active_channel is Some {
        channel_send_step(pre, text, post)
    } else {
        direct_send_step(pre, text, post)
    }
}

/// A typing indicator is due at `now` after the last one was sent at `last`.
pub open spec fn typing_due(last: Option<u64>, now: u64) -> bool {
    match last {
        Some(l) => now >= l && now - l >= TYPING_INTERVAL_MS,
        None => true,
    }
}

/// After a character was typed at `now`: a typing indicator to the friend
/// of the open conversation, when one is due.
pub open spec fn typing_step(pre: AppView, now: u64, post: AppView) -> bool {
    if typing_due(pre.chat.last_typing_sent, now) {
        match (active_friend(pre), pre.session.my_did) {
            (Some(f), Some(_)) => post == (AppView {
                chat: ChatView { last_typing_sent: Some(now), ..pre.chat },
                effects: pre.effects.push(Effect::SendTyping { friend_did: f.did }),
                ..pre
            }),
            _ => post == pre,
        }
    } else {
        post == pre
    }
}

/// The chat state with a new message text and cursor.
pub open spec fn with_input(pre: AppView, input: Seq<char>, cursor: int) -> AppView {
    AppView { chat: ChatView { message_input: input, message_cursor: cursor as usize, ..pre.chat }, ..pre }
}

/// A key while typing a message.
pub open spec fn input_step(pre: AppView, code: KeyCode, now: u64, post: AppView) -> bool {
    let s = pre.chat.message_input;
    let c = pre.chat.message_cursor;
    match code {
        KeyCode::Esc => post == focused(pre, ChatFocus::MainArea),
        KeyCode::Enter => {
            let t = trim(s);
            if t.len() == 0 {
                post == pre
            } else {
                &&& send_text_step(pre, t, with_input(post, s, c as int))
                &&& post.chat.message_input.len() == 0
                &&& post.chat.message_cursor == 0
            }
        },
        KeyCode::Backspace => if c > 0 {
            post == with_input(pre, s.remove(c - 1), c - 1)
        } else {
            post == pre
        },
        KeyCode::Delete => if c < s.len() {
            post == with_input(pre, s.remove(c as int), c as int)
        } else {
            post == pre
        },
        KeyCode::Left => if c > 0 {
            post == with_input(pre, s, c - 1)
        } else {
            post == pre
        },
        KeyCode::Right => if c < s.len() {
            post == with_input(pre, s, c + 1)
        } else {
            post == pre
        },
        KeyCode::Home => post == with_input(pre, s, 0),
        KeyCode::End => post == with_input(pre, s, s.len() as int),
        KeyCode::Char(ch) => typing_step(with_input(pre, s.insert(c as int, ch), c + 1), now, post),
        _ => post == pre,
    }
}

// ── Message action modes ────────────────────────────────────────────

/// The emoji of a reaction key (`1` to `5`).
pub open spec fn reaction_emoji(k: char) -> Option<Seq<char>> {
    if k == '1' {
        Some(seq!['\u{1F44D}'])
    } else if k == '2' {
        Some(seq!['\u{2764}', '\u{FE0F}'])
    } else if k == '3' {
        Some(seq!['\u{1F602}'])
    } else if k == '4' {
        Some(seq!['\u{1F525}'])
    } else if k == '5' {
        Some(seq!['\u{1F4AF}'])
    } else {
        None
    }
}

/// `eff` adds the reaction `e` from us to message `id`, sent to `d`.
pub open spec fn is_reaction(eff: Effect, d: String, id: String, e: Seq<char>) -> bool {
    &&& eff matches Effect::SendReaction { friend_did, message_id, emoji, add }
    &&& friend_did == d && message_id == id && emoji@ == e && add
}

/// The state with no action mode.
pub open spec fn no_action(pre: AppView) -> AppView {
    AppView { chat: ChatView { message_action_mode: None, ..pre.chat }, ..pre }
}

/// A key in the reaction picker.
pub open spec fn react_step(pre: AppView, code: KeyCode, post: AppView) -> bool {
    match code {
        KeyCode::Esc => post == no_action(pre),
        KeyCode::Char(k) => match reaction_emoji(k) {
            Some(e) => {
                let mid = AppView {
                    chat: ChatView { message_action_mode: pre.chat.message_action_mode, ..post.chat },
                    ..post
                };
                &&& post.chat.message_action_mode is None
                &&& match pre.chat.selected_message {
                    Some(i) => if i < pre.chat.messages.len() {
                        direct_request(
                            pre,
                            mid,
                            |d: String, eff: Effect| is_reaction(eff, d, pre.chat.messages[i as int].id, e),
                        )
                    } else {
                        mid == pre
                    },
                    None => mid == pre,
                }
            },
            None => post == pre,
        },
        _ => post == pre,
    }
}

/// Confirming the deletion of the selected message.
pub open spec fn confirm_delete(pre: AppView, post: AppView) -> bool {
    let mid = AppView {
        chat: ChatView {
            message_action_mode: pre.chat.message_action_mode,
            selected_message: pre.chat.selected_message,
            ..post.chat
        },
        ..post
    };
    &&& post.chat.message_action_mode is None
    &&& post.chat.selected_message is None
    &&& match pre.chat.selected_message {
        Some(i) => if i < pre.chat.messages.len() && pre.chat.messages[i as int].is_mine {
            delete_step(pre, pre.chat.messages[i as int].id@, mid)
        } else {
            mid == pre
        },
        None => mid == pre,
    }
}

/// A key in the delete confirmation.
pub open spec fn delete_key_step(pre: AppView, code: KeyCode, post: AppView) -> bool {
    match code {
        KeyCode::Enter => confirm_delete(pre, post),
        KeyCode::Char(k) => if k == 'y' {
            confirm_delete(pre, post)
        } else if k == 'n' {
            post == no_action(pre)
        } else {
            post == pre
        },
        KeyCode::Esc => post == no_action(pre),
        _ => post == pre,
    }
}

/// The state with a new edit text and cursor.
pub open spec fn with_edit(pre: AppView, buf: Seq<char>, cursor: int) -> AppView {
    AppView { chat: ChatView { edit_buffer: buf, edit_cursor: cursor as usize, ..pre.chat }, ..pre }
}

/// Confirming the edit of the selected message.
pub open spec fn confirm_edit(pre: AppView, post: AppView) -> bool {
    let t = trim(pre.chat.edit_buffer);
    let mid = AppView {
        chat: ChatView {
            message_action_mode: pre.chat.message_action_mode,
            selected_message: pre.chat.selected_message,
            edit_buffer: pre.chat.edit_buffer,
            edit_cursor: pre.chat.edit_cursor,
            ..post.chat
        },
        ..post
    };
    &&& post.chat.message_action_mode is None
    &&& post.chat.selected_message is None
    &&& post.chat.edit_buffer.len() == 0
    &&& post.chat.edit_cursor == 0
    &&& match pre.chat.selected_message {
        Some(i) => if t.len() > 0 && i < pre.chat.messages.len() && pre.chat.messages[i as int].is_mine {
            edit_step(pre, pre.chat.messages[i as int].id@, t, mid)
        } else {
            mid == pre
        },
        None => mid == pre,
    }
}

/// A key while editing a message.
pub open spec fn edit_key_step(pre: AppView, code: KeyCode, post: AppView) -> bool {
    let b = pre.chat.edit_buffer;
    let c = pre.chat.edit_cursor;
    match code {
        KeyCode::Enter => confirm_edit(pre, post),
        KeyCode::Esc => post == with_edit(no_action(pre), Seq::empty(), 0),
        KeyCode::Backspace => if c > 0 {
            post == with_edit(pre, b.remove(c - 1), c - 1)
        } else {
            post == pre
        },
        KeyCode::Left => if c > 0 {
            post == with_edit(pre, b, c - 1)
        } else {
            post == pre
        },
        KeyCode::Right => if c < b.len() {
            post == with_edit(pre, b, c + 1)
        } else {
            post == pre
        },
        KeyCode::Char(ch) => post == with_edit(pre, b.insert(c as int, ch), c + 1),
        _ => post == pre,
    }
}

// ── Message selection ───────────────────────────────────────────────

/// Keys that act on the selected message.
pub open spec fn selection_keys(code: KeyCode) -> bool {
    match code {
        KeyCode::Up | KeyCode::Down | KeyCode::Esc => true,
        KeyCode::Char(k) => k == 'e' || k == 'd' || k == '+' || k == 'p',
        _ => false,
    }
}

/// The state with another selected message.
pub open spec fn selecting(pre: AppView, sel: Option<usize>) -> AppView {
    AppView { chat: ChatView { selected_message: sel, ..pre.chat }, ..pre }
}

/// The state in an action mode.
pub open spec fn in_mode(pre: AppView, a: MessageAction) -> AppView {
    AppView { chat: ChatView { message_action_mode: Some(a), ..pre.chat }, ..pre }
}

/// A key acting on the selected message.
pub open spec fn selection_step(pre: AppView, code: KeyCode, post: AppView) -> bool {
    match pre.chat.selected_message {
        Some(i) => {
            let n = pre.chat.messages.len();
            let m = pre.chat.messages[i as int];
            match code {
                KeyCode::Up => if i > 0 {
                    post == selecting(pre, Some((i - 1) as usize))
                } else {
                    post == pre
                },
                KeyCode::Down => if i + 1 < n {
                    post == selecting(pre, Some((i + 1) as usize))
                } else {
                    post == pre
                },
                KeyCode::Esc => post == selecting(pre, None),
                KeyCode::Char(k) => if k == 'e' {
                    if i < n && m.is_mine && !m.deleted {
                        post == with_edit(
                            in_mode(pre, MessageAction::Edit),
                            m.content@,
                            m.content@.len() as int,
                        )
                    } else {
                        post == pre
                    }
                } else if k == 'd' {
                    if i < n && m.is_mine && !m.deleted {
                        post == in_mode(pre, MessageAction::Delete)
                    } else {
                        post == pre
                    }
                } else if k == '+' {
                    if i < n && !m.deleted {
                        post == in_mode(pre, MessageAction::React)
                    } else {
                        post == pre
                    }
                } else if k == 'p' {
                    if i < n && !m.deleted {
                        direct_request(
                            pre,
                            post,
                            |d: String, e: Effect| e == Effect::TogglePin { friend_did: d, message_id: m.id },
                        )
                    } else {
                        post == pre
                    }
                } else {
                    post == pre
                },
                _ => post == pre,
            }
        },
        None => post == pre,
    }
}

// ── Navigation and the whole chat screen ────────────────────────────

/// A navigation key of the chat screen.
pub open spec fn nav_step(pre: AppView, code: KeyCode, post: AppView) -> bool {
    match code {
        KeyCode::Char(k) => if k == 'q' {
            quit_step(pre, post)
        } else if k == 'a' {
            add_friend_open_step(pre, post)
        } else if k == 'r' {
            requests_open_step(pre, post)
        } else if k == 'x' {
            friend_drop_step(pre, false, post)
        } else if k == 'b' {
            friend_drop_step(pre, true, post)
        } else if k == 'g' {
            sidebar_toggle_step(pre, post)
        } else if k == 'n' {
            new_item_step(pre, post)
        } else if k == 'm' {
            panel_open_step(pre, CommunityPanel::Members, post)
        } else if k == 'I' {
            panel_open_step(pre, CommunityPanel::Invites, post)
        } else if k == 'R' {
            panel_open_step(pre, CommunityPanel::Roles, post)
        } else if k == 'j' {
            join_open_step(pre, post)
        } else if k == 'l' {
            leave_step(pre, post)
        } else if k == 'e' {
            select_last_step(pre, post)
        } else if k == 'i' || k == '/' {
            start_input_step(pre, post)
        } else {
            post == pre
        },
        KeyCode::Tab => post == focused(pre, next_focus(focus_of(pre.screen), has_active(pre))),
        KeyCode::BackTab => post == focused(pre, prev_focus(focus_of(pre.screen), has_active(pre))),
        KeyCode::Left => route_step(pre, false, post),
        KeyCode::Right => route_step(pre, true, post),
        KeyCode::Up => up_step(pre, post),
        KeyCode::Down => down_step(pre, post),
        KeyCode::Enter => enter_step(pre, post),
        KeyCode::Esc => esc_step(pre, post),
        _ => post == pre,
    }
}

/// A key on the chat screen at time `now` (milliseconds): typing goes to
/// the message input; otherwise an action mode takes the key, then the
/// selected message, then navigation.
pub open spec fn chat_key_step(pre: AppView, code: KeyCode, now: u64, post: AppView) -> bool {
    if !(pre.screen is Chat) {
        post == pre
    } else if focus_of(pre.screen) == ChatFocus::Input {
        input_step(pre, code, now, post)
    } else {
        match pre.chat.message_action_mode {
            Some(MessageAction::React) => react_step(pre, code, post),
            Some(MessageAction::Delete) => delete_key_step(pre, code, post),
            Some(MessageAction::Edit) => edit_key_step(pre, code, post),
            _ => {
                let p = no_action(pre);
                if p.chat.selected_message is Some && focus_of(p.screen) == ChatFocus::MainArea
                    && selection_keys(code) {
                    selection_step(p, code, post)
                } else {
                    nav_step(p, code, post)
                }
            },
        }
    }
}

/// The emoji string of a reaction key.
pub fn reaction_for(k: char) -> (r: Option<String>)
    ensures
        match r {
            Some(s) => reaction_emoji(k) == Some(s@),
            None => reaction_emoji(k) is None,
        },
{
    let v: Vec<char> = if k == '1' {
        vec!['\u{1F44D}']
    } else if k == '2' {
        vec!['\u{2764}', '\u{FE0F}']
    } else if k == '3' {
        vec!['\u{1F602}']
    } else if k == '4' {
        vec!['\u{1F525}']
    } else if k == '5' {
        vec!['\u{1F4AF}']
    } else {
        return None;
    };
    let s = crate::text::string_of(&v);
    proof {
        assert(s@ =~= reaction_emoji(k)->0);
    }
    Some(s)
}

impl App {
    fn typing(&mut self, now: u64)
        ensures
            typing_step(old(self)@, now, final(self)@),
    {
        let due = match self.chat.last_typing_sent {
            Some(l) => now >= l && now - l >= TYPING_INTERVAL_MS,
            None => true,
        };
        if due {
            if let Some(f) = self.conversation_peer() {
                self.push_effect(Effect::SendTyping { friend_did: f });
                self.chat.last_typing_sent = Some(now);
            }
        }
    }

    fn input_key(&mut self, code: KeyCode, now: u64)
        requires
            old(self)@.chat.message_cursor <= old(self)@.chat.message_input.len(),
        ensures
            input_step(old(self)@, code, now, final(self)@),
    {
        match code {
            KeyCode::Esc => self.set_chat_focus(ChatFocus::MainArea),
            KeyCode::Enter => {
                let t = crate::text::trim_chars(&self.chat.message_input);
                if t.len() > 0 {
                    let text = crate::text::string_of(&t);
                    if self.chat.active_group.is_some() {
                        self.send_group_message(text);
                    } else if self.comm.active_channel.is_some() {
                        self.send_community_message(text);
                    } else {
                        self.send_direct_message(text);
                    }
                    self.chat.message_input = Vec::new();
                    self.chat.message_cursor = 0;
                }
            },
            KeyCode::Backspace => {
                if self.chat.message_cursor > 0 {
                    let p = self.chat.message_cursor - 1;
                    self.chat.message_input.remove(p);
                    self.chat.message_cursor = p;
                }
            },
            KeyCode::Delete => {
                if self.chat.message_cursor < self.chat.message_input.len() {
                    let p = self.chat.message_cursor;
                    self.chat.message_input.remove(p);
                }
            },
            KeyCode::Left => {
                if self.chat.message_cursor > 0 {
                    self.chat.message_cursor = self.chat.message_cursor - 1;
                }
            },
            KeyCode::Right => {
                if self.chat.message_cursor < self.chat.message_input.len() {
                    self.chat.message_cursor = self.chat.message_cursor + 1;
                }
            },
            KeyCode::Home => {
                self.chat.message_cursor = 0;
            },
            KeyCode::End => {
                self.chat.message_cursor = self.chat.message_input.len();
            },
            KeyCode::Char(ch) => {
                let p = self.chat.message_cursor;
                self.chat.message_input.insert(p, ch);
                let n = self.chat.message_input.len();
                assert(p < n);
                self.chat.message_cursor = p + 1;
                self.typing(now);
            },
            _ => {},
        }
    }

    fn react_key(&mut self, code: KeyCode)
        ensures
            react_step(old(self)@, code, final(self)@),
    {
        match code {
            KeyCode::Esc => {
                self.chat.message_action_mode = None;
            },
            KeyCode::Char(k) => {
                if let Some(e) = reaction_for(k) {
                    if let Some(i) = self.chat.selected_message {
                        if i < self.chat.messages.len() {
                            let id = self.chat.messages[i].id.clone();
                            self.send_reaction(id, e);
                        }
                    }
                    self.chat.message_action_mode = None;
                }
            },
            _ => {},
        }
    }

    fn confirm_delete_key(&mut self)
        ensures
            confirm_delete(old(self)@, final(self)@),
    {
        if let Some(i) = self.chat.selected_message {
            if i < self.chat.messages.len() && self.chat.messages[i].is_mine {
                let id = self.chat.messages[i].id.clone();
                self.delete_message(id);
            }
        }
        self.chat.message_action_mode = None;
        self.chat.selected_message = None;
    }

    fn delete_key(&mut self, code: KeyCode)
        ensures
            delete_key_step(old(self)@, code, final(self)@),
    {
        match code {
            KeyCode::Enter => self.confirm_delete_key(),
            KeyCode::Char(k) => {
                if k == 'y' {
                    self.confirm_delete_key();
                } else if k == 'n' {
                    self.chat.message_action_mode = None;
                }
            },
            KeyCode::Esc => {
                self.chat.message_action_mode = None;
            },
            _ => {},
        }
    }

    fn confirm_edit_key(&mut self)
        ensures
            confirm_edit(old(self)@, final(self)@),
    {
        let t = crate::text::trim_chars(&self.chat.edit_buffer);
        if t.len() > 0 {
            if let Some(i) = self.chat.selected_message {
                if i < self.chat.messages.len() && self.chat.messages[i].is_mine {
                    let id = self.chat.messages[i].id.clone();
                    let text = crate::text::string_of(&t);
                    self.edit_message(id, text);
                }
            }
        }
        self.chat.message_action_mode = None;
        self.chat.selected_message = None;
        self.chat.edit_buffer = Vec::new();
        self.chat.edit_cursor = 0;
    }

    fn edit_key(&mut self, code: KeyCode)
        requires
            old(self)@.chat.edit_cursor <= old(self)@.chat.edit_buffer.len(),
        ensures
            edit_key_step(old(self)@, code, final(self)@),
    {
        match code {
            KeyCode::Enter => self.confirm_edit_key(),
            KeyCode::Esc => {
                self.chat.message_action_mode = None;
                self.chat.edit_buffer = Vec::new();
                self.chat.edit_cursor = 0;
            },
            KeyCode::Backspace => {
                if self.chat.edit_cursor > 0 {
                    let p = self.chat.edit_cursor - 1;
                    self.chat.edit_buffer.remove(p);
                    self.chat.edit_cursor = p;
                }
            },
            KeyCode::Left => {
                if self.chat.edit_cursor > 0 {
                    self.chat.edit_cursor = self.chat.edit_cursor - 1;
                }
            },
            KeyCode::Right => {
                if self.chat.edit_cursor < self.chat.edit_buffer.len() {
                    self.chat.edit_cursor = self.chat.edit_cursor + 1;
                }
            },
            KeyCode::Char(ch) => {
                let p = self.chat.edit_cursor;
                self.chat.edit_buffer.insert(p, ch);
                let n = self.chat.edit_buffer.len();
                assert(p < n);
                self.chat.edit_cursor = p + 1;
            },
            _ => {},
        }
    }

    fn selection_key(&mut self, code: KeyCode)
        ensures
            selection_step(old(self)@, code, final(self)@),
    {
        let i = match self.chat.selected_message {
            Some(i) => i,
            None => return ,
        };
        let n = self.chat.messages.len();
        match code {
            KeyCode::Up => {
                if i > 0 {
                    self.chat.selected_message = Some(i - 1);
                }
            },
            KeyCode::Down => {
                if i < n && i + 1 < n {
                    self.chat.selected_message = Some(i + 1);
                }
            },
            KeyCode::Esc => {
                self.chat.selected_message = None;
            },
            KeyCode::Char(k) => {
                if i >= n {
                    return ;
                }
                let mine = self.chat.messages[i].is_mine;
                let gone = self.chat.messages[i].deleted;
                if k == 'e' {
                    if mine && !gone {
                        let buf = crate::text::chars_of(self.chat.messages[i].content.as_str());
                        self.chat.edit_cursor = buf.len();
                        self.chat.edit_buffer = buf;
                        self.chat.message_action_mode = Some(MessageAction::Edit);
                    }
                } else if k == 'd' {
                    if mine && !gone {
                        self.chat.message_action_mode = Some(MessageAction::Delete);
                    }
                } else if k == '+' {
                    if !gone {
                        self.chat.message_action_mode = Some(MessageAction::React);
                    }
                } else if k == 'p' {
                    if !gone {
                        let id = self.chat.messages[i].id.clone();
                        self.toggle_pin(id);
                    }
                }
            },
            _ => {},
        }
    }

    fn nav_key(&mut self, code: KeyCode)
        ensures
            nav_step(old(self)@, code, final(self)@),
    {
        match code {
            KeyCode::Char(k) => {
                if k == 'q' {
                    self.nav_quit();
                } else if k == 'a' {
                    self.nav_add_friend();
                } else if k == 'r' {
                    self.nav_requests();
                } else if k == 'x' {
                    self.nav_drop_friend(false);
                } else if k == 'b' {
                    self.nav_drop_friend(true);
                } else if k == 'g' {
                    self.nav_toggle_sidebar();
                } else if k == 'n' {
                    self.nav_new_item();
                } else if k == 'm' {
                    self.nav_panel(CommunityPanel::Members);
                } else if k == 'I' {
                    self.nav_panel(CommunityPanel::Invites);
                } else if k == 'R' {
                    self.nav_panel(CommunityPanel::Roles);
                } else if k == 'j' {
                    self.nav_join();
                } else if k == 'l' {
                    self.nav_leave();
                } else if k == 'e' {
                    self.nav_select_last();
                } else if k == 'i' || k == '/' {
                    self.nav_start_input();
                }
            },
            KeyCode::Tab => self.nav_tab(false),
            KeyCode::BackTab => self.nav_tab(true),
            KeyCode::Left => self.nav_route(false),
            KeyCode::Right => self.nav_route(true),
            KeyCode::Up => self.nav_up(),
            KeyCode::Down => self.nav_down(),
            KeyCode::Enter => self.nav_enter(),
            KeyCode::Esc => self.nav_esc(),
            _ => {},
        }
    }

    /// Handle a key on the chat screen at time `now` (milliseconds).
    #[verifier::spinoff_prover]
    #[verifier::rlimit(40)]
    pub fn handle_chat_key(&mut self, code: KeyCode, now: u64)
        requires
            old(self)@.wf(),
        ensures
            chat_key_step(old(self)@, code, now, final(self)@),
            final(self)@.wf(),
    {
        let on_chat = match &self.screen {
            Screen::Chat { .. } => true,
            _ => false,
        };
        if !on_chat {
            return ;
        }
        if self.chat_focus() == ChatFocus::Input {
            self.input_key(code, now);
            return ;
        }
        match self.chat.message_action_mode {
            Some(MessageAction::React) => self.react_key(code),
            Some(MessageAction::Delete) => self.delete_key(code),
            Some(MessageAction::Edit) => self.edit_key(code),
            _ => {
                self.chat.message_action_mode = None;
                let sel_keys = match code {
                    KeyCode::Up | KeyCode::Down | KeyCode::Esc => true,
                    KeyCode::Char(k) => k == 'e' || k == 'd' || k == '+' || k == 'p',
                    _ => false,
                };
                if self.chat.selected_message.is_some() && self.chat_focus() == ChatFocus::MainArea
                    && sel_keys {
                    self.selection_key(code);
                } else {
                    self.nav_key(code);
                }
            },
        }
    }
}

} // verus!
