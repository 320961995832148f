//! The application state machine: state, its abstract view, and the
//! dispatch of key presses, ticks and async results.

use vstd::prelude::*;
use crate::effects::Effect;
use crate::keys::{KeyCode, KeyEvent};
use crate::text::{utf8_len, utf8_len_below};
use crate::types::{
    AsyncAction, AsyncResult, BlockedEntry, ChannelTreeItem, ChatFocus, CommunityEntry,
    CommunityFocus, CommunityMemberEntry, CreateCommunityFocus, CreateGroupFocus, DashboardInfo,
    DisplayMessage, FriendEntry, FriendRequestEntry, GroupEntry, InviteEntry, MemberActionItem,
    MessageAction, NavRoute, RequestTab, ResolvedInvite, RoleEntry, Screen, SearchResult,
    SidebarMode, SpaceEntry,
};

verus! {

/// Number of platforms offered for profile import.
pub const PLATFORM_COUNT: usize = 4;

/// Identifier of the `i`-th import platform.
pub open spec fn platform_id_spec(i: int) -> Seq<char> {
    if i == 0 {
        seq!['d', 'i', 's', 'c', 'o', 'r', 'd']
    } else if i == 1 {
        seq!['g', 'i', 't', 'h', 'u', 'b']
    } else if i == 2 {
        seq!['s', 't', 'e', 'a', 'm']
    } else {
        seq!['b', 'l', 'u', 'e', 's', 'k', 'y']
    }
}

/// Identifier of the `i`-th import platform (discord, github, steam, bluesky).
pub fn platform_id(i: usize) -> (r: String)
    requires
        i < PLATFORM_COUNT,
    ensures
        r@ == platform_id_spec(i as int),
{
    let v: Vec<char> = if i == 0 {
        vec!['d', 'i', 's', 'c', 'o', 'r', 'd']
    } else if i == 1 {
        vec!['g', 'i', 't', 'h', 'u', 'b']
    } else if i == 2 {
        vec!['s', 't', 'e', 'a', 'm']
    } else {
        vec!['b', 'l', 'u', 'e', 's', 'k', 'y']
    };
    let r = crate::text::string_of(&v);
    assert(r@ =~= platform_id_spec(i as int));
    r
}

/// Display name of the `i`-th import platform.
pub fn platform_name(i: usize) -> (r: &'static str)
    requires
        i < PLATFORM_COUNT,
    ensures
        r@ == (if i == 0 {
            "Discord"@
        } else if i == 1 {
            "GitHub"@
        } else if i == 2 {
            "Steam"@
        } else {
            "Bluesky"@
        }),
{
    if i == 0 {
        "Discord"
    } else if i == 1 {
        "GitHub"
    } else if i == 2 {
        "Steam"
    } else {
        "Bluesky"
    }
}

/// Text entry and onboarding state.  Text being typed is kept as
/// characters, and a cursor counts characters.
pub struct Entry {
    pub input: Vec<char>,
    pub cursor_pos: usize,
    /// The 24 words of the import phrase screen.
    pub word_inputs: Vec<Vec<char>>,
    pub active_word: usize,
    pub confirmed_backup: bool,
    pub selected_platform: usize,
    pub discovery_choice: bool,
    pub spinner_frame: usize,
    pub polling_active: bool,
    pub tick_counter: u16,
    pub welcome_tick: usize,
}

/// Abstract view of the text entry state.
pub ghost struct EntryView {
    pub input: Seq<char>,
    pub cursor_pos: usize,
    pub word_inputs: Seq<Vec<char>>,
    pub active_word: usize,
    pub confirmed_backup: bool,
    pub selected_platform: usize,
    pub discovery_choice: bool,
    pub spinner_frame: usize,
    pub polling_active: bool,
    pub tick_counter: u16,
    pub welcome_tick: usize,
}

impl View for Entry {
    type V = EntryView;

    open spec fn view(&self) -> EntryView {
        EntryView {
            input: self.input@,
            cursor_pos: self.cursor_pos,
            word_inputs: self.word_inputs@,
            active_word: self.active_word,
            confirmed_backup: self.confirmed_backup,
            selected_platform: self.selected_platform,
            discovery_choice: self.discovery_choice,
            spinner_frame: self.spinner_frame,
            polling_active: self.polling_active,
            tick_counter: self.tick_counter,
            welcome_tick: self.welcome_tick,
        }
    }
}

/// Session-wide state: identity, connections, the pending error text.
#[derive(Debug)]
pub struct Session {
    pub should_quit: bool,
    pub error_message: Option<String>,
    /// Whether a local store is available.
    pub has_db: bool,
    /// Whether a relay connection handle exists.
    pub has_relay: bool,
    pub relay_connected: bool,
    pub my_did: Option<String>,
    /// Display name of the loaded identity.
    pub my_name: Option<String>,
}

/// User search of the add-friend screen.
pub struct Search {
    pub search_results: Vec<SearchResult>,
    pub selected_result: usize,
    pub searching: bool,
}

/// Abstract view of the user search.
pub ghost struct SearchView {
    pub search_results: Seq<SearchResult>,
    pub selected_result: usize,
    pub searching: bool,
}

impl View for Search {
    type V = SearchView;

    open spec fn view(&self) -> SearchView {
        SearchView {
            search_results: self.search_results@,
            selected_result: self.selected_result,
            searching: self.searching,
        }
    }
}

/// Conversation state of the chat screen: messages, input, groups.
pub struct ChatState {
    pub nav_route: NavRoute,
    pub messages: Vec<DisplayMessage>,
    pub message_input: Vec<char>,
    pub message_cursor: usize,
    pub message_scroll: usize,
    pub selected_message: Option<usize>,
    pub message_action_mode: Option<MessageAction>,
    /// Peers typing in the active conversation, with the time (ms) they were seen.
    pub typing_peers: Vec<(String, u64)>,
    pub edit_buffer: Vec<char>,
    pub edit_cursor: usize,
    /// Time (ms) at which the last typing indicator was sent.
    pub last_typing_sent: Option<u64>,
    pub sidebar_mode: SidebarMode,
    pub groups: Vec<GroupEntry>,
    pub selected_group: usize,
    pub active_group: Option<String>,
}

/// Abstract view of the conversation state.
pub ghost struct ChatView {
    pub nav_route: NavRoute,
    pub messages: Seq<DisplayMessage>,
    pub message_input: Seq<char>,
    pub message_cursor: usize,
    pub message_scroll: usize,
    pub selected_message: Option<usize>,
    pub message_action_mode: Option<MessageAction>,
    pub typing_peers: Seq<(String, u64)>,
    pub edit_buffer: Seq<char>,
    pub edit_cursor: usize,
    pub last_typing_sent: Option<u64>,
    pub sidebar_mode: SidebarMode,
    pub groups: Seq<GroupEntry>,
    pub selected_group: usize,
    pub active_group: Option<String>,
}

impl View for ChatState {
    type V = ChatView;

    open spec fn view(&self) -> ChatView {
        ChatView {
            nav_route: self.nav_route,
            messages: self.messages@,
            message_input: self.message_input@,
            message_cursor: self.message_cursor,
            message_scroll: self.message_scroll,
            selected_message: self.selected_message,
            message_action_mode: self.message_action_mode,
            typing_peers: self.typing_peers@,
            edit_buffer: self.edit_buffer@,
            edit_cursor: self.edit_cursor,
            last_typing_sent: self.last_typing_sent,
            sidebar_mode: self.sidebar_mode,
            groups: self.groups@,
            selected_group: self.selected_group,
            active_group: self.active_group,
        }
    }
}

/// Community navigation state.
pub struct CommState {
    pub communities: Vec<CommunityEntry>,
    pub selected_community: usize,
    pub active_community: Option<String>,
    pub channel_tree: Vec<ChannelTreeItem>,
    pub selected_channel_item: usize,
    pub active_channel: Option<String>,
    pub active_channel_name: Option<String>,
    pub community_focus: CommunityFocus,
    pub community_spaces: Vec<SpaceEntry>,
}

/// Abstract view of the community navigation state.
pub ghost struct CommView {
    pub communities: Seq<CommunityEntry>,
    pub selected_community: usize,
    pub active_community: Option<String>,
    pub channel_tree: Seq<ChannelTreeItem>,
    pub selected_channel_item: usize,
    pub active_channel: Option<String>,
    pub active_channel_name: Option<String>,
    pub community_focus: CommunityFocus,
    pub community_spaces: Seq<SpaceEntry>,
}

impl View for CommState {
    type V = CommView;

    open spec fn view(&self) -> CommView {
        CommView {
            communities: self.communities@,
            selected_community: self.selected_community,
            active_community: self.active_community,
            channel_tree: self.channel_tree@,
            selected_channel_item: self.selected_channel_item,
            active_channel: self.active_channel,
            active_channel_name: self.active_channel_name,
            community_focus: self.community_focus,
            community_spaces: self.community_spaces@,
        }
    }
}

/// Main application state.
pub struct App {
    pub screen: Screen,
    pub entry: Entry,
    pub session: Session,
    pub search: Search,
    pub chat: ChatState,
    pub comm: CommState,
    /// Outside work requested and not yet taken by the main loop.
    pub effects: Vec<Effect>,
}

/// Abstract view of the application state.
pub ghost struct AppView {
    pub screen: Screen,
    pub entry: EntryView,
    pub session: Session,
    pub search: SearchView,
    pub chat: ChatView,
    pub comm: CommView,
    pub effects: Seq<Effect>,
}

impl View for App {
    type V = AppView;

    open spec fn view(&self) -> AppView {
        AppView {
            screen: self.screen,
            entry: self.entry@,
            session: self.session,
            search: self.search@,
            chat: self.chat@,
            comm: self.comm@,
            effects: self.effects@,
        }
    }
}

/// Twenty-four empty words.
pub open spec fn empty_words(w: Seq<Vec<char>>) -> bool {
    &&& w.len() == 24
    &&& forall|i: int| 0 <= i < 24 ==> (#[trigger] w[i])@.len() == 0
}

/// A string literal's characters as a sequence (used in contracts).
pub open spec fn lit(s: &str) -> Seq<char> {
    s@
}

/// Words of the import screen are typed in lowercase ASCII.
#[verifier::opaque]
pub open spec fn words_lowercase(w: Seq<Vec<char>>) -> bool {
    forall|i: int, j: int|
        0 <= i < w.len() && 0 <= j < w[i]@.len() ==> 'a' <= #[trigger] w[i]@[j] <= 'z'
}

/// No peer is listed twice among those typing.
pub open spec fn typing_distinct(s: Seq<(String, u64)>) -> bool {
    forall|a: int, b: int| #![trigger s[a], s[b]] 0 <= a < b < s.len() ==> s[a].0@ != s[b].0@
}

impl AppView {
    /// The state invariant of the application.
    pub open spec fn wf(self) -> bool {
        &&& self.entry.word_inputs.len() == 24
        &&& words_lowercase(self.entry.word_inputs)
        &&& self.entry.active_word < 24
        &&& self.entry.selected_platform < PLATFORM_COUNT
        &&& self.entry.spinner_frame < 4
        &&& self.entry.cursor_pos <= self.entry.input.len()
        &&& self.chat.message_cursor <= self.chat.message_input.len()
        &&& self.chat.edit_cursor <= self.chat.edit_buffer.len()
        &&& typing_distinct(self.chat.typing_peers)
    }

    /// The state with a new error text and nothing else changed.
    pub open spec fn with_error_text(self, m: Option<String>) -> AppView {
        AppView { session: Session { error_message: m, ..self.session }, ..self }
    }

    /// The text entry after one key of the shared text editor (Backspace,
    /// Left, Right, and characters while the UTF-8 length of the text is
    /// below 32 bytes).
    pub open spec fn text_input_step(self, code: KeyCode) -> AppView {
        let e = self.entry;
        match code {
            KeyCode::Backspace => if e.cursor_pos > 0 {
                AppView {
                    entry: EntryView {
                        input: e.input.remove(e.cursor_pos - 1),
                        cursor_pos: (e.cursor_pos - 1) as usize,
                        ..e
                    },
                    ..self
                }
            } else {
                self
            },
            KeyCode::Left => if e.cursor_pos > 0 {
                AppView { entry: EntryView { cursor_pos: (e.cursor_pos - 1) as usize, ..e }, ..self }
            } else {
                self
            },
            KeyCode::Right => if e.cursor_pos < e.input.len() {
                AppView { entry: EntryView { cursor_pos: (e.cursor_pos + 1) as usize, ..e }, ..self }
            } else {
                self
            },
            KeyCode::Char(c) => if utf8_len(e.input) < 32 {
                AppView {
                    entry: EntryView {
                        input: e.input.insert(e.cursor_pos as int, c),
                        cursor_pos: (e.cursor_pos + 1) as usize,
                        ..e
                    },
                    ..self
                }
            } else {
                self
            },
            _ => self,
        }
    }
}

impl App {
    /// A fresh application on the Welcome screen.
    pub fn new(has_db: bool) -> (app: App)
        ensures
            app@.wf(),
            app@.screen == Screen::Welcome,
            app@.entry.input.len() == 0,
            app@.entry.cursor_pos == 0,
            empty_words(app@.entry.word_inputs),
            app@.entry.active_word == 0,
            !app@.entry.confirmed_backup,
            app@.entry.selected_platform == 0,
            app@.entry.discovery_choice,
            app@.entry.spinner_frame == 0,
            !app@.entry.polling_active,
            app@.entry.tick_counter == 0,
            app@.entry.welcome_tick == 0,
            app@.session == (Session {
                should_quit: false,
                error_message: None,
                has_db,
                has_relay: false,
                relay_connected: false,
                my_did: None,
                my_name: None,
            }),
            app@.search.search_results.len() == 0,
            app@.search.selected_result == 0,
            !app@.search.searching,
            app@.chat.nav_route == NavRoute::Messages,
            app@.chat.messages.len() == 0,
            app@.chat.message_input.len() == 0,
            app@.chat.message_cursor == 0,
            app@.chat.message_scroll == 0,
            app@.chat.selected_message.is_none(),
            app@.chat.message_action_mode.is_none(),
            app@.chat.typing_peers.len() == 0,
            app@.chat.edit_buffer.len() == 0,
            app@.chat.edit_cursor == 0,
            app@.chat.last_typing_sent.is_none(),
            app@.chat.sidebar_mode == SidebarMode::DMs,
            app@.chat.groups.len() == 0,
            app@.chat.selected_group == 0,
            app@.chat.active_group.is_none(),
            app@.comm.communities.len() == 0,
            app@.comm.selected_community == 0,
            app@.comm.active_community.is_none(),
            app@.comm.channel_tree.len() == 0,
            app@.comm.selected_channel_item == 0,
            app@.comm.active_channel.is_none(),
            app@.comm.active_channel_name.is_none(),
            app@.comm.community_focus == CommunityFocus::CommunityList,
            app@.comm.community_spaces.len() == 0,
            app@.effects.len() == 0,
    {
        let words = Self::fresh_words();
        App {
            screen: Screen::Welcome,
            entry: Entry {
                input: Vec::new(),
                cursor_pos: 0,
                word_inputs: words,
                active_word: 0,
                confirmed_backup: false,
                selected_platform: 0,
                discovery_choice: true,
                spinner_frame: 0,
                polling_active: false,
                tick_counter: 0,
                welcome_tick: 0,
            },
            session: Session {
                should_quit: false,
                error_message: None,
                has_db,
                has_relay: false,
                relay_connected: false,
                my_did: None,
                my_name: None,
            },
            search: Search { search_results: Vec::new(), selected_result: 0, searching: false },
            chat: ChatState {
                nav_route: NavRoute::Messages,
                messages: Vec::new(),
                message_input: Vec::new(),
                message_cursor: 0,
                message_scroll: 0,
                selected_message: None,
                message_action_mode: None,
                typing_peers: Vec::new(),
                edit_buffer: Vec::new(),
                edit_cursor: 0,
                last_typing_sent: None,
                sidebar_mode: SidebarMode::DMs,
                groups: Vec::new(),
                selected_group: 0,
                active_group: None,
            },
            comm: CommState {
                communities: Vec::new(),
                selected_community: 0,
                active_community: None,
                channel_tree: Vec::new(),
                selected_channel_item: 0,
                active_channel: None,
                active_channel_name: None,
                community_focus: CommunityFocus::CommunityList,
                community_spaces: Vec::new(),
            },
            effects: Vec::new(),
        }
    }

    /// Twenty-four empty word slots.
    pub fn fresh_words() -> (r: Vec<Vec<char>>)
        ensures
            empty_words(r@),
            words_lowercase(r@),
    {
        let mut r: Vec<Vec<char>> = Vec::new();
        let mut i: usize = 0;
        while i < 24
            invariant
                i <= 24,
                r@.len() == i,
                forall|k: int| 0 <= k < i ==> r@[k]@ == Seq::<char>::empty(),
            decreases 24 - i,
        {
            r.push(Vec::new());
            i = i + 1;
        }
        proof {
            reveal(words_lowercase);
        }
        r
    }

    /// Take all requested outside work, leaving none.
    pub fn take_effects(&mut self) -> (r: Vec<Effect>)
        ensures
            r@ == old(self)@.effects,
            final(self)@ == (AppView { effects: Seq::empty(), ..old(self)@ }),
    {
        let mut r: Vec<Effect> = Vec::new();
        std::mem::swap(&mut r, &mut self.effects);
        r
    }

    /// Take the current screen out, leaving the Welcome screen in its place.
    pub fn take_screen(&mut self) -> (r: Screen)
        ensures
            r == old(self)@.screen,
            final(self)@ == (AppView { screen: Screen::Welcome, ..old(self)@ }),
    {
        let mut s = Screen::Welcome;
        std::mem::swap(&mut s, &mut self.screen);
        s
    }

    /// Queue a piece of outside work.
    pub fn push_effect(&mut self, e: Effect)
        ensures
            final(self)@ == (AppView { effects: old(self)@.effects.push(e), ..old(self)@ }),
            final(self)@.effects.len() == old(self)@.effects.len() + 1,
            final(self)@.effects.subrange(0, old(self)@.effects.len() as int) == old(self)@.effects,
            final(self)@.effects.last() == e,
    {
        self.effects.push(e);
        assert(self@.effects.subrange(0, old(self)@.effects.len() as int) =~= old(self)@.effects);
    }

    /// Set the error message to a fixed text.
    pub fn set_error(&mut self, m: &str)
        ensures
            final(self)@ == old(self)@.with_error_text(final(self)@.session.error_message),
            final(self)@.session.error_message is Some,
            final(self)@.session.error_message.unwrap()@ == m@,
    {
        self.session.error_message = Some(m.to_owned());
    }

    /// Set the error message to `prefix` followed by `detail`.
    pub fn set_error2(&mut self, prefix: &str, detail: &str)
        ensures
            final(self)@ == old(self)@.with_error_text(final(self)@.session.error_message),
            final(self)@.session.error_message is Some,
            final(self)@.session.error_message.unwrap()@ == prefix@ + detail@,
    {
        self.session.error_message = Some(crate::text::concat2(prefix, detail));
    }

    /// Set the error message to `a`, `b` and `c` in order.
    pub fn set_error3(&mut self, a: &str, b: &str, c: &str)
        ensures
            final(self)@ == old(self)@.with_error_text(final(self)@.session.error_message),
            final(self)@.session.error_message is Some,
            final(self)@.session.error_message.unwrap()@ == a@ + b@ + c@,
    {
        self.session.error_message = Some(crate::text::concat3(a, b, c));
    }

    /// Handle the keys shared by the name/username entry screens.
    pub fn handle_text_input(&mut self, key: KeyEvent)
        requires
            old(self)@.wf(),
        ensures
            final(self)@ == old(self)@.text_input_step(key.code),
            final(self)@.wf(),
    {
        match key.code {
            KeyCode::Backspace => {
                if self.entry.cursor_pos > 0 {
                    let p = self.entry.cursor_pos - 1;
                    self.entry.input.remove(p);
                    self.entry.cursor_pos = p;
                }
            },
            KeyCode::Left => {
                if self.entry.cursor_pos > 0 {
                    self.entry.cursor_pos = self.entry.cursor_pos - 1;
                }
            },
            KeyCode::Right => {
                if self.entry.cursor_pos < self.entry.input.len() {
                    self.entry.cursor_pos = self.entry.cursor_pos + 1;
                }
            },
            KeyCode::Char(c) => {
                if utf8_len_below(&self.entry.input, 32) {
                    proof {
                        crate::text::lemma_utf8_len_ge_len(self.entry.input@);
                    }
                    let p = self.entry.cursor_pos;
                    self.entry.input.insert(p, c);
                    self.entry.cursor_pos = p + 1;
                }
            },
            _ => {},
        }
    }
}

} // verus!
