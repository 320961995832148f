//! Navigation keys of the chat screen: focus, routes, sidebars, and the
//! screens opened from it.

use vstd::prelude::*;
use crate::app::{App, AppView, ChatView, CommView, EntryView, SearchView, Session};
use crate::effects::Effect;
use crate::msglist::group_recipients;
use crate::types::{
    ChannelTreeItem, ChatFocus, CommunityEntry, CreateCommunityFocus, CreateGroupFocus, NavRoute,
    RequestTab, Screen, SidebarMode,
};

verus! {

// ── The chat screen's own fields ─────────────────────────────────────

/// Focus of the chat screen (`TabBar` on any other screen).
pub open spec fn focus_of(s: Screen) -> ChatFocus {
    match s {
        Screen::Chat { focus, .. } => focus,
        _ => ChatFocus::TabBar,
    }
}

/// Open direct conversation of the chat screen.
pub open spec fn conv_of(s: Screen) -> Option<usize> {
    match s {
        Screen::Chat { active_conversation, .. } => active_conversation,
        _ => None,
    }
}

/// The chat screen with a new focus and open conversation.
pub open spec fn screen_with(s: Screen, f: ChatFocus, ac: Option<usize>) -> Screen {
    match s {
        Screen::Chat { info, friends, selected_friend, .. } => Screen::Chat {
            info,
            focus: f,
            friends,
            selected_friend,
            active_conversation: ac,
        },
        _ => s,
    }
}

/// The state with the chat screen's focus changed.
pub open spec fn focused(v: AppView, f: ChatFocus) -> AppView {
    AppView { screen: screen_with(v.screen, f, conv_of(v.screen)), ..v }
}

/// A group, a channel or a direct conversation is open.
pub open spec fn has_active(v: AppView) -> bool {
    v.chat.active_group is Some || v.comm.active_channel is Some || conv_of(v.screen) is Some
}

/// `i` is the first community with the given id.
pub open spec fn first_community(s: Seq<CommunityEntry>, id: Seq<char>, i: int) -> bool {
    &&& 0 <= i < s.len()
    &&& s[i].id@ == id
    &&& forall|j: int| 0 <= j < i ==> s[j].id@ != id
}

/// Name of the first community with the given id (empty when none has it).
pub open spec fn community_name_of(s: Seq<CommunityEntry>, id: Seq<char>) -> Seq<char> {
    if exists|i: int| #[trigger] first_community(s, id, i) {
        s[choose|i: int| #[trigger] first_community(s, id, i)].name@
    } else {
        Seq::empty()
    }
}

/// Name of the first community with the given id (empty when none has it).
pub fn community_name_in(s: &Vec<CommunityEntry>, id: &str) -> (r: String)
    ensures
        r@ == community_name_of(s@, id@),
{
    let mut i: usize = 0;
    while i < s.len()
        invariant
            i <= s@.len(),
            forall|j: int| 0 <= j < i ==> s@[j].id@ != id@,
        decreases s@.len() - i,
    {
        if crate::text::str_eq(s[i].id.as_str(), id) {
            assert(first_community(s@, id@, i as int));
            proof {
                let k = choose|k: int| #[trigger] first_community(s@, id@, k);
                assert(k == i) by {
                    if k > i {
                        assert(s@[i as int].id@ == id@);
                    }
                }
            }
            return s[i].name.clone();
        }
        i = i + 1;
    }
    assert forall|k: int| !first_community(s@, id@, k) by {}
    String::new()
}

/// `n` unchecked boxes.
pub fn all_false(n: usize) -> (r: Vec<bool>)
    ensures
        r@ == Seq::new(n as nat, |k: int| false),
{
    let mut r: Vec<bool> = Vec::new();
    let mut i: usize = 0;
    while i < n
        invariant
            i <= n,
            r@ == Seq::new(i as nat, |k: int| false),
        decreases n - i,
    {
        r.push(false);
        i = i + 1;
        assert(r@ =~= Seq::new(i as nat, |k: int| false));
    }
    r
}

// ── Steps of the navigation keys ────────────────────────────────────

/// `q`: quit.
pub open spec fn quit_step(pre: AppView, post: AppView) -> bool {
    post == (AppView { session: Session { should_quit: true, ..pre.session }, ..pre })
}

/// `a`: the add-friend screen, with a fresh search.
pub open spec fn add_friend_open_step(pre: AppView, post: AppView) -> bool {
    match pre.screen {
        Screen::Chat { info, friends, selected_friend, .. } => post == (AppView {
            screen: Screen::AddFriend { info, friends, selected_friend },
            entry: EntryView { input: Seq::empty(), cursor_pos: 0, ..pre.entry },
            search: SearchView { search_results: Seq::empty(), selected_result: 0, searching: false },
            ..pre
        }),
        _ => post == pre,
    }
}

/// `r`: the friend requests screen, its lists loaded afterwards.
pub open spec fn requests_open_step(pre: AppView, post: AppView) -> bool {
    match pre.screen {
        Screen::Chat { info, friends, selected_friend, .. } => {
            &&& post.screen matches Screen::FriendRequests {
                info: i,
                friends: fr,
                selected_friend: s,
                requests,
                selected_request,
                active_tab,
                blocked,
            }
            &&& i == info && fr == friends && s == selected_friend
            &&& requests@.len() == 0 && selected_request == 0 && active_tab == RequestTab::Incoming
            &&& blocked@.len() == 0
            &&& post == (AppView {
                screen: post.screen,
                effects: pre.effects.push(Effect::LoadFriendRequests),
                ..pre
            })
        },
        _ => post == pre,
    }
}

/// Selection after removing the selected entry of a list that now has `n`
/// entries.
pub open spec fn selection_after_removal(sel: usize, n: nat) -> usize {
    if sel > 0 && sel >= n {
        if n == 0 {
            0
        } else {
            (n - 1) as usize
        }
    } else {
        sel
    }
}

/// `x` (remove) or `b` (block) on the friend list: the selected friend
/// leaves the list and the conversation closes.
pub open spec fn friend_drop_step(pre: AppView, block: bool, post: AppView) -> bool {
    match pre.screen {
        Screen::Chat { info, focus, friends, selected_friend, .. } => if focus == ChatFocus::Sidebar
            && selected_friend < friends@.len() {
            let f = friends@[selected_friend as int];
            let rest = friends@.remove(selected_friend as int);
            &&& post.screen matches Screen::Chat {
                info: i,
                focus: fo,
                friends: fr,
                selected_friend: s,
                active_conversation: ac,
            }
            &&& i == info && fo == focus && fr@ == rest && ac is None
            &&& s == selection_after_removal(selected_friend, rest.len())
            &&& post == (AppView {
                screen: post.screen,
                effects: pre.effects.push(
                    if block {
                        Effect::BlockUser {
                            did: f.did,
                            display_name: Some(f.display_name),
                            username: f.username,
                        }
                    } else {
                        Effect::RemoveFriend { did: f.did }
                    },
                ),
                ..pre
            })
        } else {
            post == pre
        },
        _ => post == pre,
    }
}

/// `g` on the sidebar: switch between direct messages and groups, closing
/// what was open; groups are reloaded when they come into view.
pub open spec fn sidebar_toggle_step(pre: AppView, post: AppView) -> bool {
    if focus_of(pre.screen) == ChatFocus::Sidebar {
        let to_groups = pre.chat.sidebar_mode == SidebarMode::DMs;
        post == (AppView {
            screen: screen_with(pre.screen, ChatFocus::Sidebar, None),
            chat: ChatView {
                sidebar_mode: if to_groups {
                    SidebarMode::Groups
                } else {
                    SidebarMode::DMs
                },
                active_group: None,
                messages: Seq::empty(),
                message_scroll: 0,
                ..pre.chat
            },
            effects: if to_groups {
                pre.effects.push(Effect::ReloadGroups)
            } else {
                pre.effects
            },
            ..pre
        })
    } else {
        post == pre
    }
}

/// `n` on the sidebar: a new community (Communities route) or a new group
/// (groups sidebar).
pub open spec fn new_item_step(pre: AppView, post: AppView) -> bool {
    match pre.screen {
        Screen::Chat { info, focus, friends, selected_friend, .. } => if pre.chat.nav_route
            == NavRoute::Communities && focus == ChatFocus::Sidebar {
            &&& post.screen matches Screen::CreateCommunity {
                info: i,
                community_name,
                community_description,
                field_focus,
            }
            &&& i == info && community_name@.len() == 0 && community_description@.len() == 0
            &&& field_focus == CreateCommunityFocus::Name
            &&& post == (AppView { screen: post.screen, ..pre })
        } else if focus == ChatFocus::Sidebar && pre.chat.sidebar_mode == SidebarMode::Groups {
            &&& post.screen matches Screen::CreateGroup {
                info: i,
                friends: fr,
                selected_friend: s,
                group_name,
                selected_members,
                member_cursor,
                field_focus,
            }
            &&& i == info && fr == friends && s == selected_friend && group_name@.len() == 0
            &&& selected_members@ == Seq::new(friends@.len(), |k: int| false)
            &&& member_cursor == 0 && field_focus == CreateGroupFocus::Name
            &&& post == (AppView { screen: post.screen, ..pre })
        } else {
            post == pre
        },
        _ => post == pre,
    }
}

/// Which panel of the open community a key shows.
#[derive(Clone, Copy, Debug, PartialEq, Eq, Structural)]
pub enum CommunityPanel {
    Members,
    Invites,
    Roles,
}

/// The panel's screen for community `c` named `name`, with an empty list
/// and the first row selected.
pub open spec fn panel_screen(p: CommunityPanel, s: Screen, info: crate::types::DashboardInfo, c: String, name: Seq<char>) -> bool {
    match p {
        CommunityPanel::Members => s matches Screen::CommunityMembers {
            info: i,
            community_id,
            community_name,
            members,
            selected_member,
        } && i == info && community_id == c && community_name@ == name && members@.len() == 0
            && selected_member == 0,
        CommunityPanel::Invites => s matches Screen::CommunityInvites {
            info: i,
            community_id,
            community_name,
            invites,
            selected_invite,
        } && i == info && community_id == c && community_name@ == name && invites@.len() == 0
            && selected_invite == 0,
        CommunityPanel::Roles => s matches Screen::CommunityRoles {
            info: i,
            community_id,
            community_name,
            roles,
            selected_role,
        } && i == info && community_id == c && community_name@ == name && roles@.len() == 0
            && selected_role == 0,
    }
}

/// The load that fills a panel.
pub open spec fn panel_load(p: CommunityPanel, c: String) -> Effect {
    match p {
        CommunityPanel::Members => Effect::LoadCommunityMembers { community_id: c },
        CommunityPanel::Invites => Effect::LoadInvites { community_id: c },
        CommunityPanel::Roles => Effect::LoadCommunityRoles { community_id: c },
    }
}

/// `m`, `I`, `R` with a community open: its members, invites or roles.
pub open spec fn panel_open_step(pre: AppView, p: CommunityPanel, post: AppView) -> bool {
    match (pre.screen, pre.comm.active_community) {
        (Screen::Chat { info, .. }, Some(c)) => if pre.chat.nav_route == NavRoute::Communities {
            &&& panel_screen(p, post.screen, info, c, community_name_of(pre.comm.communities, c@))
            &&& post == (AppView { screen: post.screen, effects: pre.effects.push(panel_load(p, c)), ..pre })
        } else {
            post == pre
        },
        _ => post == pre,
    }
}

/// `j` on the community list: the join-by-invite screen.
pub open spec fn join_open_step(pre: AppView, post: AppView) -> bool {
    match pre.screen {
        Screen::Chat { info, focus, .. } => if pre.chat.nav_route == NavRoute::Communities && focus
            == ChatFocus::Sidebar && pre.comm.active_community is None {
            &&& post.screen matches Screen::JoinCommunity {
                info: i,
                invite_code_input,
                resolved_invite,
                resolving,
            }
            &&& i == info && invite_code_input@.len() == 0 && resolved_invite is None && !resolving
            &&& post == (AppView { screen: post.screen, ..pre })
        } else {
            post == pre
        },
        _ => post == pre,
    }
}

impl App {
    /// Focus of the chat screen.
    pub fn chat_focus(&self) -> (r: ChatFocus)
        ensures
            r == focus_of(self@.screen),
    {
        match &self.screen {
            Screen::Chat { focus, .. } => *focus,
            _ => ChatFocus::TabBar,
        }
    }

    /// Whether a group, a channel or a direct conversation is open.
    pub fn has_active_target(&self) -> (r: bool)
        ensures
            r == has_active(self@),
    {
        if self.chat.active_group.is_some() || self.comm.active_channel.is_some() {
            return true;
        }
        match &self.screen {
            Screen::Chat { active_conversation, .. } => active_conversation.is_some(),
            _ => false,
        }
    }

    /// Set the chat screen's focus and open conversation.
    pub fn set_chat_screen(&mut self, f: ChatFocus, ac: Option<usize>)
        ensures
            final(self)@ == (AppView { screen: screen_with(old(self)@.screen, f, ac), ..old(self)@ }),
    {
        let s = self.take_screen();
        self.screen = match s {
            Screen::Chat { info, friends, selected_friend, .. } => Screen::Chat {
                info,
                focus: f,
                friends,
                selected_friend,
                active_conversation: ac,
            },
            other => other,
        };
    }

    /// Set the chat screen's focus.
    pub fn set_chat_focus(&mut self, f: ChatFocus)
        ensures
            final(self)@ == focused(old(self)@, f),
    {
        let s = self.take_screen();
        self.screen = match s {
            Screen::Chat { info, friends, selected_friend, active_conversation, .. } => Screen::Chat {
                info,
                focus: f,
                friends,
                selected_friend,
                active_conversation,
            },
            other => other,
        };
    }

    pub(crate) fn nav_quit(&mut self)
        ensures
            quit_step(old(self)@, final(self)@),
    {
        self.session.should_quit = true;
    }

    pub(crate) fn nav_add_friend(&mut self)
        ensures
            add_friend_open_step(old(self)@, final(self)@),
    {
        let s = self.take_screen();
        match s {
            Screen::Chat { info, friends, selected_friend, .. } => {
                self.entry.input = Vec::new();
                self.entry.cursor_pos = 0;
                self.search.search_results = Vec::new();
                self.search.selected_result = 0;
                self.search.searching = false;
                self.screen = Screen::AddFriend { info, friends, selected_friend };
            },
            other => {
                self.screen = other;
            },
        }
    }

    pub(crate) fn nav_requests(&mut self)
        ensures
            requests_open_step(old(self)@, final(self)@),
    {
        let s = self.take_screen();
        match s {
            Screen::Chat { info, friends, selected_friend, .. } => {
                self.screen = Screen::FriendRequests {
                    info,
                    friends,
                    selected_friend,
                    requests: Vec::new(),
                    selected_request: 0,
                    active_tab: RequestTab::Incoming,
                    blocked: Vec::new(),
                };
                self.push_effect(Effect::LoadFriendRequests);
            },
            other => {
                self.screen = other;
            },
        }
    }

    pub(crate) fn nav_drop_friend(&mut self, block: bool)
        ensures
            friend_drop_step(old(self)@, block, final(self)@),
    {
        let s = self.take_screen();
        match s {
            Screen::Chat { info, focus, friends, selected_friend, active_conversation } => {
                if focus == ChatFocus::Sidebar && selected_friend < friends.len() {
                    let mut friends = friends;
                    let f = friends.remove(selected_friend);
                    let n = friends.len();
                    let s = if selected_friend > 0 && selected_friend >= n {
                        if n == 0 {
                            0
                        } else {
                            n - 1
                        }
                    } else {
                        selected_friend
                    };
                    self.screen = Screen::Chat {
                        info,
                        focus,
                        friends,
                        selected_friend: s,
                        active_conversation: None,
                    };
                    if block {
                        self.push_effect(
                            Effect::BlockUser {
                                did: f.did,
                                display_name: Some(f.display_name),
                                username: f.username,
                            },
                        );
                    } else {
                        self.push_effect(Effect::RemoveFriend { did: f.did });
                    }
                } else {
                    self.screen = Screen::Chat { info, focus, friends, selected_friend, active_conversation };
                }
            },
            other => {
                self.screen = other;
            },
        }
    }

    pub(crate) fn nav_toggle_sidebar(&mut self)
        ensures
            sidebar_toggle_step(old(self)@, final(self)@),
    {
        if self.chat_focus() != ChatFocus::Sidebar {
            return ;
        }
        let to_groups = self.chat.sidebar_mode == SidebarMode::DMs;
        self.chat.sidebar_mode = if to_groups {
            SidebarMode::Groups
        } else {
            SidebarMode::DMs
        };
        if to_groups {
            self.push_effect(Effect::ReloadGroups);
        }
        self.set_chat_screen(ChatFocus::Sidebar, None);
        self.chat.active_group = None;
        self.chat.messages = Vec::new();
        self.chat.message_scroll = 0;
    }

    pub(crate) fn nav_new_item(&mut self)
        ensures
            new_item_step(old(self)@, final(self)@),
    {
        let communities = self.chat.nav_route == NavRoute::Communities;
        let groups = self.chat.sidebar_mode == SidebarMode::Groups;
        let s = self.take_screen();
        match s {
            Screen::Chat { info, focus, friends, selected_friend, active_conversation } => {
                if communities && focus == ChatFocus::Sidebar {
                    self.screen = Screen::CreateCommunity {
                        info,
                        community_name: Vec::new(),
                        community_description: Vec::new(),
                        field_focus: CreateCommunityFocus::Name,
                    };
                } else if focus == ChatFocus::Sidebar && groups {
                    let marks = all_false(friends.len());
                    self.screen = Screen::CreateGroup {
                        info,
                        friends,
                        selected_friend,
                        group_name: Vec::new(),
                        selected_members: marks,
                        member_cursor: 0,
                        field_focus: CreateGroupFocus::Name,
                    };
                } else {
                    self.screen = Screen::Chat { info, focus, friends, selected_friend, active_conversation };
                }
            },
            other => {
                self.screen = other;
            },
        }
    }

    pub(crate) fn nav_panel(&mut self, p: CommunityPanel)
        ensures
            panel_open_step(old(self)@, p, final(self)@),
    {
        if self.chat.nav_route != NavRoute::Communities {
            return ;
        }
        let c = match &self.comm.active_community {
            Some(c) => c.clone(),
            None => return ,
        };
        let name = community_name_in(&self.comm.communities, c.as_str());
        let s = self.take_screen();
        match s {
            Screen::Chat { info, .. } => {
                match p {
                    CommunityPanel::Members => {
                        self.screen = Screen::CommunityMembers {
                            info,
                            community_id: c.clone(),
                            community_name: name,
                            members: Vec::new(),
                            selected_member: 0,
                        };
                        self.push_effect(Effect::LoadCommunityMembers { community_id: c });
                    },
                    CommunityPanel::Invites => {
                        self.screen = Screen::CommunityInvites {
                            info,
                            community_id: c.clone(),
                            community_name: name,
                            invites: Vec::new(),
                            selected_invite: 0,
                        };
                        self.push_effect(Effect::LoadInvites { community_id: c });
                    },
                    CommunityPanel::Roles => {
                        self.screen = Screen::CommunityRoles {
                            info,
                            community_id: c.clone(),
                            community_name: name,
                            roles: Vec::new(),
                            selected_role: 0,
                        };
                        self.push_effect(Effect::LoadCommunityRoles { community_id: c });
                    },
                }
            },
            other => {
                self.screen = other;
            },
        }
    }

    pub(crate) fn nav_join(&mut self)
        ensures
            join_open_step(old(self)@, final(self)@),
    {
        let ok = self.chat.nav_route == NavRoute::Communities && self.comm.active_community.is_none();
        let s = self.take_screen();
        match s {
            Screen::Chat { info, focus, friends, selected_friend, active_conversation } => {
                if ok && focus == ChatFocus::Sidebar {
                    self.screen = Screen::JoinCommunity {
                        info,
                        invite_code_input: Vec::new(),
                        resolved_invite: None,
                        resolving: false,
                    };
                } else {
                    self.screen = Screen::Chat { info, focus, friends, selected_friend, active_conversation };
                }
            },
            other => {
                self.screen = other;
            },
        }
    }
}

} // verus!
