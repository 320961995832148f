//! Movement keys of the chat screen: Tab, arrows, Enter and Esc, and the
//! leave, select and input keys.

use vstd::prelude::*;
use crate::app::{App, AppView, ChatView, CommView};
use crate::chatnav::{conv_of, focus_of, focused, has_active, screen_with};
use crate::effects::Effect;
use crate::msglist::{group_recipients, recipients_of};
use crate::types::{ChannelTreeItem, ChatFocus, CommunityFocus, NavRoute, Screen, SidebarMode};

verus! {

/// The chat screen with another friend selected.
pub open spec fn screen_selecting(s: Screen, k: usize) -> Screen {
    match s {
        Screen::Chat { info, focus, friends, active_conversation, .. } => Screen::Chat {
            info,
            focus,
            friends,
            selected_friend: k,
            active_conversation,
        },
        _ => s,
    }
}

/// Number of friends listed on the chat screen.
pub open spec fn friend_count(s: Screen) -> nat {
    match s {
        Screen::Chat { friends, .. } => friends@.len(),
        _ => 0,
    }
}

/// Selected friend of the chat screen.
pub open spec fn selected_friend_of(s: Screen) -> usize {
    match s {
        Screen::Chat { selected_friend, .. } => selected_friend,
        _ => 0,
    }
}

/// We left group `gid`: the members are told, the groups reloaded, and the
/// group closed if it was open.
pub open spec fn group_left(pre: AppView, gid: String, post: AppView) -> bool {
    match pre.session.my_did {
        Some(me) => {
            let open = match pre.chat.active_group {
                Some(a) => a@ == gid@,
                None => false,
            };
            &&& post.effects.len() == pre.effects.len() + 2
            &&& post.effects.subrange(0, pre.effects.len() as int) == pre.effects
            &&& post.effects[pre.effects.len() as int] matches Effect::LeaveGroup {
                group_id,
                recipients,
            }
            &&& group_id == gid && recipients@ == group_recipients(pre.chat.groups, gid@, me@)
            &&& post.effects.last() == Effect::ReloadGroups
            &&& if open {
                post == (AppView {
                    chat: ChatView { active_group: None, messages: Seq::empty(), ..pre.chat },
                    effects: post.effects,
                    ..pre
                })
            } else {
                post == (AppView { effects: post.effects, ..pre })
            }
        },
        None => post == pre,
    }
}

/// `l` on the sidebar: leave the selected community or group, and say so.
pub open spec fn leave_step(pre: AppView, post: AppView) -> bool {
    let f = focus_of(pre.screen);
    if pre.chat.nav_route == NavRoute::Communities && f == ChatFocus::Sidebar {
        if pre.comm.active_community is None && pre.comm.selected_community
            < pre.comm.communities.len() {
            let cm = pre.comm.communities[pre.comm.selected_community as int];
            let mid = match pre.session.my_did {
                Some(_) => AppView {
                    effects: pre.effects.push(Effect::LeaveCommunity { community_id: cm.id }).push(
                        Effect::ReloadCommunities,
                    ),
                    ..pre
                },
                None => pre,
            };
            &&& post == mid.with_error_text(post.session.error_message)
            &&& post.session.error_message matches Some(m) && m@ == "Left community '"@ + cm.name@
                + "'"@
        } else {
            post == pre
        }
    } else if f == ChatFocus::Sidebar && pre.chat.sidebar_mode == SidebarMode::Groups {
        if pre.chat.selected_group < pre.chat.groups.len() {
            let gr = pre.chat.groups[pre.chat.selected_group as int];
            &&& group_left(pre, gr.id, post.with_error_text(pre.session.error_message))
            &&& post.session.error_message matches Some(m) && m@ == "Left group '"@ + gr.name@
                + "'"@
        } else {
            post == pre
        }
    } else {
        post == pre
    }
}

/// `e` in the message area: select the last message.
pub open spec fn select_last_step(pre: AppView, post: AppView) -> bool {
    if focus_of(pre.screen) == ChatFocus::MainArea && pre.chat.selected_message is None
        && has_active(pre) && pre.chat.messages.len() > 0 {
        post == (AppView {
            chat: ChatView {
                selected_message: Some((pre.chat.messages.len() - 1) as usize),
                ..pre.chat
            },
            ..pre
        })
    } else {
        post == pre
    }
}

/// `i`, `/` or Enter in the message area: start typing a message.
pub open spec fn start_input_step(pre: AppView, post: AppView) -> bool {
    if focus_of(pre.screen) == ChatFocus::MainArea && has_active(pre) {
        post == (AppView {
            screen: screen_with(pre.screen, ChatFocus::Input, conv_of(pre.screen)),
            chat: ChatView { message_input: Seq::empty(), message_cursor: 0, ..pre.chat },
            ..pre
        })
    } else {
        post == pre
    }
}

/// Focus after Tab.
pub open spec fn next_focus(f: ChatFocus, active: bool) -> ChatFocus {
    match f {
        ChatFocus::TabBar => ChatFocus::Sidebar,
        ChatFocus::Sidebar => ChatFocus::MainArea,
        ChatFocus::MainArea => if active {
            ChatFocus::Input
        } else {
            ChatFocus::TabBar
        },
        ChatFocus::Input => ChatFocus::TabBar,
    }
}

/// Focus after Shift-Tab.
pub open spec fn prev_focus(f: ChatFocus, active: bool) -> ChatFocus {
    match f {
        ChatFocus::TabBar => if active {
            ChatFocus::Input
        } else {
            ChatFocus::MainArea
        },
        ChatFocus::Sidebar => ChatFocus::TabBar,
        ChatFocus::MainArea => ChatFocus::Sidebar,
        ChatFocus::Input => ChatFocus::MainArea,
    }
}

/// Route after Left in the tab bar.
pub open spec fn route_left(r: NavRoute) -> NavRoute {
    match r {
        NavRoute::Home => NavRoute::Home,
        NavRoute::Messages => NavRoute::Home,
        NavRoute::Communities => NavRoute::Messages,
        NavRoute::Settings => NavRoute::Communities,
    }
}

/// Route after Right in the tab bar.
pub open spec fn route_right(r: NavRoute) -> NavRoute {
    match r {
        NavRoute::Home => NavRoute::Messages,
        NavRoute::Messages => NavRoute::Communities,
        NavRoute::Communities => NavRoute::Settings,
        NavRoute::Settings => NavRoute::Settings,
    }
}

/// Left or Right in the tab bar: the neighbouring route.
pub open spec fn route_step(pre: AppView, right: bool, post: AppView) -> bool {
    if focus_of(pre.screen) == ChatFocus::TabBar {
        post == (AppView {
            chat: ChatView {
                nav_route: if right {
                    route_right(pre.chat.nav_route)
                } else {
                    route_left(pre.chat.nav_route)
                },
                ..pre.chat
            },
            ..pre
        })
    } else {
        post == pre
    }
}

/// Up: move up the list in view, or scroll back one message.
pub open spec fn up_step(pre: AppView, post: AppView) -> bool {
    match focus_of(pre.screen) {
        ChatFocus::Sidebar => if pre.chat.nav_route == NavRoute::Communities {
            if pre.comm.active_community is Some {
                post == (AppView {
                    comm: CommView {
                        selected_channel_item: if pre.comm.selected_channel_item > 0 {
                            (pre.comm.selected_channel_item - 1) as usize
                        } else {
                            0
                        },
                        ..pre.comm
                    },
                    ..pre
                })
            } else {
                post == (AppView {
                    comm: CommView {
                        selected_community: if pre.comm.selected_community > 0 {
                            (pre.comm.selected_community - 1) as usize
                        } else {
                            0
                        },
                        ..pre.comm
                    },
                    ..pre
                })
            }
        } else if pre.chat.sidebar_mode == SidebarMode::Groups {
            post == (AppView {
                chat: ChatView {
                    selected_group: if pre.chat.selected_group > 0 {
                        (pre.chat.selected_group - 1) as usize
                    } else {
                        0
                    },
                    ..pre.chat
                },
                ..pre
            })
        } else {
            let k = selected_friend_of(pre.screen);
            if friend_count(pre.screen) > 0 && k > 0 {
                post == (AppView { screen: screen_selecting(pre.screen, (k - 1) as usize), ..pre })
            } else {
                post == pre
            }
        },
        ChatFocus::MainArea => if pre.chat.messages.len() > 0 {
            let top = pre.chat.messages.len() - 1;
            post == (AppView {
                chat: ChatView {
                    message_scroll: if pre.chat.message_scroll + 1 < top {
                        (pre.chat.message_scroll + 1) as usize
                    } else {
                        top as usize
                    },
                    ..pre.chat
                },
                ..pre
            })
        } else {
            post == pre
        },
        _ => post == pre,
    }
}

/// Down: move down the list in view, or scroll forward one message.
pub open spec fn down_step(pre: AppView, post: AppView) -> bool {
    match focus_of(pre.screen) {
        ChatFocus::Sidebar => if pre.chat.nav_route == NavRoute::Communities {
            if pre.comm.active_community is Some {
                post == (AppView {
                    comm: CommView {
                        selected_channel_item: if pre.comm.selected_channel_item + 1
                            < pre.comm.channel_tree.len() {
                            (pre.comm.selected_channel_item + 1) as usize
                        } else {
                            pre.comm.selected_channel_item
                        },
                        ..pre.comm
                    },
                    ..pre
                })
            } else {
                post == (AppView {
                    comm: CommView {
                        selected_community: if pre.comm.selected_community + 1
                            < pre.comm.communities.len() {
                            (pre.comm.selected_community + 1) as usize
                        } else {
                            pre.comm.selected_community
                        },
                        ..pre.comm
                    },
                    ..pre
                })
            }
        } else if pre.chat.sidebar_mode == SidebarMode::Groups {
            post == (AppView {
                chat: ChatView {
                    selected_group: if pre.chat.selected_group + 1 < pre.chat.groups.len() {
                        (pre.chat.selected_group + 1) as usize
                    } else {
                        pre.chat.selected_group
                    },
                    ..pre.chat
                },
                ..pre
            })
        } else {
            let k = selected_friend_of(pre.screen);
            if k + 1 < friend_count(pre.screen) {
                post == (AppView { screen: screen_selecting(pre.screen, (k + 1) as usize), ..pre })
            } else {
                post == pre
            }
        },
        ChatFocus::MainArea => post == (AppView {
            chat: ChatView {
                message_scroll: if pre.chat.message_scroll > 0 {
                    (pre.chat.message_scroll - 1) as usize
                } else {
                    0
                },
                ..pre.chat
            },
            ..pre
        }),
        _ => post == pre,
    }
}

/// Enter on the channel tree: open the selected text channel.
pub open spec fn channel_pick_step(pre: AppView, post: AppView) -> bool {
    let i = pre.comm.selected_channel_item;
    if i < pre.comm.channel_tree.len() {
        match pre.comm.channel_tree[i as int] {
            ChannelTreeItem::Channel { id, name, channel_type } => if channel_type@ == "text"@ {
                post == (AppView {
                    screen: screen_with(pre.screen, ChatFocus::MainArea, conv_of(pre.screen)),
                    comm: CommView {
                        active_channel: Some(id),
                        active_channel_name: Some(name),
                        ..pre.comm
                    },
                    effects: pre.effects.push(Effect::LoadChannelMessages { channel_id: id }),
                    ..pre
                })
            } else {
                post == pre
            },
            _ => post == pre,
        }
    } else {
        post == pre
    }
}

/// Enter on the community list: open the selected community; its channel
/// tree is loaded afterwards.
pub open spec fn community_open_step(pre: AppView, post: AppView) -> bool {
    let i = pre.comm.selected_community;
    if i < pre.comm.communities.len() {
        let id = pre.comm.communities[i as int].id;
        post == (AppView {
            comm: CommView {
                active_community: Some(id),
                community_focus: CommunityFocus::ChannelTree,
                active_channel: None,
                active_channel_name: None,
                ..pre.comm
            },
            effects: pre.effects.push(Effect::LoadCommunityStructure { community_id: id }),
            ..pre
        })
    } else {
        post == pre
    }
}

/// Enter on the group list: open the selected group; its messages are
/// loaded afterwards.
pub open spec fn group_open_step(pre: AppView, post: AppView) -> bool {
    let i = pre.chat.selected_group;
    if i < pre.chat.groups.len() {
        let id = pre.chat.groups[i as int].id;
        post == (AppView {
            screen: screen_with(pre.screen, ChatFocus::MainArea, None),
            chat: ChatView {
                active_group: Some(id),
                selected_message: None,
                message_action_mode: None,
                messages: Seq::empty(),
                message_scroll: 0,
                ..pre.chat
            },
            effects: pre.effects.push(Effect::LoadGroupMessages { group_id: id }),
            ..pre
        })
    } else {
        post == pre
    }
}

/// Enter on the friend list: open the conversation with the selected
/// friend; its messages are loaded afterwards (when our identity is loaded).
pub open spec fn conversation_open_step(pre: AppView, post: AppView) -> bool {
    match pre.screen {
        Screen::Chat { friends, selected_friend, .. } => if selected_friend < friends@.len() {
            let base = AppView {
                screen: screen_with(pre.screen, ChatFocus::MainArea, Some(selected_friend)),
                chat: ChatView {
                    active_group: None,
                    selected_message: None,
                    message_action_mode: None,
                    ..pre.chat
                },
                ..pre
            };
            match pre.session.my_did {
                Some(_) => post == (AppView {
                    chat: ChatView { messages: Seq::empty(), message_scroll: 0, ..base.chat },
                    effects: pre.effects.push(
                        Effect::OpenConversation { friend_did: friends@[selected_friend as int].did },
                    ),
                    ..base
                }),
                None => post == base,
            }
        } else {
            post == pre
        },
        _ => post == pre,
    }
}

/// Enter: go down from the tab bar, open what the sidebar selects, or
/// start typing.
pub open spec fn enter_step(pre: AppView, post: AppView) -> bool {
    match focus_of(pre.screen) {
        ChatFocus::TabBar => post == (AppView {
            screen: screen_with(pre.screen, ChatFocus::Sidebar, conv_of(pre.screen)),
            effects: if pre.chat.nav_route == NavRoute::Communities {
                pre.effects.push(Effect::ReloadCommunities)
            } else {
                pre.effects
            },
            ..pre
        }),
        ChatFocus::Sidebar => if pre.chat.nav_route == NavRoute::Communities {
            if pre.comm.active_community is Some {
                channel_pick_step(pre, post)
            } else {
                community_open_step(pre, post)
            }
        } else if pre.chat.sidebar_mode == SidebarMode::Groups {
            group_open_step(pre, post)
        } else {
            conversation_open_step(pre, post)
        },
        ChatFocus::MainArea => start_input_step(pre, post),
        ChatFocus::Input => post == pre,
    }
}

/// Esc: close what is open, or go up one level.
pub open spec fn esc_step(pre: AppView, post: AppView) -> bool {
    match focus_of(pre.screen) {
        ChatFocus::MainArea => if pre.chat.nav_route == NavRoute::Communities {
            post == (AppView {
                screen: screen_with(pre.screen, ChatFocus::Sidebar, conv_of(pre.screen)),
                comm: CommView { active_channel: None, active_channel_name: None, ..pre.comm },
                chat: ChatView { messages: Seq::empty(), message_scroll: 0, ..pre.chat },
                ..pre
            })
        } else {
            post == (AppView {
                screen: screen_with(pre.screen, ChatFocus::Sidebar, None),
                chat: ChatView {
                    active_group: None,
                    messages: Seq::empty(),
                    message_scroll: 0,
                    ..pre.chat
                },
                ..pre
            })
        },
        ChatFocus::Sidebar => if pre.chat.nav_route == NavRoute::Communities
            && pre.comm.active_community is Some {
            post == (AppView {
                comm: CommView {
                    active_community: None,
                    active_channel: None,
                    active_channel_name: None,
                    channel_tree: Seq::empty(),
                    community_spaces: Seq::empty(),
                    ..pre.comm
                },
                chat: ChatView { messages: Seq::empty(), message_scroll: 0, ..pre.chat },
                ..pre
            })
        } else {
            post == focused(pre, ChatFocus::TabBar)
        },
        _ => post == pre,
    }
}

impl App {
    /// Leave group `gid`: tell its other members, reload the groups, and
    /// close it if it is open.
    pub fn leave_group(&mut self, gid: String)
        ensures
            group_left(old(self)@, gid, final(self)@),
    {
        let me = match &self.session.my_did {
            Some(d) => d.clone(),
            None => return ,
        };
        let recipients = recipients_of(&self.chat.groups, gid.as_str(), me.as_str());
        let open = match &self.chat.active_group {
            Some(a) => crate::text::str_eq(a.as_str(), gid.as_str()),
            None => false,
        };
        if open {
            self.chat.active_group = None;
            self.chat.messages = Vec::new();
            assert(self@.chat.messages =~= Seq::<crate::types::DisplayMessage>::empty());
        }
        let ghost before = self@.effects;
        self.push_effect(Effect::LeaveGroup { group_id: gid, recipients });
        let ghost middle = self@.effects;
        self.push_effect(Effect::ReloadGroups);
        assert(self@.effects.subrange(0, before.len() as int) =~= before) by {
            assert(self@.effects.subrange(0, middle.len() as int) == middle);
            assert(middle.subrange(0, before.len() as int) == before);
        }
        assert(self@.effects[before.len() as int] == middle.last());
    }

    pub(crate) fn nav_leave(&mut self)
        ensures
            leave_step(old(self)@, final(self)@),
    {
        let f = self.chat_focus();
        if self.chat.nav_route == NavRoute::Communities && f == ChatFocus::Sidebar {
            if self.comm.active_community.is_none() && self.comm.selected_community
                < self.comm.communities.len() {
                let i = self.comm.selected_community;
                let id = self.comm.communities[i].id.clone();
                let name = self.comm.communities[i].name.clone();
                if self.session.my_did.is_some() {
                    self.push_effect(Effect::LeaveCommunity { community_id: id });
                    self.push_effect(Effect::ReloadCommunities);
                }
                self.set_error3("Left community '", name.as_str(), "'");
            }
        } else if f == ChatFocus::Sidebar && self.chat.sidebar_mode == SidebarMode::Groups {
            if self.chat.selected_group < self.chat.groups.len() {
                let i = self.chat.selected_group;
                let id = self.chat.groups[i].id.clone();
                let name = self.chat.groups[i].name.clone();
                self.leave_group(id);
                self.set_error3("Left group '", name.as_str(), "'");
            }
        }
    }

    pub(crate) fn nav_select_last(&mut self)
        ensures
            select_last_step(old(self)@, final(self)@),
    {
        if self.chat_focus() == ChatFocus::MainArea && self.chat.selected_message.is_none()
            && self.has_active_target() && self.chat.messages.len() > 0 {
            self.chat.selected_message = Some(self.chat.messages.len() - 1);
        }
    }

    pub(crate) fn nav_start_input(&mut self)
        ensures
            start_input_step(old(self)@, final(self)@),
    {
        if self.chat_focus() == ChatFocus::MainArea && self.has_active_target() {
            self.set_chat_focus(ChatFocus::Input);
            self.chat.message_input = Vec::new();
            self.chat.message_cursor = 0;
        }
    }

    pub(crate) fn nav_tab(&mut self, back: bool)
        ensures
            final(self)@ == focused(
                old(self)@,
                if back {
                    prev_focus(focus_of(old(self)@.screen), has_active(old(self)@))
                } else {
                    next_focus(focus_of(old(self)@.screen), has_active(old(self)@))
                },
            ),
    {
        let active = self.has_active_target();
        let f = self.chat_focus();
        let nf = if back {
            match f {
                ChatFocus::TabBar => if active {
                    ChatFocus::Input
                } else {
                    ChatFocus::MainArea
                },
                ChatFocus::Sidebar => ChatFocus::TabBar,
                ChatFocus::MainArea => ChatFocus::Sidebar,
                ChatFocus::Input => ChatFocus::MainArea,
            }
        } else {
            match f {
                ChatFocus::TabBar => ChatFocus::Sidebar,
                ChatFocus::Sidebar => ChatFocus::MainArea,
                ChatFocus::MainArea => if active {
                    ChatFocus::Input
                } else {
                    ChatFocus::TabBar
                },
                ChatFocus::Input => ChatFocus::TabBar,
            }
        };
        self.set_chat_focus(nf);
    }

    pub(crate) fn nav_route(&mut self, right: bool)
        ensures
            route_step(old(self)@, right, final(self)@),
    {
        if self.chat_focus() == ChatFocus::TabBar {
            self.chat.nav_route = if right {
                match self.chat.nav_route {
                    NavRoute::Home => NavRoute::Messages,
                    NavRoute::Messages => NavRoute::Communities,
                    NavRoute::Communities => NavRoute::Settings,
                    NavRoute::Settings => NavRoute::Settings,
                }
            } else {
                match self.chat.nav_route {
                    NavRoute::Home => NavRoute::Home,
                    NavRoute::Messages => NavRoute::Home,
                    NavRoute::Communities => NavRoute::Messages,
                    NavRoute::Settings => NavRoute::Communities,
                }
            };
        }
    }

    /// Select friend `k` of the chat screen's list.
    fn select_friend(&mut self, k: usize)
        ensures
            final(self)@ == (AppView { screen: screen_selecting(old(self)@.screen, k), ..old(self)@ }),
    {
        let s = self.take_screen();
        self.screen = match s {
            Screen::Chat { info, focus, friends, active_conversation, .. } => Screen::Chat {
                info,
                focus,
                friends,
                selected_friend: k,
                active_conversation,
            },
            other => other,
        };
    }

    /// Number of friends and the selected one, on the chat screen.
    fn friend_position(&self) -> (r: (usize, usize))
        ensures
            r.0 == friend_count(self@.screen),
            r.1 == selected_friend_of(self@.screen),
    {
        match &self.screen {
            Screen::Chat { friends, selected_friend, .. } => (friends.len(), *selected_friend),
            _ => (0, 0),
        }
    }

    pub(crate) fn nav_up(&mut self)
        ensures
            up_step(old(self)@, final(self)@),
    {
        match self.chat_focus() {
            ChatFocus::Sidebar => {
                if self.chat.nav_route == NavRoute::Communities {
                    if self.comm.active_community.is_some() {
                        if self.comm.selected_channel_item > 0 {
                            self.comm.selected_channel_item = self.comm.selected_channel_item - 1;
                        }
                    } else if self.comm.selected_community > 0 {
                        self.comm.selected_community = self.comm.selected_community - 1;
                    }
                } else if self.chat.sidebar_mode == SidebarMode::Groups {
                    if self.chat.selected_group > 0 {
                        self.chat.selected_group = self.chat.selected_group - 1;
                    }
                } else {
                    let (n, k) = self.friend_position();
                    if n > 0 && k > 0 {
                        self.select_friend(k - 1);
                    }
                }
            },
            ChatFocus::MainArea => {
                let n = self.chat.messages.len();
                if n > 0 {
                    let top = n - 1;
                    let s = self.chat.message_scroll;
                    self.chat.message_scroll = if s < top && s + 1 < top {
                        s + 1
                    } else {
                        top
                    };
                }
            },
            _ => {},
        }
    }

    pub(crate) fn nav_down(&mut self)
        ensures
            down_step(old(self)@, final(self)@),
    {
        match self.chat_focus() {
            ChatFocus::Sidebar => {
                if self.chat.nav_route == NavRoute::Communities {
                    if self.comm.active_community.is_some() {
                        if self.comm.selected_channel_item < self.comm.channel_tree.len()
                            && self.comm.selected_channel_item + 1 < self.comm.channel_tree.len() {
                            self.comm.selected_channel_item = self.comm.selected_channel_item + 1;
                        }
                    } else if self.comm.selected_community < self.comm.communities.len()
                        && self.comm.selected_community + 1 < self.comm.communities.len() {
                        self.comm.selected_community = self.comm.selected_community + 1;
                    }
                } else if self.chat.sidebar_mode == SidebarMode::Groups {
                    if self.chat.selected_group < self.chat.groups.len() && self.chat.selected_group
                        + 1 < self.chat.groups.len() {
                        self.chat.selected_group = self.chat.selected_group + 1;
                    }
                } else {
                    let (n, k) = self.friend_position();
                    if k < n && k + 1 < n {
                        self.select_friend(k + 1);
                    }
                }
            },
            ChatFocus::MainArea => {
                if self.chat.message_scroll > 0 {
                    self.chat.message_scroll = self.chat.message_scroll - 1;
                }
            },
            _ => {},
        }
    }

    fn pick_channel(&mut self)
        ensures
            channel_pick_step(old(self)@, final(self)@),
    {
        let i = self.comm.selected_channel_item;
        if i >= self.comm.channel_tree.len() {
            return ;
        }
        let picked = match &self.comm.channel_tree[i] {
            ChannelTreeItem::Channel { id, name, channel_type } => {
                if crate::text::str_eq(channel_type.as_str(), "text") {
                    Some((id.clone(), name.clone()))
                } else {
                    None
                }
            },
            _ => None,
        };
        if let Some((id, name)) = picked {
            self.comm.active_channel = Some(id.clone());
            self.comm.active_channel_name = Some(name);
            self.push_effect(Effect::LoadChannelMessages { channel_id: id });
            self.set_chat_focus(ChatFocus::MainArea);
        }
    }

    /// Open community `i` of the list; its channel tree is loaded afterwards.
    pub fn open_community(&mut self, i: usize)
        ensures
            community_open_step(
                AppView { comm: CommView { selected_community: i, ..old(self)@.comm }, ..old(self)@ },
                AppView { comm: CommView { selected_community: i, ..final(self)@.comm }, ..final(self)@ },
            ),
            final(self)@.comm.selected_community == old(self)@.comm.selected_community,
    {
        if i >= self.comm.communities.len() {
            return ;
        }
        let id = self.comm.communities[i].id.clone();
        self.comm.active_community = Some(id.clone());
        self.comm.community_focus = CommunityFocus::ChannelTree;
        self.comm.active_channel = None;
        self.comm.active_channel_name = None;
        self.push_effect(Effect::LoadCommunityStructure { community_id: id });
    }

    fn open_group(&mut self)
        ensures
            group_open_step(old(self)@, final(self)@),
    {
        let i = self.chat.selected_group;
        if i >= self.chat.groups.len() {
            return ;
        }
        let id = self.chat.groups[i].id.clone();
        self.chat.active_group = Some(id.clone());
        self.set_chat_screen(ChatFocus::MainArea, None);
        self.chat.selected_message = None;
        self.chat.message_action_mode = None;
        self.chat.messages = Vec::new();
        self.chat.message_scroll = 0;
        self.push_effect(Effect::LoadGroupMessages { group_id: id });
    }

    fn open_conversation(&mut self)
        ensures
            conversation_open_step(old(self)@, final(self)@),
    {
        let (n, k) = self.friend_position();
        if k >= n {
            return ;
        }
        let did = match &self.screen {
            Screen::Chat { friends, selected_friend, .. } => friends[*selected_friend].did.clone(),
            _ => {
                return ;
            },
        };
        self.set_chat_screen(ChatFocus::MainArea, Some(k));
        self.chat.active_group = None;
        self.chat.selected_message = None;
        self.chat.message_action_mode = None;
        if self.session.my_did.is_some() {
            self.chat.messages = Vec::new();
            self.chat.message_scroll = 0;
            self.push_effect(Effect::OpenConversation { friend_did: did });
        }
    }

    pub(crate) fn nav_enter(&mut self)
        ensures
            enter_step(old(self)@, final(self)@),
    {
        match self.chat_focus() {
            ChatFocus::TabBar => {
                self.set_chat_focus(ChatFocus::Sidebar);
                if self.chat.nav_route == NavRoute::Communities {
                    self.push_effect(Effect::ReloadCommunities);
                }
            },
            ChatFocus::Sidebar => {
                if self.chat.nav_route == NavRoute::Communities {
                    if self.comm.active_community.is_some() {
                        self.pick_channel();
                    } else {
                        let i = self.comm.selected_community;
                        self.open_community(i);
                    }
                } else if self.chat.sidebar_mode == SidebarMode::Groups {
                    self.open_group();
                } else {
                    self.open_conversation();
                }
            },
            ChatFocus::MainArea => self.nav_start_input(),
            ChatFocus::Input => {},
        }
    }

    pub(crate) fn nav_esc(&mut self)
        ensures
            esc_step(old(self)@, final(self)@),
    {
        match self.chat_focus() {
            ChatFocus::MainArea => {
                if self.chat.nav_route == NavRoute::Communities {
                    self.set_chat_focus(ChatFocus::Sidebar);
                    self.comm.active_channel = None;
                    self.comm.active_channel_name = None;
                } else {
                    self.set_chat_screen(ChatFocus::Sidebar, None);
                    self.chat.active_group = None;
                }
                self.chat.messages = Vec::new();
                self.chat.message_scroll = 0;
            },
            ChatFocus::Sidebar => {
                if self.chat.nav_route == NavRoute::Communities && self.comm.active_community.is_some() {
                    self.comm.active_community = None;
                    self.comm.active_channel = None;
                    self.comm.active_channel_name = None;
                    self.comm.channel_tree = Vec::new();
                    self.comm.community_spaces = Vec::new();
                    self.chat.messages = Vec::new();
                    self.chat.message_scroll = 0;
                } else {
                    self.set_chat_focus(ChatFocus::TabBar);
                }
            },
            _ => {},
        }
    }
}

} // verus!
