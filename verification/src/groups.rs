//! The create-group screen.

use vstd::prelude::*;
use crate::app::{App, AppView, ChatView, Session};
use crate::effects::Effect;
use crate::keys::KeyCode;
use crate::onboarding::with_error;
use crate::sending::identity_name;
use crate::text::{decimal, trim, utf8_len};
use crate::types::{ChatFocus, CreateGroupFocus, DashboardInfo, FriendEntry, Screen, SidebarMode};

verus! {

/// Longest group name, in UTF-8 bytes, that can still grow.
pub const GROUP_NAME_MAX: usize = 50;

/// The checked friends among the first `n`, as (DID, display name), in
/// list order.
pub open spec fn chosen(f: Seq<FriendEntry>, marks: Seq<bool>, n: nat) -> Seq<(String, String)>
    decreases n,
{
    if n == 0 {
        seq![]
    } else {
        let rest = chosen(f, marks, (n - 1) as nat);
        let i = n - 1;
        if marks[i] && i < f.len() {
            rest.push((f[i].did, f[i].display_name))
        } else {
            rest
        }
    }
}

/// Some box is checked.
pub open spec fn any_checked(marks: Seq<bool>) -> bool {
    exists|i: int| 0 <= i < marks.len() && #[trigger] marks[i]
}

/// `s` is the create-group screen with these parts.
pub open spec fn group_screen(
    s: Screen,
    info: DashboardInfo,
    friends: Vec<FriendEntry>,
    sf: usize,
    name: Seq<char>,
    marks: Seq<bool>,
    cursor: usize,
    focus: CreateGroupFocus,
) -> bool {
    &&& s matches Screen::CreateGroup {
        info: i,
        friends: f,
        selected_friend: s2,
        group_name,
        selected_members,
        member_cursor,
        field_focus,
    }
    &&& i == info && f == friends && s2 == sf && group_name@ == name && selected_members@ == marks
    &&& member_cursor == cursor && field_focus == focus
}

/// The summary shown after creating a group of `n` invited members.
pub open spec fn created_message(name: Seq<char>, n: nat) -> Seq<char> {
    "Group '"@ + name + "' created with "@ + decimal(n) + " member"@ + if n != 1 {
        "s"@
    } else {
        ""@
    }
}

/// Confirming the new group.
pub open spec fn confirm_group_step(pre: AppView, post: AppView) -> bool {
    match pre.screen {
        Screen::CreateGroup { info, friends, selected_friend, group_name, selected_members, .. } => {
            let name = trim(group_name@);
            if name.len() == 0 {
                with_error(pre, post, "Group name is required"@)
            } else if !any_checked(selected_members@) {
                with_error(pre, post, "Select at least one friend to add"@)
            } else {
                match pre.session.my_did {
                    None => with_error(pre, post, "Identity not loaded"@),
                    Some(me) => {
                        let ch = chosen(friends@, selected_members@, selected_members@.len());
                        if ch.len() == 0 {
                            with_error(pre, post, "Select at least one friend"@)
                        } else {
                            &&& post.effects.len() == pre.effects.len() + 2
                            &&& post.effects.subrange(0, pre.effects.len() as int) == pre.effects
                            &&& post.effects[pre.effects.len() as int] matches Effect::CreateGroup {
                                group_id,
                                name: n,
                                members,
                                ..
                            }
                            &&& group_id@.len() == 36 && n@ == name
                            &&& members@.len() == ch.len() + 1
                            &&& members@[0].0 == me && members@[0].1@ == identity_name(pre)
                            &&& members@.drop_first() == ch
                            &&& post.effects.last() == Effect::ReloadGroups
                            &&& post.session.error_message matches Some(m) && m@ == created_message(name, ch.len())
                            &&& post == (AppView {
                                screen: Screen::Chat {
                                    info,
                                    focus: ChatFocus::Sidebar,
                                    friends,
                                    selected_friend,
                                    active_conversation: None,
                                },
                                chat: ChatView { sidebar_mode: SidebarMode::Groups, ..pre.chat },
                                session: Session { error_message: post.session.error_message, ..pre.session },
                                effects: post.effects,
                                ..pre
                            })
                        }
                    },
                }
            }
        },
        _ => post == pre,
    }
}

/// A key on the create-group screen.
pub open spec fn create_group_step(pre: AppView, code: KeyCode, post: AppView) -> bool {
    match pre.screen {
        Screen::CreateGroup {
            info,
            friends,
            selected_friend: sf,
            group_name,
            selected_members,
            member_cursor: c,
            field_focus,
        } => {
            let n = group_name@;
            let m = selected_members@;
            let on_name = field_focus == CreateGroupFocus::Name;
            let same = post == (AppView { screen: post.screen, ..pre });
            match code {
                KeyCode::Tab => same && group_screen(
                    post.screen,
                    info,
                    friends,
                    sf,
                    n,
                    m,
                    c,
                    if on_name {
                        CreateGroupFocus::Members
                    } else {
                        CreateGroupFocus::Name
                    },
                ),
                KeyCode::Esc => post == (AppView {
                    screen: Screen::Chat {
                        info,
                        focus: ChatFocus::Sidebar,
                        friends,
                        selected_friend: sf,
                        active_conversation: None,
                    },
                    ..pre
                }),
                KeyCode::Enter => if on_name {
                    same && group_screen(post.screen, info, friends, sf, n, m, c, CreateGroupFocus::Members)
                } else {
                    confirm_group_step(pre, post)
                },
                KeyCode::Up => if !on_name && c > 0 {
                    same && group_screen(post.screen, info, friends, sf, n, m, (c - 1) as usize, field_focus)
                } else {
                    post == pre
                },
                KeyCode::Down => if !on_name && c + 1 < friends@.len() {
                    same && group_screen(post.screen, info, friends, sf, n, m, (c + 1) as usize, field_focus)
                } else {
                    post == pre
                },
                KeyCode::Backspace => if on_name && n.len() > 0 {
                    same && group_screen(post.screen, info, friends, sf, n.drop_last(), m, c, field_focus)
                } else {
                    post == pre
                },
                KeyCode::Char(ch) => if !on_name {
                    if ch == ' ' && c < m.len() {
                        same && group_screen(post.screen, info, friends, sf, n, m.update(c as int, !m[c as int]), c, field_focus)
                    } else {
                        post == pre
                    }
                } else if utf8_len(n) < GROUP_NAME_MAX {
                    same && group_screen(post.screen, info, friends, sf, n.push(ch), m, c, field_focus)
                } else {
                    post == pre
                },
                _ => post == pre,
            }
        },
        _ => post == pre,
    }
}

/// The checked friends, as (DID, display name), in list order.
pub fn chosen_members(friends: &Vec<FriendEntry>, marks: &Vec<bool>) -> (r: Vec<(String, String)>)
    ensures
        r@ == chosen(friends@, marks@, marks@.len()),
{
    let mut r: Vec<(String, String)> = Vec::new();
    let mut i: usize = 0;
    while i < marks.len()
        invariant
            i <= marks@.len(),
            r@ == chosen(friends@, marks@, i as nat),
        decreases marks@.len() - i,
    {
        if marks[i] && i < friends.len() {
            r.push((friends[i].did.clone(), friends[i].display_name.clone()));
        }
        i = i + 1;
    }
    r
}

fn any_mark(marks: &Vec<bool>) -> (r: bool)
    ensures
        r == any_checked(marks@),
{
    let mut i: usize = 0;
    while i < marks.len()
        invariant
            i <= marks@.len(),
            forall|j: int| 0 <= j < i ==> !marks@[j],
        decreases marks@.len() - i,
    {
        if marks[i] {
            return true;
        }
        i = i + 1;
    }
    false
}

impl App {
    fn confirm_group(&mut self)
        ensures
            confirm_group_step(old(self)@, final(self)@),
    {
        let (name, has_marks, ch) = match &self.screen {
            Screen::CreateGroup { group_name, selected_members, friends, .. } => {
                let t = crate::text::trim_chars(group_name);
                (t, any_mark(selected_members), chosen_members(friends, selected_members))
            },
            _ => {
                return ;
            },
        };
        if name.len() == 0 {
            self.set_error("Group name is required");
            return ;
        }
        if !has_marks {
            self.set_error("Select at least one friend to add");
            return ;
        }
        let me = match &self.session.my_did {
            Some(d) => d.clone(),
            None => {
                self.set_error("Identity not loaded");
                return ;
            },
        };
        if ch.len() == 0 {
            self.set_error("Select at least one friend");
            return ;
        }
        let my_name = self.identity_display_name();
        let count = ch.len();
        let mut members: Vec<(String, String)> = Vec::new();
        members.push((me, my_name));
        let mut ch = ch;
        let ghost chosen_seq = ch@;
        members.append(&mut ch);
        assert(members@.drop_first() =~= chosen_seq);
        let group_id = crate::ids::random_uuid();
        let ts = crate::ids::unix_secs();
        let group_name = crate::text::string_of(&name);
        let c1 = crate::text::concat3("Group '", group_name.as_str(), "' created with ");
        let digits = crate::text::decimal_string(count);
        let c2 = crate::text::concat3(c1.as_str(), digits.as_str(), " member");
        let tail = if count != 1 {
            "s"
        } else {
            ""
        };
        self.set_error2(c2.as_str(), tail);
        self.push_effect(Effect::CreateGroup { group_id, name: group_name, members, timestamp: ts });
        let ghost e1 = self@.effects;
        self.push_effect(Effect::ReloadGroups);
        proof {
            assert(self@.effects.subrange(0, old(self)@.effects.len() as int) =~= old(self)@.effects) by {
                assert(self@.effects.subrange(0, e1.len() as int) == e1);
            }
        }
        self.chat.sidebar_mode = SidebarMode::Groups;
        let s = self.take_screen();
        self.screen = match s {
            Screen::CreateGroup { info, friends, selected_friend, .. } => Screen::Chat {
                info,
                focus: ChatFocus::Sidebar,
                friends,
                selected_friend,
                active_conversation: None,
            },
            other => other,
        };
    }

    /// Handle a key on the create-group screen.
    pub fn handle_create_group_key(&mut self, code: KeyCode)
        ensures
            create_group_step(old(self)@, code, final(self)@),
    {
        let focus = match &self.screen {
            Screen::CreateGroup { field_focus, .. } => *field_focus,
            _ => {
                return ;
            },
        };
        if code == KeyCode::Enter && focus == CreateGroupFocus::Members {
            self.confirm_group();
            return ;
        }
        let s = self.take_screen();
        let (info, friends, sf, name, marks, c, f) = match s {
            Screen::CreateGroup {
                info,
                friends,
                selected_friend,
                group_name,
                selected_members,
                member_cursor,
                field_focus,
            } => (info, friends, selected_friend, group_name, selected_members, member_cursor, field_focus),
            other => {
                self.screen = other;
                return ;
            },
        };
        let on_name = f == CreateGroupFocus::Name;
        let mut name = name;
        let mut marks = marks;
        let mut c = c;
        let mut f = f;
        match code {
            KeyCode::Tab => {
                f = if on_name {
                    CreateGroupFocus::Members
                } else {
                    CreateGroupFocus::Name
                };
            },
            KeyCode::Esc => {
                self.screen = Screen::Chat {
                    info,
                    focus: ChatFocus::Sidebar,
                    friends,
                    selected_friend: sf,
                    active_conversation: None,
                };
                return ;
            },
            KeyCode::Enter => {
                f = CreateGroupFocus::Members;
            },
            KeyCode::Up => {
                if !on_name && c > 0 {
                    c = c - 1;
                }
            },
            KeyCode::Down => {
                if !on_name && c < friends.len() && c + 1 < friends.len() {
                    c = c + 1;
                }
            },
            KeyCode::Backspace => {
                if on_name && name.len() > 0 {
                    name.pop();
                }
            },
            KeyCode::Char(ch) => {
                if !on_name {
                    if ch == ' ' && c < marks.len() {
                        let v = marks[c];
                        marks.set(c, !v);
                    }
                } else if crate::text::utf8_len_below(&name, GROUP_NAME_MAX) {
                    name.push(ch);
                }
            },
            _ => {},
        }
        self.screen = Screen::CreateGroup {
            info,
            friends,
            selected_friend: sf,
            group_name: name,
            selected_members: marks,
            member_cursor: c,
            field_focus: f,
        };
    }
}

} // verus!
