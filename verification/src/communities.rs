//! Community screens: creating a community, its members, roles and
//! invites, acting on a member, and joining by invite code.

use vstd::prelude::*;
use crate::app::{App, AppView, Session};
use crate::chatnav::{community_name_in, community_name_of, first_community};
use crate::effects::{CommunityLayout, Effect};
use crate::ids::{base36_digits, invite_seed, uuid_text};
use crate::keys::KeyCode;
use crate::onboarding::with_error;
use crate::store::{
    StoredCategory, StoredChannel, StoredCommunity, StoredCommunityMember, StoredCommunityRole,
    StoredSpace,
};
use crate::text::{trim, utf8_len};
use crate::types::{
    ChatFocus, CommunityEntry, CommunityMemberEntry, CreateCommunityFocus, DashboardInfo,
    MemberActionItem, ResolvedInvite, Screen,
};

verus! {

/// Longest community name, in UTF-8 bytes, that can still grow.
pub const COMMUNITY_NAME_MAX: usize = 48;

/// Longest community description, in UTF-8 bytes, that can still grow.
pub const COMMUNITY_DESCRIPTION_MAX: usize = 200;

/// Longest invite code, in UTF-8 bytes, that can still grow.
pub const INVITE_CODE_MAX: usize = 32;

/// Permissions of the default member role: view channels (bit 0), send
/// messages (bit 11), add reactions (bit 14), read message history (bit 18).
pub const MEMBER_PERMISSIONS: i64 = 280577;

/// The member role's permissions are exactly the four bits it names.
pub proof fn member_permissions_are_the_four_bits()
    ensures
        MEMBER_PERMISSIONS == (1i64 << 0u64) | (1i64 << 11u64) | (1i64 << 14u64) | (1i64 << 18u64),
{
    assert(280577i64 == (1i64 << 0u64) | (1i64 << 11u64) | (1i64 << 14u64) | (1i64 << 18u64))
        by (bit_vector);
}

// ── Identifiers and the default layout ──────────────────────────────

/// `id` is `prefix` followed by a fresh clock-made id.
pub open spec fn minted(id: Seq<char>, prefix: Seq<char>) -> bool {
    exists|t: u128| id == prefix + #[trigger] uuid_text(t)
}

/// A fresh id with the given prefix.
pub fn mint(prefix: &str) -> (r: String)
    ensures
        minted(r@, prefix@),
{
    let u = crate::ids::uuid_v4();
    crate::text::concat2(prefix, u.as_str())
}

/// A default text channel of the layout.
pub open spec fn default_channel(ch: StoredChannel, l: CommunityLayout, name: Seq<char>, pos: i32) -> bool {
    &&& minted(ch.id@, "ch_"@)
    &&& ch.category_id == l.category.id && ch.community_id == l.community.id
    &&& ch.name@ == name && ch.channel_type@ == "text"@ && ch.position == pos
}

/// A default role of the layout.
pub open spec fn default_role(r: StoredCommunityRole, l: CommunityLayout, name: Seq<char>, perms: i64, pos: i32) -> bool {
    &&& minted(r.id@, "role_"@)
    &&& r.community_id == l.community.id && r.name@ == name && r.permissions == perms
    &&& r.position == pos
}

/// The layout of a new community named `name` with description `desc`,
/// created by `me` (shown as `my_name`) at `now`: one space "General" with
/// one category "Text Channels" holding the text channels "welcome" and
/// "general", the creator as member, and the roles "Owner" (all
/// permissions, cyan, given to the creator) and "Member".
pub open spec fn default_layout(
    l: CommunityLayout,
    name: Seq<char>,
    desc: Seq<char>,
    me: String,
    my_name: Seq<char>,
    now: i64,
) -> bool {
    let c = l.community;
    &&& minted(c.id@, "community_"@) && c.name@ == name && c.created_by == me && c.created_at == now
    &&& if trim(desc).len() == 0 {
        c.description is None
    } else {
        c.description matches Some(d) && d@ == trim(desc)
    }
    &&& minted(l.space.id@, "space_"@) && l.space.community_id == c.id
    &&& l.space.name@ == "General"@ && l.space.position == 0
    &&& minted(l.category.id@, "cat_"@) && l.category.space_id == l.space.id
    &&& l.category.name@ == "Text Channels"@ && l.category.position == 0
    &&& l.channels@.len() == 2
    &&& default_channel(l.channels@[0], l, "welcome"@, 0)
    &&& default_channel(l.channels@[1], l, "general"@, 1)
    &&& l.creator.community_id == c.id && l.creator.did == me && l.creator.joined_at == now
    &&& l.creator.display_name matches Some(n) && n@ == my_name
    &&& l.roles@.len() == 2
    &&& default_role(l.roles@[0], l, "Owner"@, i64::MAX, 0)
    &&& l.roles@[0].color matches Some(k) && k@ == "Cyan"@
    &&& default_role(l.roles@[1], l, "Member"@, MEMBER_PERMISSIONS, 1)
    &&& l.roles@[1].color is None
    &&& l.owner_role_id == l.roles@[0].id
}

fn channel(id: String, category_id: String, community_id: String, name: &str, position: i32) -> (r: StoredChannel)
    ensures
        r.id == id && r.category_id == category_id && r.community_id == community_id,
        r.name@ == name@ && r.channel_type@ == "text"@ && r.position == position,
{
    StoredChannel {
        id,
        category_id,
        community_id,
        name: name.to_owned(),
        channel_type: "text".to_owned(),
        position,
    }
}

/// The default layout of a new community.
pub fn new_layout(name: String, desc: &Vec<char>, me: String, my_name: String, now: i64) -> (l: CommunityLayout)
    ensures
        default_layout(l, name@, desc@, me, my_name@, now),
{
    let community_id = mint("community_");
    let space_id = mint("space_");
    let category_id = mint("cat_");
    let welcome_id = mint("ch_");
    let general_id = mint("ch_");
    let owner_id = mint("role_");
    let member_id = mint("role_");
    let d = crate::text::trim_chars(desc);
    let description = if d.len() == 0 {
        None
    } else {
        Some(crate::text::string_of(&d))
    };
    let mut channels: Vec<StoredChannel> = Vec::new();
    channels.push(channel(welcome_id, category_id.clone(), community_id.clone(), "welcome", 0));
    channels.push(channel(general_id, category_id.clone(), community_id.clone(), "general", 1));
    let mut roles: Vec<StoredCommunityRole> = Vec::new();
    roles.push(
        StoredCommunityRole {
            id: owner_id.clone(),
            community_id: community_id.clone(),
            name: "Owner".to_owned(),
            permissions: i64::MAX,
            position: 0,
            color: Some("Cyan".to_owned()),
        },
    );
    roles.push(
        StoredCommunityRole {
            id: member_id,
            community_id: community_id.clone(),
            name: "Member".to_owned(),
            permissions: MEMBER_PERMISSIONS,
            position: 1,
            color: None,
        },
    );
    CommunityLayout {
        community: StoredCommunity {
            id: community_id.clone(),
            name,
            description,
            created_by: me.clone(),
            created_at: now,
        },
        space: StoredSpace {
            id: space_id.clone(),
            community_id: community_id.clone(),
            name: "General".to_owned(),
            position: 0,
        },
        category: StoredCategory { id: category_id, space_id, name: "Text Channels".to_owned(), position: 0 },
        channels,
        creator: StoredCommunityMember {
            community_id,
            did: me,
            display_name: Some(my_name),
            joined_at: now,
        },
        roles,
        owner_role_id: owner_id,
    }
}

// ── Leaving the community screens ───────────────────────────────────

/// `s` is the chat screen with the sidebar focused, the friend list still
/// to be loaded, and nothing open.
pub open spec fn fresh_chat(s: Screen, info: DashboardInfo) -> bool {
    &&& s matches Screen::Chat { info: i, focus, friends, selected_friend, active_conversation }
    &&& i == info && focus == ChatFocus::Sidebar && friends@.len() == 0 && selected_friend == 0
    &&& active_conversation is None
}

/// Back to the chat screen, whose friends are loaded afterwards.
pub open spec fn returned_to_chat(pre: AppView, info: DashboardInfo, post: AppView) -> bool {
    &&& fresh_chat(post.screen, info)
    &&& post == (AppView {
        screen: post.screen,
        effects: pre.effects.push(Effect::LoadFriends),
        ..pre
    })
}

/// The dashboard of a community screen.
pub open spec fn info_of(s: Screen) -> DashboardInfo
    recommends
        s is CreateCommunity || s is CommunityMembers || s is CommunityRoles || s is MemberActions
            || s is CommunityInvites || s is JoinCommunity,
{
    match s {
        Screen::CreateCommunity { info, .. } => info,
        Screen::CommunityMembers { info, .. } => info,
        Screen::CommunityRoles { info, .. } => info,
        Screen::MemberActions { info, .. } => info,
        Screen::CommunityInvites { info, .. } => info,
        Screen::JoinCommunity { info, .. } => info,
        Screen::Chat { info, .. } => info,
        Screen::AddFriend { info, .. } => info,
        Screen::FriendRequests { info, .. } => info,
        Screen::CreateGroup { info, .. } => info,
        _ => arbitrary(),
    }
}

/// One of the community screens.
pub open spec fn on_community_screen(s: Screen) -> bool {
    s is CreateCommunity || s is CommunityMembers || s is CommunityRoles || s is MemberActions
        || s is CommunityInvites || s is JoinCommunity
}

// ── Create community ────────────────────────────────────────────────

/// `s` is the create-community screen with these parts.
pub open spec fn create_screen(s: Screen, info: DashboardInfo, name: Seq<char>, desc: Seq<char>, f: CreateCommunityFocus) -> bool {
    &&& s matches Screen::CreateCommunity { info: i, community_name, community_description, field_focus }
    &&& i == info && community_name@ == name && community_description@ == desc && field_focus == f
}

/// The community `name` with description `desc` was created (when our
/// identity is loaded) and we are back on the chat screen.
pub open spec fn community_created(pre: AppView, info: DashboardInfo, name: Seq<char>, desc: Seq<char>, post: AppView) -> bool {
    &&& fresh_chat(post.screen, info)
    &&& post == (AppView { screen: post.screen, effects: post.effects, ..pre })
    &&& post.effects.last() == Effect::LoadFriends
    &&& match pre.session.my_did {
        Some(me) => {
            &&& post.effects.len() == pre.effects.len() + 3
            &&& post.effects.subrange(0, pre.effects.len() as int) == pre.effects
            &&& post.effects[pre.effects.len() as int] matches Effect::CreateCommunity { layout }
            &&& default_layout(layout, name, desc, me, info.display_name@, layout.community.created_at)
            &&& post.effects[pre.effects.len() as int + 1] == Effect::ReloadCommunities
        },
        None => post.effects == pre.effects.push(Effect::LoadFriends),
    }
}

/// A key on the create-community screen.
pub open spec fn create_community_step(pre: AppView, code: KeyCode, post: AppView) -> bool {
    match pre.screen {
        Screen::CreateCommunity { info, community_name: n, community_description: d, field_focus: f } => {
            let on_name = f == CreateCommunityFocus::Name;
            let same = post == (AppView { screen: post.screen, ..pre });
            match code {
                KeyCode::Tab => same && create_screen(
                    post.screen,
                    info,
                    n@,
                    d@,
                    if on_name {
                        CreateCommunityFocus::Description
                    } else {
                        CreateCommunityFocus::Name
                    },
                ),
                KeyCode::Esc => returned_to_chat(pre, info, post),
                KeyCode::Enter => {
                    let t = trim(n@);
                    if t.len() == 0 {
                        with_error(pre, post, "Community name cannot be empty"@)
                    } else {
                        community_created(pre, info, t, d@, post)
                    }
                },
                KeyCode::Backspace => same && create_screen(
                    post.screen,
                    info,
                    if on_name && n@.len() > 0 {
                        n@.drop_last()
                    } else {
                        n@
                    },
                    if !on_name && d@.len() > 0 {
                        d@.drop_last()
                    } else {
                        d@
                    },
                    f,
                ),
                KeyCode::Char(c) => same && create_screen(
                    post.screen,
                    info,
                    if on_name && utf8_len(n@) < COMMUNITY_NAME_MAX {
                        n@.push(c)
                    } else {
                        n@
                    },
                    if !on_name && utf8_len(d@) < COMMUNITY_DESCRIPTION_MAX {
                        d@.push(c)
                    } else {
                        d@
                    },
                    f,
                ),
                _ => post == pre,
            }
        },
        _ => post == pre,
    }
}

// ── Members, roles and member actions ───────────────────────────────

/// The name a member is shown under: the display name, else the first 8
/// characters of the DID.
pub open spec fn member_label(m: CommunityMemberEntry) -> Seq<char> {
    match m.display_name {
        Some(n) => n@,
        None => m.did@.subrange(0, if m.did@.len() < 8 { m.did@.len() as int } else { 8 }),
    }
}

/// A key on the community members screen.
pub open spec fn members_step(pre: AppView, code: KeyCode, post: AppView) -> bool {
    match pre.screen {
        Screen::CommunityMembers { info, community_id, community_name, members, selected_member: k } => {
            let with_k = |j: usize| Screen::CommunityMembers {
                info,
                community_id,
                community_name,
                members,
                selected_member: j,
            };
            match code {
                KeyCode::Up => post == (AppView {
                    screen: with_k(if k > 0 {
                        (k - 1) as usize
                    } else {
                        k
                    }),
                    ..pre
                }),
                KeyCode::Down => post == (AppView {
                    screen: with_k(if k + 1 < members@.len() {
                        (k + 1) as usize
                    } else {
                        k
                    }),
                    ..pre
                }),
                KeyCode::Enter => if k < members@.len() {
                    let m = members@[k as int];
                    if pre.session.my_did matches Some(me) && me@ == m.did@ {
                        with_error(pre, post, "Cannot perform actions on yourself"@)
                    } else {
                        &&& post == (AppView { screen: post.screen, ..pre })
                        &&& post.screen matches Screen::MemberActions {
                            info: i,
                            community_id: c,
                            member_did,
                            member_name,
                            actions,
                            selected_action,
                        }
                        &&& i == info && c == community_id && member_did == m.did
                        &&& member_name@ == member_label(m)
                        &&& actions@ == seq![MemberActionItem::Kick, MemberActionItem::Ban]
                        &&& selected_action == 0
                    }
                } else {
                    post == pre
                },
                KeyCode::Esc => returned_to_chat(pre, info, post),
                _ => post == pre,
            }
        },
        _ => post == pre,
    }
}

/// A key on the community roles screen.
pub open spec fn roles_step(pre: AppView, code: KeyCode, post: AppView) -> bool {
    match pre.screen {
        Screen::CommunityRoles { info, community_id, community_name, roles, selected_role: k } => {
            let with_k = |j: usize| Screen::CommunityRoles {
                info,
                community_id,
                community_name,
                roles,
                selected_role: j,
            };
            match code {
                KeyCode::Up => post == (AppView {
                    screen: with_k(if k > 0 {
                        (k - 1) as usize
                    } else {
                        k
                    }),
                    ..pre
                }),
                KeyCode::Down => post == (AppView {
                    screen: with_k(if k + 1 < roles@.len() {
                        (k + 1) as usize
                    } else {
                        k
                    }),
                    ..pre
                }),
                KeyCode::Esc => returned_to_chat(pre, info, post),
                _ => post == pre,
            }
        },
        _ => post == pre,
    }
}

/// Back to the members of community `c`, whose list is loaded afterwards.
pub open spec fn back_to_members(pre: AppView, info: DashboardInfo, c: String, post: AppView) -> bool {
    &&& post.screen matches Screen::CommunityMembers {
        info: i,
        community_id,
        community_name,
        members,
        selected_member,
    }
    &&& i == info && community_id == c
    &&& community_name@ == community_name_of(pre.comm.communities, c@)
    &&& members@.len() == 0 && selected_member == 0
    &&& post.effects.last() == Effect::LoadCommunityMembers { community_id: c }
}

/// A key on the member actions screen: Enter kicks or bans the member.
pub open spec fn member_actions_step(pre: AppView, code: KeyCode, post: AppView) -> bool {
    match pre.screen {
        Screen::MemberActions { info, community_id, member_did, member_name, actions, selected_action: k } => {
            let with_k = |j: usize| Screen::MemberActions {
                info,
                community_id,
                member_did,
                member_name,
                actions,
                selected_action: j,
            };
            let cname = community_name_of(pre.comm.communities, community_id@);
            match code {
                KeyCode::Up => post == (AppView {
                    screen: with_k(if k > 0 {
                        (k - 1) as usize
                    } else {
                        k
                    }),
                    ..pre
                }),
                KeyCode::Down => post == (AppView {
                    screen: with_k(if k + 1 < actions@.len() {
                        (k + 1) as usize
                    } else {
                        k
                    }),
                    ..pre
                }),
                KeyCode::Esc => {
                    &&& back_to_members(pre, info, community_id, post)
                    &&& post == (AppView { screen: post.screen, effects: pre.effects.push(post.effects.last()), ..pre })
                },
                KeyCode::Enter => if k < actions@.len() {
                    let acted = match actions@[k as int] {
                        MemberActionItem::Kick => true,
                        MemberActionItem::Ban => pre.session.my_did is Some,
                    };
                    &&& back_to_members(pre, info, community_id, post)
                    &&& if acted {
                        let kick = actions@[k as int] == MemberActionItem::Kick;
                        &&& post.effects.len() == pre.effects.len() + 3
                        &&& post.effects.subrange(0, pre.effects.len() as int) == pre.effects
                        &&& post.effects[pre.effects.len() as int] == if kick {
                            Effect::KickMember { community_id, member_did, community_name: post.effects[pre.effects.len() as int]->KickMember_community_name }
                        } else {
                            Effect::BanMember { community_id, member_did, community_name: post.effects[pre.effects.len() as int]->BanMember_community_name }
                        }
                        &&& (if kick {
                            post.effects[pre.effects.len() as int]->KickMember_community_name@
                        } else {
                            post.effects[pre.effects.len() as int]->BanMember_community_name@
                        }) == cname
                        &&& post.effects[pre.effects.len() as int + 1] == Effect::ReloadCommunities
                        &&& post.session.error_message matches Some(m) && m@ == (if kick {
                            "Kicked "@
                        } else {
                            "Banned "@
                        }) + member_name@ + " from community"@
                        &&& post == (AppView {
                            screen: post.screen,
                            effects: post.effects,
                            session: Session { error_message: post.session.error_message, ..pre.session },
                            ..pre
                        })
                    } else {
                        post == (AppView { screen: post.screen, effects: pre.effects.push(post.effects.last()), ..pre })
                    }
                } else {
                    post == pre
                },
                _ => post == pre,
            }
        },
        _ => post == pre,
    }
}

// ── Invites ─────────────────────────────────────────────────────────

/// Name, description and member count of the first community with this
/// id, as an invite publishes them ("Unknown", none and 0 when there is
/// none).
pub open spec fn invite_facts(s: Seq<CommunityEntry>, id: Seq<char>) -> (Seq<char>, Option<String>, u32) {
    if exists|i: int| #[trigger] first_community(s, id, i) {
        let c = s[choose|i: int| #[trigger] first_community(s, id, i)];
        (c.name@, c.description, c.member_count as u32)
    } else {
        ("Unknown"@, None, 0)
    }
}

/// A key on the invites screen: `n` creates an invite, `d` deletes the
/// selected one; the list is reloaded after either.
pub open spec fn invites_step(pre: AppView, code: KeyCode, post: AppView) -> bool {
    match pre.screen {
        Screen::CommunityInvites { info, community_id, community_name, invites, selected_invite: k } => {
            let with_k = |j: usize| Screen::CommunityInvites {
                info,
                community_id,
                community_name,
                invites,
                selected_invite: j,
            };
            match code {
                KeyCode::Up => post == (AppView {
                    screen: with_k(if k > 0 {
                        (k - 1) as usize
                    } else {
                        k
                    }),
                    ..pre
                }),
                KeyCode::Down => post == (AppView {
                    screen: with_k(if k + 1 < invites@.len() {
                        (k + 1) as usize
                    } else {
                        k
                    }),
                    ..pre
                }),
                KeyCode::Esc => returned_to_chat(pre, info, post),
                KeyCode::Char(c) => if c == 'n' {
                    match pre.session.my_did {
                        Some(_) => {
                            let facts = invite_facts(pre.comm.communities, community_id@);
                            &&& post.effects.len() == pre.effects.len() + 2
                            &&& post.effects.subrange(0, pre.effects.len() as int) == pre.effects
                            &&& post.effects[pre.effects.len() as int] matches Effect::CreateInvite {
                                invite_id,
                                community_id: ci,
                                code,
                                community_name: n,
                                community_description,
                                member_count,
                                ..
                            }
                            &&& minted(invite_id@, "inv_"@) && ci == community_id
                            &&& (exists|t: u128| code@ == #[trigger] base36_digits(invite_seed(t) as nat, 8))
                            &&& n@ == facts.0 && community_description == facts.1 && member_count == facts.2
                            &&& post.effects.last() == Effect::LoadInvites { community_id }
                            &&& post.session.error_message matches Some(m) && m@ == "Invite created: "@ + code@
                            &&& post == (AppView {
                                effects: post.effects,
                                session: Session { error_message: post.session.error_message, ..pre.session },
                                ..pre
                            })
                        },
                        None => post == pre,
                    }
                } else if c == 'd' {
                    if k < invites@.len() {
                        let inv = invites@[k as int];
                        &&& post.effects == pre.effects.push(
                            Effect::DeleteInvite { invite_id: inv.id, code: inv.code },
                        ).push(Effect::LoadInvites { community_id })
                        &&& with_error(
                            AppView { effects: post.effects, ..pre },
                            post,
                            "Invite deleted"@,
                        )
                    } else {
                        post == pre
                    }
                } else {
                    post == pre
                },
                _ => post == pre,
            }
        },
        _ => post == pre,
    }
}

// ── Joining by invite code ──────────────────────────────────────────

/// `s` is the join screen with these parts.
pub open spec fn join_screen(s: Screen, info: DashboardInfo, code: Seq<char>, resolved: Option<ResolvedInvite>, resolving: bool) -> bool {
    &&& s matches Screen::JoinCommunity { info: i, invite_code_input, resolved_invite, resolving: r }
    &&& i == info && invite_code_input@ == code && resolved_invite == resolved && r == resolving
}

/// A key on the join screen: type a code, have it resolved, then join.
pub open spec fn join_step(pre: AppView, code: KeyCode, post: AppView) -> bool {
    match pre.screen {
        Screen::JoinCommunity { info, invite_code_input: input, resolved_invite, resolving } => {
            let same = post == (AppView { screen: post.screen, ..pre });
            match code {
                KeyCode::Enter => match resolved_invite {
                    Some(inv) => match pre.session.my_did {
                        Some(_) => post == (AppView {
                            effects: pre.effects.push(
                                Effect::CheckMembership { community_id: inv.community_id },
                            ),
                            ..pre
                        }),
                        None => post == pre,
                    },
                    None => if resolving {
                        post == pre
                    } else {
                        let t = trim(input@);
                        if t.len() == 0 {
                            with_error(pre, post, "Please enter an invite code"@)
                        } else if pre.session.has_relay {
                            &&& post.effects.len() == pre.effects.len() + 1
                            &&& post.effects.drop_last() == pre.effects
                            &&& post.effects.last() matches Effect::ResolveInvite { code: c } && c@ == t
                            &&& join_screen(post.screen, info, input@, None, true)
                            &&& post == (AppView { screen: post.screen, effects: post.effects, ..pre })
                        } else {
                            with_error(pre, post, "Not connected to relay"@)
                        }
                    },
                },
                KeyCode::Esc => returned_to_chat(pre, info, post),
                KeyCode::Backspace => same && join_screen(
                    post.screen,
                    info,
                    if resolved_invite is None && input@.len() > 0 {
                        input@.drop_last()
                    } else {
                        input@
                    },
                    resolved_invite,
                    resolving,
                ),
                KeyCode::Char(c) => same && join_screen(
                    post.screen,
                    info,
                    if resolved_invite is None && !resolving && utf8_len(input@) < INVITE_CODE_MAX {
                        input@.push(c)
                    } else {
                        input@
                    },
                    resolved_invite,
                    resolving,
                ),
                _ => post == pre,
            }
        },
        _ => post == pre,
    }
}

/// The store's answer on whether we already belong to the resolved
/// community: if so we are told; otherwise we join it.  Either way we go
/// back to the chat screen.
pub open spec fn join_checked_step(pre: AppView, already: bool, post: AppView) -> bool {
    match pre.screen {
        Screen::JoinCommunity { info, resolved_invite: Some(inv), .. } => {
            &&& fresh_chat(post.screen, info)
            &&& post.effects.last() == Effect::LoadFriends
            &&& post == (AppView {
                screen: post.screen,
                effects: post.effects,
                session: Session { error_message: post.session.error_message, ..pre.session },
                ..pre
            })
            &&& if already {
                &&& post.effects == pre.effects.push(Effect::LoadFriends)
                &&& post.session.error_message matches Some(m) && m@ == "Already a member of this community"@
            } else {
                &&& post.effects.len() == pre.effects.len() + 3
                &&& post.effects.subrange(0, pre.effects.len() as int) == pre.effects
                &&& post.effects[pre.effects.len() as int] matches Effect::JoinCommunity {
                    invite,
                    member_name,
                    ..
                }
                &&& invite == inv && member_name@ == info.display_name@
                &&& post.effects[pre.effects.len() as int + 1] == Effect::ReloadCommunities
                &&& post.session.error_message matches Some(m) && m@ == "Joined community '"@
                    + inv.community_name@ + "'"@
            }
        },
        _ => post == pre,
    }
}

impl App {
    /// Back to the chat screen from a community screen; the friend list is
    /// loaded afterwards.
    fn community_screen_to_chat(&mut self)
        requires
            on_community_screen(old(self)@.screen),
        ensures
            returned_to_chat(old(self)@, info_of(old(self)@.screen), final(self)@),
    {
        let s = self.take_screen();
        let info = match s {
            Screen::CreateCommunity { info, .. } => info,
            Screen::CommunityMembers { info, .. } => info,
            Screen::CommunityRoles { info, .. } => info,
            Screen::MemberActions { info, .. } => info,
            Screen::CommunityInvites { info, .. } => info,
            Screen::JoinCommunity { info, .. } => info,
            other => {
                self.screen = other;
                return ;
            },
        };
        self.screen = Screen::Chat {
            info,
            focus: ChatFocus::Sidebar,
            friends: Vec::new(),
            selected_friend: 0,
            active_conversation: None,
        };
        self.push_effect(Effect::LoadFriends);
    }

    fn create_community_now(&mut self, name: String, desc: Vec<char>)
        requires
            old(self)@.screen is CreateCommunity,
        ensures
            community_created(old(self)@, info_of(old(self)@.screen), name@, desc@, final(self)@),
    {
        if let Some(me) = &self.session.my_did {
            let me = me.clone();
            let my_name = self.dashboard_display_name();
            let now = crate::ids::unix_secs();
            let layout = new_layout(name, &desc, me, my_name, now);
            let ghost e0 = self@.effects;
            self.push_effect(Effect::CreateCommunity { layout });
            let ghost e1 = self@.effects;
            self.push_effect(Effect::ReloadCommunities);
            let ghost e2 = self@.effects;
            self.community_screen_to_chat();
            proof {
                assert(self@.effects.subrange(0, e0.len() as int) =~= e0) by {
                    assert(self@.effects.subrange(0, e2.len() as int) == e2);
                    assert(e2.subrange(0, e1.len() as int) == e1);
                    assert(e1.subrange(0, e0.len() as int) == e0);
                }
                assert(self@.effects[e0.len() as int] == e1.last());
                assert(self@.effects[e0.len() as int + 1] == e2.last());
            }
        } else {
            self.community_screen_to_chat();
        }
    }

    /// Handle a key on the create-community screen.
    pub fn handle_create_community_key(&mut self, code: KeyCode)
        ensures
            create_community_step(old(self)@, code, final(self)@),
    {
        let on_screen = match &self.screen {
            Screen::CreateCommunity { .. } => true,
            _ => false,
        };
        if !on_screen {
            return ;
        }
        match code {
            KeyCode::Esc => {
                self.community_screen_to_chat();
                return ;
            },
            KeyCode::Enter => {
                let (t, d) = match &self.screen {
                    Screen::CreateCommunity { community_name, community_description, .. } => (
                        crate::text::trim_chars(community_name),
                        crate::text::dup_chars(community_description),
                    ),
                    _ => {
                        return ;
                    },
                };
                if t.len() == 0 {
                    self.set_error("Community name cannot be empty");
                } else {
                    let name = crate::text::string_of(&t);
                    self.create_community_now(name, d);
                }
                return ;
            },
            _ => {},
        }
        let s = self.take_screen();
        let (info, mut n, mut d, mut f) = match s {
            Screen::CreateCommunity { info, community_name, community_description, field_focus } => (
                info,
                community_name,
                community_description,
                field_focus,
            ),
            other => {
                self.screen = other;
                return ;
            },
        };
        let on_name = f == CreateCommunityFocus::Name;
        match code {
            KeyCode::Tab => {
                f = if on_name {
                    CreateCommunityFocus::Description
                } else {
                    CreateCommunityFocus::Name
                };
            },
            KeyCode::Backspace => {
                if on_name {
                    if n.len() > 0 {
                        n.pop();
                    }
                } else if d.len() > 0 {
                    d.pop();
                }
            },
            KeyCode::Char(c) => {
                if on_name {
                    if crate::text::utf8_len_below(&n, COMMUNITY_NAME_MAX) {
                        n.push(c);
                    }
                } else if crate::text::utf8_len_below(&d, COMMUNITY_DESCRIPTION_MAX) {
                    d.push(c);
                }
            },
            _ => {},
        }
        self.screen = Screen::CreateCommunity {
            info,
            community_name: n,
            community_description: d,
            field_focus: f,
        };
    }

    /// Handle a key on the community members screen.
    pub fn handle_community_members_key(&mut self, code: KeyCode)
        ensures
            members_step(old(self)@, code, final(self)@),
    {
        let on_screen = match &self.screen {
            Screen::CommunityMembers { .. } => true,
            _ => false,
        };
        if !on_screen {
            return ;
        }
        if code == KeyCode::Esc {
            self.community_screen_to_chat();
            return ;
        }
        if code == KeyCode::Enter {
            let picked = match &self.screen {
                Screen::CommunityMembers { members, selected_member, .. } => {
                    if *selected_member < members.len() {
                        let m = &members[*selected_member];
                        let label = match &m.display_name {
                            Some(n) => n.clone(),
                            None => crate::text::prefix_chars(m.did.as_str(), 8),
                        };
                        Some((m.did.clone(), label))
                    } else {
                        None
                    }
                },
                _ => None,
            };
            let (did, label) = match picked {
                Some(p) => p,
                None => {
                    return ;
                },
            };
            let me = match &self.session.my_did {
                Some(me) => crate::text::str_eq(me.as_str(), did.as_str()),
                None => false,
            };
            if me {
                self.set_error("Cannot perform actions on yourself");
                return ;
            }
            let s = self.take_screen();
            self.screen = match s {
                Screen::CommunityMembers { info, community_id, .. } => {
                    let mut actions: Vec<MemberActionItem> = Vec::new();
                    actions.push(MemberActionItem::Kick);
                    actions.push(MemberActionItem::Ban);
                    assert(actions@ =~= seq![MemberActionItem::Kick, MemberActionItem::Ban]);
                    Screen::MemberActions {
                        info,
                        community_id,
                        member_did: did,
                        member_name: label,
                        actions,
                        selected_action: 0,
                    }
                },
                other => other,
            };
            return ;
        }
        let s = self.take_screen();
        self.screen = match s {
            Screen::CommunityMembers { info, community_id, community_name, members, selected_member: k } => {
                let n = members.len();
                let j = match code {
                    KeyCode::Up => if k > 0 {
                        k - 1
                    } else {
                        k
                    },
                    KeyCode::Down => if k < n && k + 1 < n {
                        k + 1
                    } else {
                        k
                    },
                    _ => k,
                };
                Screen::CommunityMembers { info, community_id, community_name, members, selected_member: j }
            },
            other => other,
        };
    }

    /// Handle a key on the community roles screen.
    pub fn handle_community_roles_key(&mut self, code: KeyCode)
        ensures
            roles_step(old(self)@, code, final(self)@),
    {
        let on_screen = match &self.screen {
            Screen::CommunityRoles { .. } => true,
            _ => false,
        };
        if !on_screen {
            return ;
        }
        if code == KeyCode::Esc {
            self.community_screen_to_chat();
            return ;
        }
        let s = self.take_screen();
        self.screen = match s {
            Screen::CommunityRoles { info, community_id, community_name, roles, selected_role: k } => {
                let n = roles.len();
                let j = match code {
                    KeyCode::Up => if k > 0 {
                        k - 1
                    } else {
                        k
                    },
                    KeyCode::Down => if k < n && k + 1 < n {
                        k + 1
                    } else {
                        k
                    },
                    _ => k,
                };
                Screen::CommunityRoles { info, community_id, community_name, roles, selected_role: j }
            },
            other => other,
        };
    }

    /// Back from the member actions screen to the members of the community,
    /// whose list is loaded afterwards.
    fn member_actions_to_members(&mut self)
        requires
            old(self)@.screen is MemberActions,
        ensures
            old(self)@.screen matches Screen::MemberActions { info, community_id, .. }
                && back_to_members(old(self)@, info, community_id, final(self)@),
            final(self)@ == (AppView {
                screen: final(self)@.screen,
                effects: old(self)@.effects.push(final(self)@.effects.last()),
                ..old(self)@
            }),
    {
        let s = self.take_screen();
        match s {
            Screen::MemberActions { info, community_id, .. } => {
                let name = community_name_in(&self.comm.communities, community_id.as_str());
                self.screen = Screen::CommunityMembers {
                    info,
                    community_id: community_id.clone(),
                    community_name: name,
                    members: Vec::new(),
                    selected_member: 0,
                };
                self.push_effect(Effect::LoadCommunityMembers { community_id });
            },
            other => {
                self.screen = other;
            },
        }
    }

    /// Handle a key on the member actions screen.
    pub fn handle_member_actions_key(&mut self, code: KeyCode)
        ensures
            member_actions_step(old(self)@, code, final(self)@),
    {
        let (c, did, label, action) = match &self.screen {
            Screen::MemberActions { community_id, member_did, member_name, actions, selected_action, .. } => {
                let a = if *selected_action < actions.len() {
                    Some(actions[*selected_action])
                } else {
                    None
                };
                (community_id.clone(), member_did.clone(), member_name.clone(), a)
            },
            _ => {
                return ;
            },
        };
        match code {
            KeyCode::Esc => {
                self.member_actions_to_members();
            },
            KeyCode::Enter => {
                if let Some(a) = action {
                    let cname = community_name_in(&self.comm.communities, c.as_str());
                    match a {
                        MemberActionItem::Kick => {
                            self.push_effect(
                                Effect::KickMember { community_id: c, member_did: did, community_name: cname },
                            );
                            self.push_effect(Effect::ReloadCommunities);
                            self.set_error3("Kicked ", label.as_str(), " from community");
                        },
                        MemberActionItem::Ban => {
                            if self.session.my_did.is_some() {
                                self.push_effect(
                                    Effect::BanMember { community_id: c, member_did: did, community_name: cname },
                                );
                                self.push_effect(Effect::ReloadCommunities);
                                self.set_error3("Banned ", label.as_str(), " from community");
                            }
                        },
                    }
                    let ghost e2 = self@.effects;
                    self.member_actions_to_members();
                    proof {
                        if e2.len() == old(self)@.effects.len() + 2 {
                            assert(self@.effects.subrange(0, old(self)@.effects.len() as int) =~= old(self)@.effects);
                        }
                    }
                }
            },
            _ => {
                let s = self.take_screen();
                self.screen = match s {
                    Screen::MemberActions { info, community_id, member_did, member_name, actions, selected_action: k } => {
                        let n = actions.len();
                        let j = match code {
                            KeyCode::Up => if k > 0 {
                                k - 1
                            } else {
                                k
                            },
                            KeyCode::Down => if k < n && k + 1 < n {
                                k + 1
                            } else {
                                k
                            },
                            _ => k,
                        };
                        Screen::MemberActions { info, community_id, member_did, member_name, actions, selected_action: j }
                    },
                    other => other,
                };
            },
        }
    }

    /// Name, description and member count of a community, as an invite
    /// publishes them.
    fn community_facts(&self, id: &str) -> (r: (String, Option<String>, u32))
        ensures
            r.0@ == invite_facts(self@.comm.communities, id@).0,
            r.1 == invite_facts(self@.comm.communities, id@).1,
            r.2 == invite_facts(self@.comm.communities, id@).2,
    {
        let s = &self.comm.communities;
        let mut i: usize = 0;
        while i < s.len()
            invariant
                i <= s@.len(),
                s == &self.comm.communities,
                forall|j: int| 0 <= j < i ==> s@[j].id@ != id@,
            decreases s@.len() - i,
        {
            if crate::text::str_eq(s[i].id.as_str(), id) {
                assert(first_community(s@, id@, i as int));
                proof {
                    let k = choose|k: int| #[trigger] first_community(s@, id@, k);
                    assert(k == i) by {
                        if k > i {
                            assert(s@[i as int].id@ == id@);
                        }
                    }
                }
                return (
                    s[i].name.clone(),
                    crate::text::dup_opt_string(&s[i].description),
                    s[i].member_count as u32,
                );
            }
            i = i + 1;
        }
        assert forall|k: int| !first_community(s@, id@, k) by {}
        ("Unknown".to_owned(), None, 0)
    }

    /// Handle a key on the invites screen.
    pub fn handle_community_invites_key(&mut self, code: KeyCode)
        ensures
            invites_step(old(self)@, code, final(self)@),
    {
        let (cid, sel) = match &self.screen {
            Screen::CommunityInvites { community_id, invites, selected_invite, .. } => {
                let sel = if *selected_invite < invites.len() {
                    Some((invites[*selected_invite].id.clone(), invites[*selected_invite].code.clone()))
                } else {
                    None
                };
                (community_id.clone(), sel)
            },
            _ => {
                return ;
            },
        };
        match code {
            KeyCode::Esc => {
                self.community_screen_to_chat();
            },
            KeyCode::Char(c) => {
                if c == 'n' {
                    if self.session.my_did.is_none() {
                        return ;
                    }
                    let now = crate::ids::unix_secs();
                    let code = crate::ids::generate_invite_code();
                    let invite_id = mint("inv_");
                    let (name, desc, count) = self.community_facts(cid.as_str());
                    self.set_error2("Invite created: ", code.as_str());
                    let ghost e0 = self@.effects;
                    self.push_effect(
                        Effect::CreateInvite {
                            invite_id,
                            community_id: cid.clone(),
                            code,
                            created_at: now,
                            community_name: name,
                            community_description: desc,
                            member_count: count,
                        },
                    );
                    let ghost e1 = self@.effects;
                    self.push_effect(Effect::LoadInvites { community_id: cid });
                    proof {
                        assert(self@.effects.subrange(0, e0.len() as int) =~= e0) by {
                            assert(self@.effects.subrange(0, e1.len() as int) == e1);
                        }
                    }
                } else if c == 'd' {
                    if let Some((id, code)) = sel {
                        self.push_effect(Effect::DeleteInvite { invite_id: id, code });
                        self.push_effect(Effect::LoadInvites { community_id: cid });
                        self.set_error("Invite deleted");
                    }
                }
            },
            _ => {
                let s = self.take_screen();
                self.screen = match s {
                    Screen::CommunityInvites { info, community_id, community_name, invites, selected_invite: k } => {
                        let n = invites.len();
                        let j = match code {
                            KeyCode::Up => if k > 0 {
                                k - 1
                            } else {
                                k
                            },
                            KeyCode::Down => if k < n && k + 1 < n {
                                k + 1
                            } else {
                                k
                            },
                            _ => k,
                        };
                        Screen::CommunityInvites { info, community_id, community_name, invites, selected_invite: j }
                    },
                    other => other,
                };
            },
        }
    }

    /// Handle a key on the join-community screen.
    pub fn handle_join_community_key(&mut self, code: KeyCode)
        ensures
            join_step(old(self)@, code, final(self)@),
    {
        let (resolved_id, resolving, t) = match &self.screen {
            Screen::JoinCommunity { invite_code_input, resolved_invite, resolving, .. } => (
                match resolved_invite {
                    Some(inv) => Some(inv.community_id.clone()),
                    None => None,
                },
                *resolving,
                crate::text::trim_chars(invite_code_input),
            ),
            _ => {
                return ;
            },
        };
        match code {
            KeyCode::Enter => {
                match resolved_id {
                    Some(cid) => {
                        if self.session.my_did.is_some() {
                            self.push_effect(Effect::CheckMembership { community_id: cid });
                        }
                    },
                    None => {
                        if !resolving {
                            if t.len() == 0 {
                                self.set_error("Please enter an invite code");
                            } else if self.session.has_relay {
                                self.push_effect(Effect::ResolveInvite { code: crate::text::string_of(&t) });
                                let s = self.take_screen();
                                self.screen = match s {
                                    Screen::JoinCommunity { info, invite_code_input, resolved_invite, .. } => {
                                        Screen::JoinCommunity { info, invite_code_input, resolved_invite, resolving: true }
                                    },
                                    other => other,
                                };
                            } else {
                                self.set_error("Not connected to relay");
                            }
                        }
                    },
                }
            },
            KeyCode::Esc => {
                self.community_screen_to_chat();
            },
            _ => {
                let s = self.take_screen();
                self.screen = match s {
                    Screen::JoinCommunity { info, invite_code_input, resolved_invite, resolving } => {
                        let mut input = invite_code_input;
                        let open = resolved_invite.is_none();
                        match code {
                            KeyCode::Backspace => {
                                if open && input.len() > 0 {
                                    input.pop();
                                }
                            },
                            KeyCode::Char(c) => {
                                if open && !resolving && crate::text::utf8_len_below(&input, INVITE_CODE_MAX) {
                                    input.push(c);
                                }
                            },
                            _ => {},
                        }
                        Screen::JoinCommunity { info, invite_code_input: input, resolved_invite, resolving }
                    },
                    other => other,
                };
            },
        }
    }

    /// The relay resolved an invite code.
    pub fn invite_resolved(&mut self, invite: ResolvedInvite)
        ensures
            old(self)@.wf() ==> final(self)@.wf(),
            match old(self)@.screen {
                Screen::JoinCommunity { info, invite_code_input, .. } => final(self)@ == (AppView {
                    screen: Screen::JoinCommunity {
                        info,
                        invite_code_input,
                        resolved_invite: Some(invite),
                        resolving: false,
                    },
                    ..old(self)@
                }),
                _ => final(self)@ == old(self)@,
            },
    {
        let s = self.take_screen();
        self.screen = match s {
            Screen::JoinCommunity { info, invite_code_input, .. } => Screen::JoinCommunity {
                info,
                invite_code_input,
                resolved_invite: Some(invite),
                resolving: false,
            },
            other => other,
        };
    }

    /// The relay knows no invite with this code.
    pub fn invite_not_found(&mut self, code: &str)
        ensures
            old(self)@.wf() ==> final(self)@.wf(),
            final(self)@.session.error_message matches Some(m) && m@ == "Invite code '"@ + code@
                + "' not found"@,
            final(self)@ == (AppView {
                screen: match old(self)@.screen {
                    Screen::JoinCommunity { info, invite_code_input, resolved_invite, .. } => Screen::JoinCommunity {
                        info,
                        invite_code_input,
                        resolved_invite,
                        resolving: false,
                    },
                    other => other,
                },
                session: Session { error_message: final(self)@.session.error_message, ..old(self)@.session },
                ..old(self)@
            }),
    {
        let s = self.take_screen();
        self.screen = match s {
            Screen::JoinCommunity { info, invite_code_input, resolved_invite, .. } => Screen::JoinCommunity {
                info,
                invite_code_input,
                resolved_invite,
                resolving: false,
            },
            other => other,
        };
        self.set_error3("Invite code '", code, "' not found");
    }

    /// The store answered whether we already belong to the resolved
    /// community.
    pub fn join_checked(&mut self, already: bool)
        ensures
            old(self)@.wf() ==> final(self)@.wf(),
            join_checked_step(old(self)@, already, final(self)@),
    {
        let inv = match &self.screen {
            Screen::JoinCommunity { resolved_invite: Some(inv), .. } => ResolvedInvite {
                code: inv.code.clone(),
                community_id: inv.community_id.clone(),
                community_name: inv.community_name.clone(),
                community_description: crate::text::dup_opt_string(&inv.community_description),
                member_count: inv.member_count,
                invite_payload: inv.invite_payload.clone(),
            },
            _ => {
                return ;
            },
        };
        if already {
            self.set_error("Already a member of this community");
            self.community_screen_to_chat();
            return ;
        }
        let now = crate::ids::unix_secs();
        let my_name = self.dashboard_display_name();
        self.set_error3("Joined community '", inv.community_name.as_str(), "'");
        let ghost e0 = self@.effects;
        self.push_effect(Effect::JoinCommunity { invite: inv, joined_at: now, member_name: my_name });
        let ghost e1 = self@.effects;
        self.push_effect(Effect::ReloadCommunities);
        let ghost e2 = self@.effects;
        self.community_screen_to_chat();
        proof {
            assert(self@.effects.subrange(0, e0.len() as int) =~= e0) by {
                assert(self@.effects.subrange(0, e2.len() as int) == e2);
                assert(e2.subrange(0, e1.len() as int) == e1);
            }
            assert(self@.effects[e0.len() as int] == e1.last());
            assert(self@.effects[e0.len() as int + 1] == e2.last());
        }
    }
}

} // verus!
