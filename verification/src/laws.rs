//! Properties that hold across the operations of the application.

use vstd::prelude::*;
use crate::app::AppView;
use crate::chatkeys::{typing_step, TYPING_INTERVAL_MS};
use crate::chatmove::{next_focus, prev_focus, route_left, route_right};
use crate::chatnav::selection_after_removal;
use crate::ids::{base36_char, base36_digits, hex_char, hex_digits, is_lower_hex, uuid_text};
use crate::msglist::{first_msg, no_msg, update_first};
use crate::relay::{reconnect_after, MAX_RECONNECT_SECS};
use crate::tally::{lemma_text_lt_irreflexive, lemma_text_lt_transitive, tally_of, text_lt};
use crate::types::{ChatFocus, DisplayMessage, GroupMemberEntry, MemberActionItem, MessageAction, NavRoute, Screen};
use crate::effects::Effect;
use crate::inbox::{Envelope, IncomingFacts};
use crate::relay::incoming_step;
use crate::chatkeys::{chat_key_step, reaction_emoji};
use crate::chatnav::focus_of;
use crate::sending::{active_friend, group_send_step};
use crate::msglist::{first_group, others};
use crate::communities::member_actions_step;
use crate::chatmove::{group_left, leave_step};
use crate::types::SidebarMode;
use crate::keys::KeyCode;

verus! {

/// Shift-Tab undoes Tab on the chat screen (from the input line only while
/// something is open, since the input line is only reached then).
pub proof fn backtab_undoes_tab(f: ChatFocus, active: bool)
    requires
        f != ChatFocus::Input || active,
    ensures
        prev_focus(next_focus(f, active), active) == f,
{
}

/// Tab cycles through the panes: three presses from the tab bar come back
/// to it while nothing is open, four while something is.
pub proof fn tab_cycles_back(active: bool)
    ensures
        !active ==> next_focus(next_focus(next_focus(ChatFocus::TabBar, active), active), active)
            == ChatFocus::TabBar,
        active ==> next_focus(
            next_focus(next_focus(next_focus(ChatFocus::TabBar, active), active), active),
            active,
        ) == ChatFocus::TabBar,
{
}

/// Left undoes Right in the tab bar, except at the last route, where Right
/// stays.
pub proof fn left_undoes_right(r: NavRoute)
    ensures
        r != NavRoute::Settings ==> route_left(route_right(r)) == r,
        r != NavRoute::Home ==> route_right(route_left(r)) == r,
        route_right(NavRoute::Settings) == NavRoute::Settings,
        route_left(NavRoute::Home) == NavRoute::Home,
{
}

/// After the selected entry leaves a list, the selection still points
/// into the list (or is 0 when the list is empty).
pub proof fn selection_stays_in_list(sel: usize, n: nat)
    requires
        sel <= n,
    ensures
        n > 0 ==> selection_after_removal(sel, n) < n,
        n == 0 ==> selection_after_removal(sel, n) == 0,
{
}

/// Typing indicators go out at least three seconds apart: when two typed
/// characters both sent one, the second came at least that much later.
pub proof fn typing_indicators_spaced(pre: AppView, t1: u64, mid: AppView, t2: u64, post: AppView)
    requires
        typing_step(pre, t1, mid),
        typing_step(mid, t2, post),
        mid.effects.len() > pre.effects.len(),
        post.effects.len() > mid.effects.len(),
    ensures
        t2 >= t1 + TYPING_INTERVAL_MS,
{
}

/// Invite codes are made of lowercase letters and digits, as many as asked.
pub proof fn invite_codes_are_base36(v: nat, n: nat)
    ensures
        base36_digits(v, n).len() == n,
        forall|i: int|
            0 <= i < n ==> {
                let c = #[trigger] base36_digits(v, n)[i];
                ('a' <= c <= 'z') || ('0' <= c <= '9')
            },
    decreases n,
{
    if n > 0 {
        invite_codes_are_base36(v / 36, (n - 1) as nat);
        let d = v % 36;
        let c = base36_char(d);
        assert('a' <= c <= 'z' || '0' <= c <= '9') by {
            if d < 26 {
                assert(c == (('a' as u32) + d) as char);
            } else {
                assert(c == (('0' as u32) + d - 26) as char);
            }
        }
        assert forall|i: int| 0 < i < n implies base36_digits(v, n)[i] == base36_digits(
            v / 36,
            (n - 1) as nat,
        )[i - 1] by {}
    }
}

proof fn hex_digits_are_hex(x: nat, n: nat)
    ensures
        hex_digits(x, n).len() == n,
        forall|i: int| 0 <= i < n ==> is_lower_hex(#[trigger] hex_digits(x, n)[i]),
    decreases n,
{
    if n > 0 {
        hex_digits_are_hex(x / 16, (n - 1) as nat);
        let d = x % 16;
        assert(is_lower_hex(hex_char(d))) by {
            if d < 10 {
                assert(hex_char(d) == (('0' as u32) + d) as char);
            } else {
                assert(hex_char(d) == (('a' as u32) + d - 10) as char);
            }
        }
    }
}

/// Clock-made ids are 32 lowercase hexadecimal digits.
pub proof fn ids_are_hex(t: u128)
    ensures
        uuid_text(t).len() == 32,
        forall|i: int| 0 <= i < 32 ==> is_lower_hex(#[trigger] uuid_text(t)[i]),
{
    let r = crate::ids::uuid_seed(t);
    let a = hex_digits(r as nat, 16);
    let b = hex_digits(((r as nat * crate::ids::SCRAMBLE as nat) % 0x1_0000_0000_0000_0000) as nat, 16);
    hex_digits_are_hex(r as nat, 16);
    hex_digits_are_hex(((r as nat * crate::ids::SCRAMBLE as nat) % 0x1_0000_0000_0000_0000) as nat, 16);
    assert forall|i: int| 0 <= i < 32 implies is_lower_hex(#[trigger] uuid_text(t)[i]) by {
        if i < 16 {
            assert(uuid_text(t)[i] == a[i]);
        } else {
            assert(uuid_text(t)[i] == b[i - 16]);
        }
    }
}

/// The reconnect wait never exceeds 30 seconds and otherwise doubles.
pub proof fn reconnect_waits_are_bounded(secs: u64)
    ensures
        reconnect_after(secs) <= MAX_RECONNECT_SECS,
        secs <= MAX_RECONNECT_SECS ==> reconnect_after(secs) >= secs,
        reconnect_after(reconnect_after(secs) as u64) <= MAX_RECONNECT_SECS,
{
}

/// A reaction tally lists each emoji once.
pub proof fn tally_lists_each_emoji_once(rs: Seq<crate::store::StoredReaction>, out: Seq<(String, usize)>)
    requires
        tally_of(rs, out),
    ensures
        forall|i: int, j: int| 0 <= i < j < out.len() ==> (#[trigger] out[i]).0@ != (#[trigger] out[j]).0@,
{
    assert forall|i: int, j: int| 0 <= i < j < out.len() implies (#[trigger] out[i]).0@ != (
    #[trigger] out[j]).0@ by {
        assert(text_lt(out[i].0@, out[j].0@));
        lemma_text_lt_irreflexive(out[i].0@);
    }
}

/// Text order is a strict order: no text before itself, and transitive.
pub proof fn text_order_is_strict(a: Seq<char>, b: Seq<char>, c: Seq<char>)
    ensures
        !text_lt(a, a),
        text_lt(a, b) && text_lt(b, c) ==> text_lt(a, c),
{
    lemma_text_lt_irreflexive(a);
    if text_lt(a, b) && text_lt(b, c) {
        lemma_text_lt_transitive(a, b, c);
    }
}

/// Editing, deleting, pinning or reacting to message `id` changes that one
/// message (the first with the id) and keeps every other message and the
/// length of the list.
pub proof fn message_update_is_local(
    pre: Seq<DisplayMessage>,
    id: Seq<char>,
    post: Seq<DisplayMessage>,
    f: spec_fn(DisplayMessage) -> DisplayMessage,
)
    requires
        update_first(pre, id, post, f),
    ensures
        post.len() == pre.len(),
        no_msg(pre, id) ==> post == pre,
        forall|j: int| 0 <= j < pre.len() && !first_msg(pre, id, j) ==> #[trigger] post[j] == pre[j],
        forall|j: int| first_msg(pre, id, j) ==> #[trigger] post[j] == f(pre[j]),
{
    if !no_msg(pre, id) {
        let i = choose|i: int| #[trigger] first_msg(pre, id, i) && post == pre.update(i, f(pre[i]));
        assert forall|j: int| first_msg(pre, id, j) implies j == i by {
            if j < i {
                assert(pre[j].id@ == id);
            } else if j > i {
                assert(pre[i].id@ == id);
            }
        }
    }
}

proof fn lemma_group_chat_dispatch(
    pre: AppView,
    from: String,
    env: Envelope,
    facts: IncomingFacts,
    ts: Option<u64>,
    now: u64,
    post: AppView,
)
    requires
        env.envelope is None,
        env.kind matches Some(k) && k@ == "group_chat"@,
    ensures
        incoming_step(pre, from, env, facts, ts, now, post) == crate::broadcasts::group_chat_received(
            pre,
            env,
            facts,
            post,
        ),
{
    reveal_strlit("group_chat");
    reveal_strlit("message_edit");
    reveal_strlit("message_delete");
    reveal_strlit("reaction_add");
    reveal_strlit("reaction_remove");
    reveal_strlit("typing");
    reveal_strlit("read_receipt");
    reveal_strlit("message_pin");
    reveal_strlit("message_unpin");
    reveal_strlit("group_create");
    let k = env.kind->0@;
    assert(k.len() == 10);
    assert("message_edit"@.len() == 12);
    assert("message_delete"@.len() == 14);
    assert("reaction_add"@.len() == 12);
    assert("reaction_remove"@.len() == 15);
    assert("typing"@.len() == 6);
    assert("read_receipt"@.len() == 12);
    assert("message_pin"@.len() == 11);
    assert("message_unpin"@.len() == 13);
    assert("group_create"@.len() == 12);
}

/// A group message received over the relay is shown only in its own group:
/// while another group (or none) is open, the shown messages and the open
/// group stay as they were; while its group is open and the message is
/// taken in (something was queued for it), it is appended to the shown
/// messages with its id and content, and nothing else is.
pub proof fn group_message_shows_only_in_its_group(
    pre: AppView,
    from: String,
    env: Envelope,
    facts: IncomingFacts,
    ts: Option<u64>,
    now: u64,
    post: AppView,
)
    requires
        incoming_step(pre, from, env, facts, ts, now, post),
        env.envelope is None,
        env.kind matches Some(k) && k@ == "group_chat"@,
        env.group_id is Some,
    ensures
        !(pre.chat.active_group matches Some(a) && a@ == env.group_id->0@) ==> {
            &&& post.chat.messages == pre.chat.messages
            &&& post.chat.active_group == pre.chat.active_group
        },
        (pre.chat.active_group matches Some(a) && a@ == env.group_id->0@) && post.effects.len()
            > pre.effects.len() ==> {
            &&& post.chat.messages.len() == pre.chat.messages.len() + 1
            &&& post.chat.messages.drop_last() == pre.chat.messages
            &&& post.chat.messages.last().id == env.message_id->0
            &&& post.chat.messages.last().content@ == env.content->0@
            &&& post.chat.active_group == pre.chat.active_group
        },
{
    lemma_group_chat_dispatch(pre, from, env, facts, ts, now, post);
}

/// A reaction chosen in the reaction picker goes to the selected message:
/// when a key of the picker asks for a reaction, exactly one effect is
/// queued, and it adds that key's emoji to the message at the selected
/// index, sent to the friend of the open conversation. With a message
/// selected, a conversation open and our identity loaded, every reaction
/// key asks for it.
pub proof fn reaction_goes_to_the_selected_message(pre: AppView, k: char, now: u64, post: AppView)
    requires
        chat_key_step(pre, KeyCode::Char(k), now, post),
        pre.screen is Chat,
        focus_of(pre.screen) != ChatFocus::Input,
        pre.chat.message_action_mode == Some(MessageAction::React),
    ensures
        post.effects.len() > pre.effects.len() ==> {
            &&& pre.chat.selected_message matches Some(i) && i < pre.chat.messages.len()
            &&& post.effects.len() == pre.effects.len() + 1
            &&& post.effects.last() matches Effect::SendReaction { friend_did, message_id, emoji, add }
            &&& message_id == pre.chat.messages[pre.chat.selected_message->0 as int].id
            &&& reaction_emoji(k) == Some(emoji@)
            &&& add
            &&& active_friend(pre) matches Some(f) && friend_did == f.did
        },
        (pre.chat.selected_message matches Some(i) && i < pre.chat.messages.len()) && active_friend(
            pre,
        ) is Some && pre.session.my_did is Some && reaction_emoji(k) is Some ==> post.effects.len()
            == pre.effects.len() + 1,
        post.chat.message_action_mode is None || post == pre,
{
}

proof fn lemma_others_push(s: Seq<GroupMemberEntry>, m: GroupMemberEntry, me: Seq<char>)
    ensures
        others(s.push(m), me) == if m.did@ != me {
            others(s, me).push(m.did)
        } else {
            others(s, me)
        },
{
    let pred = |x: GroupMemberEntry| x.did@ != me;
    reveal(Seq::filter);
    assert(s.push(m).drop_last() =~= s);
    assert(s.push(m).filter(pred) == if pred(m) {
        s.filter(pred).push(m)
    } else {
        s.filter(pred)
    });
    if pred(m) {
        assert(s.filter(pred).push(m).map_values(|x: GroupMemberEntry| x.did) =~= s.filter(pred).map_values(
            |x: GroupMemberEntry| x.did,
        ).push(m.did));
    }
}

/// The members other than `me`, as a recursion over the member list.
proof fn lemma_others_members(s: Seq<GroupMemberEntry>, me: Seq<char>)
    ensures
        forall|k: int| 0 <= k < others(s, me).len() ==> (#[trigger] others(s, me)[k])@ != me,
        forall|k: int|
            0 <= k < others(s, me).len() ==> exists|j: int| 0 <= j < s.len() && s[j].did == #[trigger] others(s, me)[k],
        forall|j: int| 0 <= j < s.len() && (#[trigger] s[j]).did@ != me ==> others(s, me).contains(s[j].did),
    decreases s.len(),
{
    if s.len() == 0 {
        reveal(Seq::filter);
        assert(others(s, me) =~= Seq::<String>::empty());
    } else {
        let d = s.drop_last();
        let m = s.last();
        lemma_others_members(d, me);
        assert(d.push(m) =~= s);
        lemma_others_push(d, m, me);
        let od = others(d, me);
        let o = others(s, me);
        assert forall|k: int| 0 <= k < o.len() implies (#[trigger] o[k])@ != me && exists|j: int|
            0 <= j < s.len() && s[j].did == o[k] by {
            if k < od.len() {
                assert(o[k] == od[k]);
                let j = choose|j: int| 0 <= j < d.len() && d[j].did == #[trigger] od[k];
                assert(s[j] == d[j]);
            } else {
                assert(o[k] == m.did);
                assert(s[s.len() - 1] == m);
            }
        }
        assert forall|j: int| 0 <= j < s.len() && (#[trigger] s[j]).did@ != me implies o.contains(s[j].did) by {
            if j < d.len() {
                assert(s[j] == d[j]);
                assert(od.contains(d[j].did));
                let k = choose|k: int| 0 <= k < od.len() && od[k] == d[j].did;
                assert(o[k] == od[k]);
            } else {
                assert(s[j] == m);
                assert(o[o.len() - 1] == m.did);
            }
        }
    }
}

/// A group message goes to every other member of the open group and to no
/// one else: each recipient is a member's DID other than ours, and each
/// member whose DID is not ours is a recipient. Adding a member at the end
/// of the group adds its DID at the end of the recipients exactly when it
/// is not us, so the recipients follow member order.
pub proof fn group_message_goes_to_the_other_members(
    pre: AppView,
    text: Seq<char>,
    post: AppView,
    i: int,
)
    requires
        group_send_step(pre, text, post),
        pre.chat.active_group matches Some(g) && first_group(pre.chat.groups, g@, i),
        pre.session.my_did is Some,
    ensures
        post.effects.last() is SendGroupMessage,
        forall|k: int|
            0 <= k < post.effects.last()->SendGroupMessage_recipients@.len() ==> (
            #[trigger] post.effects.last()->SendGroupMessage_recipients@[k])@ != pre.session.my_did->0@,
        forall|k: int|
            0 <= k < post.effects.last()->SendGroupMessage_recipients@.len() ==> pre.chat.groups[i].members@.map_values(
                |m: GroupMemberEntry| m.did,
            ).contains(#[trigger] post.effects.last()->SendGroupMessage_recipients@[k]),
        forall|j: int|
            0 <= j < pre.chat.groups[i].members@.len() && (#[trigger] pre.chat.groups[i].members@[j]).did@
                != pre.session.my_did->0@ ==> post.effects.last()->SendGroupMessage_recipients@.contains(
                pre.chat.groups[i].members@[j].did,
            ),
        forall|s: Seq<GroupMemberEntry>, m: GroupMemberEntry, me: Seq<char>|
            #[trigger] others(s.push(m), me) == if m.did@ != me {
                others(s, me).push(m.did)
            } else {
                others(s, me)
            },
{
    let g = pre.chat.active_group->0;
    let me = pre.session.my_did->0@;
    assert(first_group(pre.chat.groups, g@, i));
    let j = choose|j: int| #[trigger] first_group(pre.chat.groups, g@, j);
    assert(j == i) by {
        if j < i {
            assert(pre.chat.groups[j].id@ == g@);
        } else if j > i {
            assert(pre.chat.groups[i].id@ == g@);
        }
    }
    lemma_others_members(pre.chat.groups[i].members@, me);
    assert(crate::msglist::group_recipients(pre.chat.groups, g@, me) == others(pre.chat.groups[i].members@, me));
    let ms = pre.chat.groups[i].members@;
    let o = others(ms, me);
    let r = post.effects.last()->SendGroupMessage_recipients;
    assert(r@ == o);
    assert forall|k: int| 0 <= k < r@.len() implies (#[trigger] r@[k])@ != me by {
        assert(r@[k] == o[k]);
    }
    assert forall|k: int| 0 <= k < r@.len() implies ms.map_values(|m: GroupMemberEntry| m.did).contains(#[trigger] r@[k]) by {
        assert(r@[k] == o[k]);
        let j = choose|j: int| 0 <= j < ms.len() && ms[j].did == #[trigger] o[k];
        assert(ms.map_values(|m: GroupMemberEntry| m.did)[j] == r@[k]);
    }
    assert forall|j: int| 0 <= j < ms.len() && (#[trigger] ms[j]).did@ != me implies r@.contains(ms[j].did) by {
        assert(o.contains(ms[j].did));
    }
    assert forall|s: Seq<GroupMemberEntry>, m: GroupMemberEntry, me2: Seq<char>|
        #[trigger] others(s.push(m), me2) == if m.did@ != me2 {
            others(s, me2).push(m.did)
        } else {
            others(s, me2)
        } by {
        lemma_others_push(s, m, me2);
    }
}

/// Confirming an action on the member actions screen does the action that
/// is selected: Ban asks to ban the member of that community (and says it
/// banned them), Kick asks to kick them (and says so), and neither asks for
/// the other.
pub proof fn member_action_does_the_selected_action(pre: AppView, post: AppView)
    requires
        member_actions_step(pre, KeyCode::Enter, post),
        pre.screen matches Screen::MemberActions { actions, selected_action, .. } && selected_action
            < actions@.len(),
        pre.session.my_did is Some,
    ensures
        pre.screen matches Screen::MemberActions {
            community_id,
            member_did,
            member_name,
            actions,
            selected_action,
            ..
        } && {
            let n = pre.effects.len();
            &&& post.effects.len() == n + 3
            &&& post.effects.subrange(0, n as int) == pre.effects
            &&& (actions@[selected_action as int] == MemberActionItem::Ban ==> {
                &&& post.effects[n as int] matches Effect::BanMember { community_id: c, member_did: d, .. }
                    && c == community_id && d == member_did
                &&& forall|j: int| n <= j < n + 3 ==> !(#[trigger] post.effects[j] is KickMember)
                &&& post.session.error_message matches Some(m) && m@ == "Banned "@ + member_name@
                    + " from community"@
            })
            &&& (actions@[selected_action as int] == MemberActionItem::Kick ==> {
                &&& post.effects[n as int] matches Effect::KickMember { community_id: c, member_did: d, .. }
                    && c == community_id && d == member_did
                &&& forall|j: int| n <= j < n + 3 ==> !(#[trigger] post.effects[j] is BanMember)
                &&& post.session.error_message matches Some(m) && m@ == "Kicked "@ + member_name@
                    + " from community"@
            })
        },
{
    let n = pre.effects.len();
    assert forall|j: int| n <= j < n + 3 implies !(#[trigger] post.effects[j] is KickMember) || !(
    post.effects[j] is BanMember) by {}
}

/// Leaving a group closes it only when it is the open one: leaving the
/// open group leaves no group open and no messages shown; leaving another
/// group keeps the open group and its shown messages as they were. Either
/// way the group is left and the groups are loaded again.
pub proof fn leaving_closes_only_that_group(pre: AppView, gid: String, post: AppView)
    requires
        group_left(pre, gid, post),
        pre.session.my_did is Some,
    ensures
        post.effects[pre.effects.len() as int] matches Effect::LeaveGroup { group_id, .. } && group_id == gid,
        post.effects.last() == Effect::ReloadGroups,
        (pre.chat.active_group matches Some(a) && a@ == gid@) ==> post.chat.active_group is None
            && post.chat.messages.len() == 0,
        !(pre.chat.active_group matches Some(a) && a@ == gid@) ==> post.chat.active_group
            == pre.chat.active_group && post.chat.messages == pre.chat.messages,
{
}

/// `l` on the groups sidebar leaves the selected group: the group left is
/// the selected one, it is closed only if it is the open one, and the
/// groups are loaded again.
pub proof fn l_leaves_the_selected_group(pre: AppView, post: AppView)
    requires
        leave_step(pre, post),
        pre.chat.nav_route != NavRoute::Communities,
        focus_of(pre.screen) == ChatFocus::Sidebar,
        pre.chat.sidebar_mode == SidebarMode::Groups,
        pre.chat.selected_group < pre.chat.groups.len(),
        pre.session.my_did is Some,
    ensures
        post.effects[pre.effects.len() as int] matches Effect::LeaveGroup { group_id, .. } && group_id
            == pre.chat.groups[pre.chat.selected_group as int].id,
        post.effects.last() == Effect::ReloadGroups,
        (pre.chat.active_group matches Some(a) && a@ == pre.chat.groups[pre.chat.selected_group as int].id@)
            ==> post.chat.active_group is None && post.chat.messages.len() == 0,
        !(pre.chat.active_group matches Some(a) && a@ == pre.chat.groups[pre.chat.selected_group as int].id@)
            ==> post.chat.active_group == pre.chat.active_group && post.chat.messages == pre.chat.messages,
{
    let gr = pre.chat.groups[pre.chat.selected_group as int];
    leaving_closes_only_that_group(pre, gr.id, post.with_error_text(pre.session.error_message));
}

} // verus!
