//! Operations on the displayed message list and on member lists.

use vstd::prelude::*;
use crate::lifecycle::lemma_filter_push;
use crate::types::{DisplayMessage, FriendEntry, GroupEntry, GroupMemberEntry};

verus! {

/// `i` is the first position of a message with the given id.
pub open spec fn first_msg(s: Seq<DisplayMessage>, id: Seq<char>, i: int) -> bool {
    &&& 0 <= i < s.len()
    &&& s[i].id@ == id
    &&& forall|j: int| 0 <= j < i ==> s[j].id@ != id
}

/// No message has the given id.
pub open spec fn no_msg(s: Seq<DisplayMessage>, id: Seq<char>) -> bool {
    forall|j: int| 0 <= j < s.len() ==> s[j].id@ != id
}

/// `post` is `pre` with the first message of the given id changed by `f`
/// (or `pre` when there is none).
pub open spec fn update_first(
    pre: Seq<DisplayMessage>,
    id: Seq<char>,
    post: Seq<DisplayMessage>,
    f: spec_fn(DisplayMessage) -> DisplayMessage,
) -> bool {
    if no_msg(pre, id) {
        post == pre
    } else {
        exists|i: int| #[trigger] first_msg(pre, id, i) && post == pre.update(i, f(pre[i]))
    }
}

/// Position of the first message with the given id.
pub fn find_message(s: &Vec<DisplayMessage>, id: &str) -> (r: Option<usize>)
    ensures
        match r {
            Some(i) => first_msg(s@, id@, i as int),
            None => no_msg(s@, id@),
        },
{
    let mut i: usize = 0;
    while i < s.len()
        invariant
            i <= s@.len(),
            forall|j: int| 0 <= j < i ==> s@[j].id@ != id@,
        decreases s@.len() - i,
    {
        if crate::text::str_eq(s[i].id.as_str(), id) {
            return Some(i);
        }
        i = i + 1;
    }
    None
}

/// A message marked deleted.
pub open spec fn deleted(m: DisplayMessage) -> DisplayMessage {
    DisplayMessage { deleted: true, ..m }
}

/// A message with new content and an edit time.
pub open spec fn edited(m: DisplayMessage, content: String, at: i64) -> DisplayMessage {
    DisplayMessage { content, edited_at: Some(at), ..m }
}

/// A message marked deleted with its content replaced by the deletion notice.
pub open spec fn erased(m: DisplayMessage, notice: String) -> DisplayMessage {
    DisplayMessage { deleted: true, content: notice, ..m }
}

/// Take the message at `i` out of the list.
fn take_at(s: &mut Vec<DisplayMessage>, i: usize) -> (m: DisplayMessage)
    requires
        i < old(s)@.len(),
    ensures
        m == old(s)@[i as int],
        final(s)@ == old(s)@.remove(i as int),
{
    s.remove(i)
}

/// Put a message back at `i`.
fn put_at(s: &mut Vec<DisplayMessage>, i: usize, m: DisplayMessage)
    requires
        i <= old(s)@.len(),
    ensures
        final(s)@ == old(s)@.insert(i as int, m),
{
    s.insert(i, m);
}

proof fn lemma_remove_insert(s: Seq<DisplayMessage>, i: int, m: DisplayMessage)
    requires
        0 <= i < s.len(),
    ensures
        s.remove(i).insert(i, m) == s.update(i, m),
{
    assert(s.remove(i).insert(i, m) =~= s.update(i, m));
}

/// Mark the first message with the given id deleted.
pub fn mark_deleted(s: &mut Vec<DisplayMessage>, id: &str)
    ensures
        update_first(old(s)@, id@, final(s)@, |m: DisplayMessage| deleted(m)),
{
    match find_message(s, id) {
        Some(i) => {
            let m = take_at(s, i);
            put_at(s, i, DisplayMessage { deleted: true, ..m });
            proof {
                lemma_remove_insert(old(s)@, i as int, deleted(m));
            }
            assert(first_msg(old(s)@, id@, i as int));
        },
        None => {},
    }
}

/// Give the first message with the given id new content and an edit time.
pub fn mark_edited(s: &mut Vec<DisplayMessage>, id: &str, content: String, at: i64)
    ensures
        update_first(old(s)@, id@, final(s)@, |m: DisplayMessage| edited(m, content, at)),
{
    match find_message(s, id) {
        Some(i) => {
            let m = take_at(s, i);
            put_at(s, i, DisplayMessage { content, edited_at: Some(at), ..m });
            proof {
                lemma_remove_insert(old(s)@, i as int, edited(m, content, at));
            }
            assert(first_msg(old(s)@, id@, i as int));
        },
        None => {},
    }
}

/// Mark the first message with the given id deleted, replacing its content.
pub fn mark_erased(s: &mut Vec<DisplayMessage>, id: &str, notice: String)
    ensures
        update_first(old(s)@, id@, final(s)@, |m: DisplayMessage| erased(m, notice)),
{
    match find_message(s, id) {
        Some(i) => {
            let m = take_at(s, i);
            put_at(s, i, DisplayMessage { deleted: true, content: notice, ..m });
            proof {
                lemma_remove_insert(old(s)@, i as int, erased(m, notice));
            }
            assert(first_msg(old(s)@, id@, i as int));
        },
        None => {},
    }
}

/// Set the pin flag of the first message with the given id.
pub fn mark_pinned(s: &mut Vec<DisplayMessage>, id: &str, pinned: bool)
    ensures
        update_first(old(s)@, id@, final(s)@, |m: DisplayMessage| DisplayMessage { pinned, ..m }),
{
    match find_message(s, id) {
        Some(i) => {
            let m = take_at(s, i);
            put_at(s, i, DisplayMessage { pinned, ..m });
            proof {
                lemma_remove_insert(old(s)@, i as int, DisplayMessage { pinned, ..m });
            }
            assert(first_msg(old(s)@, id@, i as int));
        },
        None => {},
    }
}

/// Set the delivery status of the first message with the given id.
pub fn mark_status(s: &mut Vec<DisplayMessage>, id: &str, status: String)
    ensures
        update_first(
            old(s)@,
            id@,
            final(s)@,
            |m: DisplayMessage| DisplayMessage { status, ..m },
        ),
{
    match find_message(s, id) {
        Some(i) => {
            let m = take_at(s, i);
            put_at(s, i, DisplayMessage { status, ..m });
            proof {
                lemma_remove_insert(old(s)@, i as int, DisplayMessage { status, ..m });
            }
            assert(first_msg(old(s)@, id@, i as int));
        },
        None => {},
    }
}

/// Replace the reactions of the first message with the given id.
pub fn mark_reactions(s: &mut Vec<DisplayMessage>, id: &str, reactions: Vec<(String, usize)>)
    ensures
        update_first(
            old(s)@,
            id@,
            final(s)@,
            |m: DisplayMessage| DisplayMessage { reactions, ..m },
        ),
{
    match find_message(s, id) {
        Some(i) => {
            let m = take_at(s, i);
            put_at(s, i, DisplayMessage { reactions, ..m });
            proof {
                lemma_remove_insert(old(s)@, i as int, DisplayMessage { reactions, ..m });
            }
            assert(first_msg(old(s)@, id@, i as int));
        },
        None => {},
    }
}

/// `i` is the first group with the given id.
pub open spec fn first_group(s: Seq<GroupEntry>, id: Seq<char>, i: int) -> bool {
    &&& 0 <= i < s.len()
    &&& s[i].id@ == id
    &&& forall|j: int| 0 <= j < i ==> s[j].id@ != id
}

/// The DIDs of the members of the first group with id `g`, without `me`,
/// in member order (empty when there is no such group).
pub open spec fn group_recipients(groups: Seq<GroupEntry>, g: Seq<char>, me: Seq<char>) -> Seq<
    String,
> {
    if exists|i: int| #[trigger] first_group(groups, g, i) {
        let i = choose|i: int| #[trigger] first_group(groups, g, i);
        others(groups[i].members@, me)
    } else {
        Seq::empty()
    }
}

/// The DIDs of the given members other than `me`.
pub open spec fn others(members: Seq<GroupMemberEntry>, me: Seq<char>) -> Seq<String> {
    members.filter(|m: GroupMemberEntry| m.did@ != me).map_values(|m: GroupMemberEntry| m.did)
}

/// DIDs of the group's other members.
pub fn recipients_of(groups: &Vec<GroupEntry>, g: &str, me: &str) -> (r: Vec<String>)
    ensures
        r@ == group_recipients(groups@, g@, me@),
{
    let mut i: usize = 0;
    while i < groups.len()
        invariant
            i <= groups@.len(),
            forall|j: int| 0 <= j < i ==> groups@[j].id@ != g@,
        decreases groups@.len() - i,
    {
        if crate::text::str_eq(groups[i].id.as_str(), g) {
            assert(first_group(groups@, g@, i as int));
            proof {
                let k = choose|k: int| #[trigger] first_group(groups@, g@, k);
                assert(k == i) by {
                    if k < i {
                    } else if k > i {
                        assert(groups@[i as int].id@ == g@);
                    }
                }
            }
            return members_except(&groups[i].members, me);
        }
        i = i + 1;
    }
    assert forall|k: int| !first_group(groups@, g@, k) by {}
    Vec::new()
}

/// DIDs of the members other than `me`, in order.
pub fn members_except(members: &Vec<GroupMemberEntry>, me: &str) -> (r: Vec<String>)
    ensures
        r@ == others(members@, me@),
{
    let ghost pred = |m: GroupMemberEntry| m.did@ != me@;
    let mut kept: Vec<String> = Vec::new();
    let mut i: usize = 0;
    proof {
        assert(members@.subrange(0, 0).filter(pred) =~= Seq::<GroupMemberEntry>::empty()) by {
            reveal(Seq::filter);
        }
    }
    while i < members.len()
        invariant
            i <= members@.len(),
            kept@ == members@.subrange(0, i as int).filter(pred).map_values(
                |m: GroupMemberEntry| m.did,
            ),
            pred == (|m: GroupMemberEntry| m.did@ != me@),
        decreases members@.len() - i,
    {
        let ghost s = members@.subrange(0, i as int);
        proof {
            assert(members@.subrange(0, i + 1) =~= s.push(members@[i as int]));
            lemma_filter_push(s, pred, members@[i as int]);
        }
        if !crate::text::str_eq(members[i].did.as_str(), me) {
            kept.push(members[i].did.clone());
            proof {
                assert(kept@ =~= s.filter(pred).push(members@[i as int]).map_values(
                    |m: GroupMemberEntry| m.did,
                ));
            }
        }
        i = i + 1;
    }
    proof {
        assert(members@.subrange(0, members@.len() as int) =~= members@);
    }
    kept
}

/// The friend at the active conversation, if any.
pub open spec fn friend_at(friends: Seq<FriendEntry>, idx: Option<usize>) -> Option<FriendEntry> {
    match idx {
        Some(i) => if i < friends.len() {
            Some(friends[i as int])
        } else {
            None
        },
        None => None,
    }
}

} // verus!
