//! Loaded groups and community layouts, arranged for the sidebar: groups
//! by recent activity, and a community's spaces, categories and channels
//! as one tree.

use vstd::prelude::*;
use crate::app::{App, AppView, ChatView, CommView};
use crate::effects::Effect;
use crate::types::{CategoryEntry, ChannelTreeItem, GroupEntry, SpaceEntry};

verus! {

// ── Groups by recent activity ───────────────────────────────────────

/// When a group last saw a message (0 when never).
pub open spec fn activity(g: GroupEntry) -> i64 {
    match g.last_message_at {
        Some(t) => t,
        None => 0,
    }
}

/// The groups are ordered from the most recently active.
pub open spec fn by_recent_activity(s: Seq<GroupEntry>) -> bool {
    forall|i: int, j: int| 0 <= i < j < s.len() ==> activity(#[trigger] s[i]) >= activity(#[trigger] s[j])
}

/// The groups of a list that were last active at `a`, in their order.
pub open spec fn with_activity(s: Seq<GroupEntry>, a: i64) -> Seq<GroupEntry> {
    s.filter(|g: GroupEntry| activity(g) == a)
}

proof fn lemma_with_activity_push(s: Seq<GroupEntry>, x: GroupEntry, a: i64)
    ensures
        with_activity(s.push(x), a) == if activity(x) == a {
            with_activity(s, a).push(x)
        } else {
            with_activity(s, a)
        },
{
    reveal(Seq::filter);
    assert(s.push(x).drop_last() =~= s);
}

proof fn lemma_with_activity_none(s: Seq<GroupEntry>, a: i64)
    requires
        forall|j: int| 0 <= j < s.len() ==> activity(#[trigger] s[j]) != a,
    ensures
        with_activity(s, a) == Seq::<GroupEntry>::empty(),
    decreases s.len(),
{
    reveal(Seq::filter);
    if s.len() > 0 {
        let d = s.drop_last();
        assert forall|j: int| 0 <= j < d.len() implies activity(#[trigger] d[j]) != a by {
            assert(d[j] == s[j]);
        }
        lemma_with_activity_none(d, a);
        assert(activity(s[s.len() - 1]) != a);
    }
}

proof fn lemma_insert_after_ties(before: Seq<GroupEntry>, p: int, x: GroupEntry, a: i64)
    requires
        0 <= p <= before.len(),
        forall|j: int| p <= j < before.len() ==> activity(#[trigger] before[j]) < activity(x),
    ensures
        with_activity(before.insert(p, x), a) == if activity(x) == a {
            with_activity(before, a).push(x)
        } else {
            with_activity(before, a)
        },
{
    let head = before.subrange(0, p);
    let tail = before.subrange(p, before.len() as int);
    let pred = |g: GroupEntry| activity(g) == a;
    assert(before.insert(p, x) =~= head + seq![x] + tail);
    assert(before =~= head + tail);
    Seq::filter_distributes_over_add(head + seq![x], tail, pred);
    Seq::filter_distributes_over_add(head, seq![x], pred);
    Seq::filter_distributes_over_add(head, tail, pred);
    assert(seq![x] =~= Seq::<GroupEntry>::empty().push(x));
    lemma_with_activity_push(Seq::<GroupEntry>::empty(), x, a);
    reveal(Seq::filter);
    assert(Seq::<GroupEntry>::empty().filter(pred) =~= Seq::<GroupEntry>::empty());
    if activity(x) == a {
        assert forall|j: int| 0 <= j < tail.len() implies activity(#[trigger] tail[j]) != a by {
            assert(tail[j] == before[p + j]);
        }
        lemma_with_activity_none(tail, a);
        assert(with_activity(head, a) + seq![x] =~= with_activity(head, a).push(x));
        assert(with_activity(head, a) + Seq::<GroupEntry>::empty() =~= with_activity(head, a));
    } else {
        assert(with_activity(head, a) + Seq::<GroupEntry>::empty() =~= with_activity(head, a));
    }
}

fn activity_of(g: &GroupEntry) -> (r: i64)
    ensures
        r == activity(*g),
{
    match g.last_message_at {
        Some(t) => t,
        None => 0,
    }
}

/// The groups ordered from the most recently active; groups equally
/// active keep their order.
pub fn order_by_activity(v: Vec<GroupEntry>) -> (r: Vec<GroupEntry>)
    ensures
        by_recent_activity(r@),
        r@.to_multiset() == v@.to_multiset(),
        forall|a: i64| #[trigger] with_activity(r@, a) == with_activity(v@, a),
{
    let ghost orig = v@;
    let total = v.len();
    let mut rest = v;
    let mut out: Vec<GroupEntry> = Vec::new();
    let mut k: usize = 0;
    proof {
        assert(orig.subrange(0, 0) =~= Seq::<GroupEntry>::empty());
        assert(out@ =~= Seq::<GroupEntry>::empty());
        assert(out@ =~= orig.subrange(0, 0));
    }
    while rest.len() > 0
        invariant
            k <= orig.len(),
            orig.len() == total,
            rest@ == orig.subrange(k as int, orig.len() as int),
            by_recent_activity(out@),
            out@.to_multiset() == orig.subrange(0, k as int).to_multiset(),
            forall|a: i64| #[trigger] with_activity(out@, a) == with_activity(orig.subrange(0, k as int), a),
        decreases rest@.len(),
    {
        let x = rest.remove(0);
        proof {
            assert(x == orig[k as int]);
            assert(rest@ =~= orig.subrange(k + 1, orig.len() as int));
        }
        let kx = activity_of(&x);
        let mut p: usize = 0;
        while p < out.len() && activity_of(&out[p]) >= kx
            invariant
                p <= out@.len(),
                forall|j: int| 0 <= j < p ==> activity(#[trigger] out@[j]) >= kx,
            decreases out@.len() - p,
        {
            p = p + 1;
        }
        let ghost before = out@;
        out.insert(p, x);
        proof {
            assert forall|i: int, j: int| 0 <= i < j < out@.len() implies activity(#[trigger] out@[i])
                >= activity(#[trigger] out@[j]) by {
                if j < p {
                    assert(out@[i] == before[i] && out@[j] == before[j]);
                } else if j == p {
                    assert(out@[i] == before[i]);
                } else if i < p {
                    assert(out@[i] == before[i] && out@[j] == before[j - 1]);
                    assert(activity(before[j - 1]) <= activity(before[p as int]));
                } else if i == p {
                    assert(out@[j] == before[j - 1]);
                    assert(activity(before[j - 1]) <= activity(before[p as int]));
                } else {
                    assert(out@[i] == before[i - 1] && out@[j] == before[j - 1]);
                }
            }
            assert forall|j: int| p <= j < before.len() implies activity(#[trigger] before[j]) < kx by {
                if j > p {
                    assert(activity(before[p as int]) >= activity(before[j]));
                }
            }
            assert forall|a: i64| #[trigger] with_activity(out@, a) == with_activity(orig.subrange(0, k + 1), a) by {
                lemma_insert_after_ties(before, p as int, x, a);
                assert(orig.subrange(0, k + 1) =~= orig.subrange(0, k as int).push(x));
                lemma_with_activity_push(orig.subrange(0, k as int), x, a);
            }
            vstd::seq_lib::to_multiset_insert(before, p as int, x);
            assert(orig.subrange(0, k + 1) =~= orig.subrange(0, k as int).push(x));
            vstd::seq_lib::to_multiset_build(orig.subrange(0, k as int), x);
        }
        k = k + 1;
    }
    proof {
        assert(orig.subrange(0, orig.len() as int) =~= orig);
    }
    out
}

// ── The channel tree ────────────────────────────────────────────────

/// The tree rows of a category: the category, then its channels.
pub open spec fn category_rows(c: CategoryEntry) -> Seq<ChannelTreeItem> {
    seq![ChannelTreeItem::Category { id: c.id, name: c.name }] + c.channels@.map_values(
        |ch: crate::types::ChannelEntry|
            ChannelTreeItem::Channel { id: ch.id, name: ch.name, channel_type: ch.channel_type },
    )
}

/// The tree rows of categories, in order.
pub open spec fn categories_rows(cs: Seq<CategoryEntry>) -> Seq<ChannelTreeItem>
    decreases cs.len(),
{
    if cs.len() == 0 {
        seq![]
    } else {
        categories_rows(cs.drop_last()) + category_rows(cs.last())
    }
}

/// The tree rows of a space: the space, then its categories.
pub open spec fn space_rows(s: SpaceEntry) -> Seq<ChannelTreeItem> {
    seq![ChannelTreeItem::Space { id: s.id, name: s.name }] + categories_rows(s.categories@)
}

/// The whole tree: spaces in order, each followed by its categories, each
/// followed by its channels.
pub open spec fn tree_of(spaces: Seq<SpaceEntry>) -> Seq<ChannelTreeItem>
    decreases spaces.len(),
{
    if spaces.len() == 0 {
        seq![]
    } else {
        tree_of(spaces.drop_last()) + space_rows(spaces.last())
    }
}

/// The row is a text channel.
pub open spec fn is_text_channel(r: ChannelTreeItem) -> bool {
    match r {
        ChannelTreeItem::Channel { channel_type, .. } => channel_type@ == "text"@,
        _ => false,
    }
}

/// `i` is the first text channel of the tree.
pub open spec fn first_text_channel(t: Seq<ChannelTreeItem>, i: int) -> bool {
    &&& 0 <= i < t.len()
    &&& is_text_channel(t[i])
    &&& forall|j: int| 0 <= j < i ==> !is_text_channel(#[trigger] t[j])
}

fn push_category(tree: &mut Vec<ChannelTreeItem>, c: &CategoryEntry)
    ensures
        final(tree)@ == old(tree)@ + category_rows(*c),
{
    let ghost start = tree@;
    tree.push(ChannelTreeItem::Category { id: c.id.clone(), name: c.name.clone() });
    let mut k: usize = 0;
    while k < c.channels.len()
        invariant
            k <= c.channels@.len(),
            tree@ == start + seq![ChannelTreeItem::Category { id: c.id, name: c.name }]
                + c.channels@.subrange(0, k as int).map_values(
                |ch: crate::types::ChannelEntry|
                    ChannelTreeItem::Channel { id: ch.id, name: ch.name, channel_type: ch.channel_type },
            ),
        decreases c.channels@.len() - k,
    {
        let ch = &c.channels[k];
        tree.push(
            ChannelTreeItem::Channel {
                id: ch.id.clone(),
                name: ch.name.clone(),
                channel_type: ch.channel_type.clone(),
            },
        );
        k = k + 1;
        proof {
            assert(c.channels@.subrange(0, k as int).map_values(
                |ch: crate::types::ChannelEntry|
                    ChannelTreeItem::Channel { id: ch.id, name: ch.name, channel_type: ch.channel_type },
            ) =~= c.channels@.subrange(0, k - 1).map_values(
                |ch: crate::types::ChannelEntry|
                    ChannelTreeItem::Channel { id: ch.id, name: ch.name, channel_type: ch.channel_type },
            ).push(
                ChannelTreeItem::Channel {
                    id: c.channels@[k - 1].id,
                    name: c.channels@[k - 1].name,
                    channel_type: c.channels@[k - 1].channel_type,
                },
            ));
        }
    }
    assert(c.channels@.subrange(0, c.channels@.len() as int) =~= c.channels@);
}

fn push_space(tree: &mut Vec<ChannelTreeItem>, s: &SpaceEntry)
    ensures
        final(tree)@ == old(tree)@ + space_rows(*s),
{
    let ghost start = tree@;
    tree.push(ChannelTreeItem::Space { id: s.id.clone(), name: s.name.clone() });
    let mut k: usize = 0;
    while k < s.categories.len()
        invariant
            k <= s.categories@.len(),
            tree@ == start + seq![ChannelTreeItem::Space { id: s.id, name: s.name }]
                + categories_rows(s.categories@.subrange(0, k as int)),
        decreases s.categories@.len() - k,
    {
        push_category(tree, &s.categories[k]);
        proof {
            let cs = s.categories@.subrange(0, k + 1);
            assert(cs.drop_last() =~= s.categories@.subrange(0, k as int));
        }
        k = k + 1;
    }
    assert(s.categories@.subrange(0, s.categories@.len() as int) =~= s.categories@);
}

/// The tree of a community's spaces.
pub fn channel_tree_of(spaces: &Vec<SpaceEntry>) -> (r: Vec<ChannelTreeItem>)
    ensures
        r@ == tree_of(spaces@),
{
    let mut tree: Vec<ChannelTreeItem> = Vec::new();
    let mut i: usize = 0;
    proof {
        assert(spaces@.subrange(0, 0) =~= Seq::<SpaceEntry>::empty());
    }
    while i < spaces.len()
        invariant
            i <= spaces@.len(),
            tree@ == tree_of(spaces@.subrange(0, i as int)),
        decreases spaces@.len() - i,
    {
        push_space(&mut tree, &spaces[i]);
        proof {
            let ss = spaces@.subrange(0, i + 1);
            assert(ss.drop_last() =~= spaces@.subrange(0, i as int));
        }
        i = i + 1;
    }
    assert(spaces@.subrange(0, spaces@.len() as int) =~= spaces@);
    tree
}

/// Position of the first text channel of the tree.
pub fn first_text_channel_in(t: &Vec<ChannelTreeItem>) -> (r: Option<usize>)
    ensures
        match r {
            Some(i) => first_text_channel(t@, i as int),
            None => forall|i: int| !first_text_channel(t@, i),
        },
{
    let mut i: usize = 0;
    while i < t.len()
        invariant
            i <= t@.len(),
            forall|j: int| 0 <= j < i ==> !is_text_channel(#[trigger] t@[j]),
        decreases t@.len() - i,
    {
        let hit = match &t[i] {
            ChannelTreeItem::Channel { channel_type, .. } => crate::text::str_eq(channel_type.as_str(), "text"),
            _ => false,
        };
        if hit {
            return Some(i);
        }
        i = i + 1;
    }
    None
}

/// The loaded layout of the community being opened: its tree replaces the
/// old one with the first row selected, and its first text channel (if
/// any) opens, its messages loaded afterwards.
pub open spec fn structure_loaded(pre: AppView, spaces: Seq<SpaceEntry>, post: AppView) -> bool {
    let t = tree_of(spaces);
    let base = AppView {
        comm: CommView { community_spaces: spaces, channel_tree: t, selected_channel_item: 0, ..pre.comm },
        ..pre
    };
    if exists|i: int| #[trigger] first_text_channel(t, i) {
        let i = choose|i: int| #[trigger] first_text_channel(t, i);
        match t[i] {
            ChannelTreeItem::Channel { id, name, .. } => post == (AppView {
                comm: CommView { active_channel: Some(id), active_channel_name: Some(name), ..base.comm },
                effects: pre.effects.push(Effect::LoadChannelMessages { channel_id: id }),
                ..base
            }),
            _ => false,
        }
    } else {
        post == base
    }
}

impl App {
    /// The stored groups, ordered from the most recently active.
    pub fn set_groups(&mut self, groups: Vec<GroupEntry>)
        ensures
            old(self)@.wf() ==> final(self)@.wf(),
            final(self)@ == (AppView { chat: ChatView { groups: final(self)@.chat.groups, ..old(self)@.chat }, ..old(self)@ }),
            by_recent_activity(final(self)@.chat.groups),
            final(self)@.chat.groups.to_multiset() == groups@.to_multiset(),
            forall|a: i64| #[trigger] with_activity(final(self)@.chat.groups, a) == with_activity(groups@, a),
    {
        self.chat.groups = order_by_activity(groups);
    }

    /// The loaded spaces of the community being opened.
    pub fn set_community_structure(&mut self, spaces: Vec<SpaceEntry>)
        ensures
            old(self)@.wf() ==> final(self)@.wf(),
            structure_loaded(old(self)@, spaces@, final(self)@),
    {
        let tree = channel_tree_of(&spaces);
        let first = first_text_channel_in(&tree);
        let picked = match first {
            Some(i) => match &tree[i] {
                ChannelTreeItem::Channel { id, name, .. } => Some((id.clone(), name.clone())),
                _ => None,
            },
            None => None,
        };
        proof {
            if let Some(i) = first {
                let k = choose|k: int| #[trigger] first_text_channel(tree@, k);
                assert(k == i) by {
                    if k > i {
                        assert(first_text_channel(tree@, i as int));
                    } else if k < i {
                        assert(first_text_channel(tree@, k));
                    }
                }
            }
        }
        self.comm.community_spaces = spaces;
        self.comm.channel_tree = tree;
        self.comm.selected_channel_item = 0;
        if let Some((id, name)) = picked {
            self.comm.active_channel = Some(id.clone());
            self.comm.active_channel_name = Some(name);
            self.push_effect(Effect::LoadChannelMessages { channel_id: id });
        }
    }
}

} // verus!
