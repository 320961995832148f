//! The add-friend and friend-request screens.

use vstd::prelude::*;
use crate::app::{App, AppView, SearchView, Session};
use crate::effects::Effect;
use crate::keys::{KeyCode, KeyEvent};
use crate::onboarding::with_error;
use crate::text::trim;
use crate::types::{
    AsyncAction, BlockedEntry, ChatFocus, FriendEntry, FriendRequestEntry, RequestTab, Screen,
    SearchResult,
};

verus! {

// ── Add friend ──────────────────────────────────────────────────────

/// The name a friend request is sent under: the username, else the DID.
pub open spec fn request_name(r: SearchResult) -> Seq<char> {
    match r.username {
        Some(u) => u@,
        None => r.did@,
    }
}

/// Some friend has this DID.
pub open spec fn is_friend(friends: Seq<FriendEntry>, did: Seq<char>) -> bool {
    exists|i: int| 0 <= i < friends.len() && #[trigger] friends[i].did@ == did
}

/// The search with no results.
pub open spec fn results_cleared(v: AppView) -> AppView {
    AppView { search: SearchView { search_results: Seq::empty(), selected_result: 0, ..v.search }, ..v }
}

/// Back on the chat screen with the sidebar focused and nothing open.
pub open spec fn chat_again(s: Screen) -> Screen {
    match s {
        Screen::AddFriend { info, friends, selected_friend } => Screen::Chat {
            info,
            focus: ChatFocus::Sidebar,
            friends,
            selected_friend,
            active_conversation: None,
        },
        Screen::FriendRequests { info, friends, selected_friend, .. } => Screen::Chat {
            info,
            focus: ChatFocus::Sidebar,
            friends,
            selected_friend,
            active_conversation: None,
        },
        _ => s,
    }
}

/// A key on the add-friend screen: type a query and search; pick a result
/// and ask for it to be checked before a request goes out.
pub open spec fn add_friend_step(pre: AppView, key: KeyEvent, post: AppView, r: Option<AsyncAction>) -> bool {
    let res = pre.search.search_results;
    let sel = pre.search.selected_result;
    match key.code {
        KeyCode::Enter => if res.len() > 0 {
            &&& r is None
            &&& if sel < res.len() {
                match pre.screen {
                    Screen::AddFriend { friends, .. } => if is_friend(friends@, res[sel as int].did@) {
                        with_error(pre, post, "Already in your friends list"@)
                    } else {
                        post == (AppView {
                            effects: pre.effects.push(Effect::CheckRequestTarget { did: res[sel as int].did }),
                            ..pre
                        })
                    },
                    _ => post == pre,
                }
            } else {
                post == pre
            }
        } else {
            let q = trim(pre.entry.input);
            if q.len() == 0 {
                r is None && with_error(pre, post, "Enter a username or DID"@)
            } else {
                &&& r matches Some(AsyncAction::SearchUser { query }) && query@ == q
                &&& post == (AppView { search: SearchView { searching: true, ..pre.search }, ..pre })
            }
        },
        KeyCode::Up => r is None && if res.len() > 0 && sel > 0 {
            post == (AppView { search: SearchView { selected_result: (sel - 1) as usize, ..pre.search }, ..pre })
        } else {
            post == pre
        },
        KeyCode::Down => r is None && if sel + 1 < res.len() {
            post == (AppView { search: SearchView { selected_result: (sel + 1) as usize, ..pre.search }, ..pre })
        } else {
            post == pre
        },
        KeyCode::Esc => r is None && if res.len() > 0 {
            post == results_cleared(pre)
        } else {
            post == (AppView { screen: chat_again(pre.screen), ..pre })
        },
        _ => r is None && post == (if res.len() > 0 {
            results_cleared(pre)
        } else {
            pre
        }).text_input_step(key.code),
    }
}

/// The answer about the chosen result: a blocked user or one with a
/// pending request is refused; otherwise the request goes out under a new
/// id, and we are back on the chat screen.
pub open spec fn request_checked_step(pre: AppView, blocked: bool, pending: bool, post: AppView) -> bool {
    let res = pre.search.search_results;
    let sel = pre.search.selected_result;
    match pre.screen {
        Screen::AddFriend { info, friends, selected_friend } => if sel < res.len() {
            let t = res[sel as int];
            if blocked {
                with_error(pre, post, "This user is blocked"@)
            } else if pending {
                with_error(pre, post, "Request already pending"@)
            } else {
                &&& post.effects.len() == pre.effects.len() + 1
                &&& post.effects.drop_last() == pre.effects
                &&& post.effects.last() matches Effect::SendFriendRequest {
                    request_id,
                    did,
                    display_name,
                    username,
                }
                &&& request_id@.len() == 36 && did == t.did && display_name@ == request_name(t)
                &&& username == t.username
                &&& post.session.error_message matches Some(m) && m@ == "Friend request sent to "@
                    + request_name(t)
                &&& post == (AppView {
                    screen: Screen::Chat {
                        info,
                        focus: ChatFocus::Sidebar,
                        friends,
                        selected_friend,
                        active_conversation: None,
                    },
                    search: SearchView { search_results: Seq::empty(), selected_result: 0, searching: false },
                    session: Session { error_message: post.session.error_message, ..pre.session },
                    effects: post.effects,
                    ..pre
                })
            }
        } else {
            post == pre
        },
        _ => post == pre,
    }
}

pub fn is_friend_in(friends: &Vec<FriendEntry>, did: &str) -> (r: bool)
    ensures
        r == is_friend(friends@, did@),
{
    let mut i: usize = 0;
    while i < friends.len()
        invariant
            i <= friends@.len(),
            forall|j: int| 0 <= j < i ==> friends@[j].did@ != did@,
        decreases friends@.len() - i,
    {
        if crate::text::str_eq(friends[i].did.as_str(), did) {
            return true;
        }
        i = i + 1;
    }
    false
}

// ── Friend requests ─────────────────────────────────────────────────

/// The requests shown in a tab.
pub open spec fn in_tab(s: Seq<FriendRequestEntry>, tab: RequestTab) -> Seq<FriendRequestEntry> {
    s.filter(|r: FriendRequestEntry| r.direction == tab)
}

/// The requests other than the one with this id.
pub open spec fn without_request(s: Seq<FriendRequestEntry>, id: Seq<char>) -> Seq<FriendRequestEntry> {
    s.filter(|r: FriendRequestEntry| r.id@ != id)
}

/// The requests that do not involve this DID.
pub open spec fn requests_without(s: Seq<FriendRequestEntry>, did: Seq<char>) -> Seq<FriendRequestEntry> {
    s.filter(|r: FriendRequestEntry| r.did@ != did)
}

/// The friends other than this DID.
pub open spec fn friends_without(s: Seq<FriendEntry>, did: Seq<char>) -> Seq<FriendEntry> {
    s.filter(|f: FriendEntry| f.did@ != did)
}

/// The blocked users other than this DID.
pub open spec fn blocked_without(s: Seq<BlockedEntry>, did: Seq<char>) -> Seq<BlockedEntry> {
    s.filter(|b: BlockedEntry| b.did@ != did)
}

/// The tab after Tab.
pub open spec fn next_tab(t: RequestTab) -> RequestTab {
    match t {
        RequestTab::Incoming => RequestTab::Outgoing,
        RequestTab::Outgoing => RequestTab::Blocked,
        RequestTab::Blocked => RequestTab::Incoming,
    }
}

/// A friend made from an accepted request.
pub open spec fn friend_from(r: FriendRequestEntry) -> FriendEntry {
    FriendEntry {
        did: r.did,
        display_name: r.display_name,
        username: r.username,
        encryption_key: r.encryption_key,
        signing_key: r.signing_key,
    }
}

/// `s` is the friend requests screen with these parts.
pub open spec fn requests_screen(
    s: Screen,
    info: crate::types::DashboardInfo,
    friends: Seq<FriendEntry>,
    sf: usize,
    requests: Seq<FriendRequestEntry>,
    sr: usize,
    tab: RequestTab,
    blocked: Seq<BlockedEntry>,
) -> bool {
    &&& s matches Screen::FriendRequests {
        info: i,
        friends: f,
        selected_friend: s2,
        requests: r,
        selected_request: sr2,
        active_tab: t,
        blocked: b,
    }
    &&& i == info && f@ == friends && s2 == sf && r@ == requests && sr2 == sr && t == tab
    &&& b@ == blocked
}

/// `post` has a new screen, one more effect `e` and a message `m`, and is
/// otherwise `pre`.
pub open spec fn screen_effect_message(pre: AppView, post: AppView, e: Effect, m: Seq<char>) -> bool {
    &&& post.effects == pre.effects.push(e)
    &&& post.session.error_message matches Some(x) && x@ == m
    &&& post == (AppView {
        screen: post.screen,
        effects: post.effects,
        session: Session { error_message: post.session.error_message, ..pre.session },
        ..pre
    })
}

/// A key on the friend requests screen.
pub open spec fn requests_step(pre: AppView, code: KeyCode, post: AppView) -> bool {
    match pre.screen {
        Screen::FriendRequests {
            info,
            friends,
            selected_friend: sf,
            requests,
            selected_request: sr,
            active_tab: tab,
            blocked,
        } => {
            let same = |p: AppView| p == (AppView { screen: p.screen, ..pre });
            let shown = in_tab(requests@, tab);
            match code {
                KeyCode::Tab => same(post) && requests_screen(
                    post.screen,
                    info,
                    friends@,
                    sf,
                    requests@,
                    0,
                    next_tab(tab),
                    blocked@,
                ),
                KeyCode::Up => same(post) && requests_screen(
                    post.screen,
                    info,
                    friends@,
                    sf,
                    requests@,
                    if sr > 0 {
                        (sr - 1) as usize
                    } else {
                        sr
                    },
                    tab,
                    blocked@,
                ),
                KeyCode::Down => {
                    let count = if tab == RequestTab::Blocked {
                        blocked@.len()
                    } else {
                        shown.len()
                    };
                    same(post) && requests_screen(
                        post.screen,
                        info,
                        friends@,
                        sf,
                        requests@,
                        if sr + 1 < count {
                            (sr + 1) as usize
                        } else {
                            sr
                        },
                        tab,
                        blocked@,
                    )
                },
                KeyCode::Esc => post == (AppView { screen: chat_again(pre.screen), ..pre }),
                KeyCode::Enter => accept_step(pre, post),
                KeyCode::Char(k) => if k == 'a' {
                    accept_step(pre, post)
                } else if k == 'x' {
                    if (tab == RequestTab::Incoming || tab == RequestTab::Outgoing) && sr < shown.len() {
                        let q = shown[sr as int];
                        &&& requests_screen(
                            post.screen,
                            info,
                            friends@,
                            sf,
                            without_request(requests@, q.id@),
                            0,
                            tab,
                            blocked@,
                        )
                        &&& screen_effect_message(
                            pre,
                            post,
                            Effect::DeleteFriendRequest { id: q.id },
                            if tab == RequestTab::Incoming {
                                "Rejected request from "@ + q.display_name@
                            } else {
                                "Cancelled request to "@ + q.display_name@
                            },
                        )
                    } else {
                        post == pre
                    }
                } else if k == 'b' {
                    if (tab == RequestTab::Incoming || tab == RequestTab::Outgoing) && sr < shown.len() {
                        let q = shown[sr as int];
                        &&& requests_screen(
                            post.screen,
                            info,
                            friends_without(friends@, q.did@),
                            sf,
                            requests_without(requests@, q.did@),
                            0,
                            tab,
                            blocked@.push(
                                BlockedEntry {
                                    did: q.did,
                                    display_name: Some(q.display_name),
                                    username: q.username,
                                },
                            ),
                        )
                        &&& screen_effect_message(
                            pre,
                            post,
                            Effect::BlockUser {
                                did: q.did,
                                display_name: Some(q.display_name),
                                username: q.username,
                            },
                            "Blocked "@ + q.display_name@,
                        )
                    } else {
                        post == pre
                    }
                } else if k == 'u' {
                    if tab == RequestTab::Blocked && sr < blocked@.len() {
                        let e = blocked@[sr as int];
                        let rest = blocked_without(blocked@, e.did@);
                        let shown_name = match e.display_name {
                            Some(n) => n@,
                            None => e.did@.subrange(
                                0,
                                if e.did@.len() < 16 {
                                    e.did@.len() as int
                                } else {
                                    16
                                },
                            ),
                        };
                        &&& requests_screen(
                            post.screen,
                            info,
                            friends@,
                            sf,
                            requests@,
                            crate::chatnav::selection_after_removal(sr, rest.len()),
                            tab,
                            rest,
                        )
                        &&& screen_effect_message(
                            pre,
                            post,
                            Effect::UnblockUser { did: e.did },
                            "Unblocked "@ + shown_name,
                        )
                    } else {
                        post == pre
                    }
                } else {
                    post == pre
                },
                _ => post == pre,
            }
        },
        _ => post == pre,
    }
}

/// Accepting the selected incoming request: the requester becomes the
/// first friend and the request disappears.
pub open spec fn accept_step(pre: AppView, post: AppView) -> bool {
    match pre.screen {
        Screen::FriendRequests {
            info,
            friends,
            selected_friend: sf,
            requests,
            selected_request: sr,
            active_tab: tab,
            blocked,
        } => {
            let shown = in_tab(requests@, RequestTab::Incoming);
            if tab == RequestTab::Incoming && sr < shown.len() {
                let q = shown[sr as int];
                &&& requests_screen(
                    post.screen,
                    info,
                    seq![friend_from(q)] + friends@,
                    sf,
                    without_request(requests@, q.id@),
                    0,
                    tab,
                    blocked@,
                )
                &&& screen_effect_message(
                    pre,
                    post,
                    Effect::AcceptFriendRequest { request: q },
                    q.display_name@ + " added as friend"@,
                )
            } else {
                post == pre
            }
        },
        _ => post == pre,
    }
}

/// Number of requests in a tab.
fn count_in_tab(s: &Vec<FriendRequestEntry>, tab: RequestTab) -> (n: usize)
    ensures
        n == in_tab(s@, tab).len(),
{
    let ghost pred = |r: FriendRequestEntry| r.direction == tab;
    let mut n: usize = 0;
    let mut i: usize = 0;
    proof {
        assert(s@.subrange(0, 0).filter(pred) =~= Seq::<FriendRequestEntry>::empty()) by {
            reveal(Seq::filter);
        }
    }
    while i < s.len()
        invariant
            i <= s@.len(),
            n == s@.subrange(0, i as int).filter(pred).len(),
            n <= i,
            pred == (|r: FriendRequestEntry| r.direction == tab),
        decreases s@.len() - i,
    {
        proof {
            assert(s@.subrange(0, i + 1) =~= s@.subrange(0, i as int).push(s@[i as int]));
            crate::lifecycle::lemma_filter_push(s@.subrange(0, i as int), pred, s@[i as int]);
        }
        if s[i].direction == tab {
            n = n + 1;
        }
        i = i + 1;
    }
    assert(s@.subrange(0, s@.len() as int) =~= s@);
    n
}

/// Position in `s` of the `k`-th request of a tab.
fn nth_in_tab(s: &Vec<FriendRequestEntry>, tab: RequestTab, k: usize) -> (r: Option<usize>)
    ensures
        match r {
            Some(j) => j < s@.len() && k < in_tab(s@, tab).len() && s@[j as int] == in_tab(s@, tab)[k as int],
            None => k >= in_tab(s@, tab).len(),
        },
{
    let ghost pred = |r: FriendRequestEntry| r.direction == tab;
    let mut n: usize = 0;
    let mut i: usize = 0;
    proof {
        assert(s@.subrange(0, 0).filter(pred) =~= Seq::<FriendRequestEntry>::empty()) by {
            reveal(Seq::filter);
        }
    }
    while i < s.len()
        invariant
            i <= s@.len(),
            n == s@.subrange(0, i as int).filter(pred).len(),
            n <= k,
            pred == (|r: FriendRequestEntry| r.direction == tab),
        decreases s@.len() - i,
    {
        let ghost pre_i = s@.subrange(0, i as int);
        proof {
            assert(s@.subrange(0, i + 1) =~= pre_i.push(s@[i as int]));
            crate::lifecycle::lemma_filter_push(pre_i, pred, s@[i as int]);
        }
        if s[i].direction == tab {
            if n == k {
                proof {
                    let a = s@.subrange(0, i + 1);
                    let b = s@.subrange(i + 1, s@.len() as int);
                    assert(s@ =~= a + b);
                    Seq::filter_distributes_over_add(a, b, pred);
                    assert(a.filter(pred)[k as int] == s@[i as int]);
                    assert((a.filter(pred) + b.filter(pred))[k as int] == a.filter(pred)[k as int]);
                }
                return Some(i);
            }
            n = n + 1;
        }
        i = i + 1;
    }
    assert(s@.subrange(0, s@.len() as int) =~= s@);
    None
}

/// A copy of a friend request.
fn copy_request(r: &FriendRequestEntry) -> (c: FriendRequestEntry)
    ensures
        c == *r,
{
    FriendRequestEntry {
        id: r.id.clone(),
        display_name: r.display_name.clone(),
        did: r.did.clone(),
        username: crate::text::dup_opt_string(&r.username),
        direction: r.direction,
        encryption_key: crate::text::dup_opt_string(&r.encryption_key),
        signing_key: crate::text::dup_opt_string(&r.signing_key),
    }
}

/// The requests other than the one with this id, in order.
fn drop_request_id(v: Vec<FriendRequestEntry>, id: &str) -> (r: Vec<FriendRequestEntry>)
    ensures
        r@ == without_request(v@, id@),
{
    let ghost pred = |r: FriendRequestEntry| r.id@ != id@;
    let ghost orig = v@;
    let total = v.len();
    let mut v = v;
    let mut out: Vec<FriendRequestEntry> = Vec::new();
    let mut k: usize = 0;
    proof {
        assert(orig.subrange(0, 0).filter(pred) =~= Seq::<FriendRequestEntry>::empty()) by {
            reveal(Seq::filter);
        }
        assert(orig.subrange(0, orig.len() as int) =~= orig);
    }
    while v.len() > 0
        invariant
            k <= orig.len(),
            orig.len() == total,
            v@ == orig.subrange(k as int, orig.len() as int),
            out@ == orig.subrange(0, k as int).filter(pred),
            pred == (|r: FriendRequestEntry| r.id@ != id@),
        decreases v@.len(),
    {
        let x = v.remove(0);
        proof {
            assert(x == orig[k as int]);
            assert(orig.subrange(0, k + 1) =~= orig.subrange(0, k as int).push(x));
            crate::lifecycle::lemma_filter_push(orig.subrange(0, k as int), pred, x);
            assert(v@ =~= orig.subrange(k + 1, orig.len() as int));
        }
        if !crate::text::str_eq(x.id.as_str(), id) {
            out.push(x);
        }
        k = k + 1;
    }
    assert(orig.subrange(0, orig.len() as int) =~= orig);
    out
}

/// The requests that do not involve this DID, in order.
fn drop_request_did(v: Vec<FriendRequestEntry>, did: &str) -> (r: Vec<FriendRequestEntry>)
    ensures
        r@ == requests_without(v@, did@),
{
    let ghost pred = |r: FriendRequestEntry| r.did@ != did@;
    let ghost orig = v@;
    let total = v.len();
    let mut v = v;
    let mut out: Vec<FriendRequestEntry> = Vec::new();
    let mut k: usize = 0;
    proof {
        assert(orig.subrange(0, 0).filter(pred) =~= Seq::<FriendRequestEntry>::empty()) by {
            reveal(Seq::filter);
        }
        assert(orig.subrange(0, orig.len() as int) =~= orig);
    }
    while v.len() > 0
        invariant
            k <= orig.len(),
            orig.len() == total,
            v@ == orig.subrange(k as int, orig.len() as int),
            out@ == orig.subrange(0, k as int).filter(pred),
            pred == (|r: FriendRequestEntry| r.did@ != did@),
        decreases v@.len(),
    {
        let x = v.remove(0);
        proof {
            assert(x == orig[k as int]);
            assert(orig.subrange(0, k + 1) =~= orig.subrange(0, k as int).push(x));
            crate::lifecycle::lemma_filter_push(orig.subrange(0, k as int), pred, x);
            assert(v@ =~= orig.subrange(k + 1, orig.len() as int));
        }
        if !crate::text::str_eq(x.did.as_str(), did) {
            out.push(x);
        }
        k = k + 1;
    }
    assert(orig.subrange(0, orig.len() as int) =~= orig);
    out
}

/// The friends other than this DID, in order.
fn drop_friend_did(v: Vec<FriendEntry>, did: &str) -> (r: Vec<FriendEntry>)
    ensures
        r@ == friends_without(v@, did@),
{
    let ghost pred = |f: FriendEntry| f.did@ != did@;
    let ghost orig = v@;
    let total = v.len();
    let mut v = v;
    let mut out: Vec<FriendEntry> = Vec::new();
    let mut k: usize = 0;
    proof {
        assert(orig.subrange(0, 0).filter(pred) =~= Seq::<FriendEntry>::empty()) by {
            reveal(Seq::filter);
        }
        assert(orig.subrange(0, orig.len() as int) =~= orig);
    }
    while v.len() > 0
        invariant
            k <= orig.len(),
            orig.len() == total,
            v@ == orig.subrange(k as int, orig.len() as int),
            out@ == orig.subrange(0, k as int).filter(pred),
            pred == (|f: FriendEntry| f.did@ != did@),
        decreases v@.len(),
    {
        let x = v.remove(0);
        proof {
            assert(x == orig[k as int]);
            assert(orig.subrange(0, k + 1) =~= orig.subrange(0, k as int).push(x));
            crate::lifecycle::lemma_filter_push(orig.subrange(0, k as int), pred, x);
            assert(v@ =~= orig.subrange(k + 1, orig.len() as int));
        }
        if !crate::text::str_eq(x.did.as_str(), did) {
            out.push(x);
        }
        k = k + 1;
    }
    assert(orig.subrange(0, orig.len() as int) =~= orig);
    out
}

/// The blocked users other than this DID, in order.
fn drop_blocked_did(v: Vec<BlockedEntry>, did: &str) -> (r: Vec<BlockedEntry>)
    ensures
        r@ == blocked_without(v@, did@),
{
    let ghost pred = |b: BlockedEntry| b.did@ != did@;
    let ghost orig = v@;
    let total = v.len();
    let mut v = v;
    let mut out: Vec<BlockedEntry> = Vec::new();
    let mut k: usize = 0;
    proof {
        assert(orig.subrange(0, 0).filter(pred) =~= Seq::<BlockedEntry>::empty()) by {
            reveal(Seq::filter);
        }
        assert(orig.subrange(0, orig.len() as int) =~= orig);
    }
    while v.len() > 0
        invariant
            k <= orig.len(),
            orig.len() == total,
            v@ == orig.subrange(k as int, orig.len() as int),
            out@ == orig.subrange(0, k as int).filter(pred),
            pred == (|b: BlockedEntry| b.did@ != did@),
        decreases v@.len(),
    {
        let x = v.remove(0);
        proof {
            assert(x == orig[k as int]);
            assert(orig.subrange(0, k + 1) =~= orig.subrange(0, k as int).push(x));
            crate::lifecycle::lemma_filter_push(orig.subrange(0, k as int), pred, x);
            assert(v@ =~= orig.subrange(k + 1, orig.len() as int));
        }
        if !crate::text::str_eq(x.did.as_str(), did) {
            out.push(x);
        }
        k = k + 1;
    }
    assert(orig.subrange(0, orig.len() as int) =~= orig);
    out
}

impl App {
    /// Back to the chat screen from the add-friend or friend requests screen.
    pub fn back_to_chat(&mut self)
        ensures
            final(self)@ == (AppView { screen: chat_again(old(self)@.screen), ..old(self)@ }),
    {
        let s = self.take_screen();
        self.screen = match s {
            Screen::AddFriend { info, friends, selected_friend } => Screen::Chat {
                info,
                focus: ChatFocus::Sidebar,
                friends,
                selected_friend,
                active_conversation: None,
            },
            Screen::FriendRequests { info, friends, selected_friend, .. } => Screen::Chat {
                info,
                focus: ChatFocus::Sidebar,
                friends,
                selected_friend,
                active_conversation: None,
            },
            other => other,
        };
    }

    /// Handle a key on the add-friend screen.
    pub fn handle_add_friend_key(&mut self, key: KeyEvent) -> (r: Option<AsyncAction>)
        requires
            old(self)@.wf(),
        ensures
            add_friend_step(old(self)@, key, final(self)@, r),
            final(self)@.wf(),
    {
        let n = self.search.search_results.len();
        let sel = self.search.selected_result;
        match key.code {
            KeyCode::Enter => {
                if n > 0 {
                    if sel < n {
                        let known = match &self.screen {
                            Screen::AddFriend { friends, .. } => Some(
                                is_friend_in(friends, self.search.search_results[sel].did.as_str()),
                            ),
                            _ => None,
                        };
                        match known {
                            Some(true) => self.set_error("Already in your friends list"),
                            Some(false) => {
                                let did = self.search.search_results[sel].did.clone();
                                self.push_effect(Effect::CheckRequestTarget { did });
                            },
                            None => {},
                        }
                    }
                    None
                } else {
                    let t = crate::text::trim_chars(&self.entry.input);
                    if t.len() == 0 {
                        self.set_error("Enter a username or DID");
                        None
                    } else {
                        self.search.searching = true;
                        Some(AsyncAction::SearchUser { query: crate::text::string_of(&t) })
                    }
                }
            },
            KeyCode::Up => {
                if n > 0 && sel > 0 {
                    self.search.selected_result = sel - 1;
                }
                None
            },
            KeyCode::Down => {
                if sel < n && sel + 1 < n {
                    self.search.selected_result = sel + 1;
                }
                None
            },
            KeyCode::Esc => {
                if n > 0 {
                    self.search.search_results = Vec::new();
                    self.search.selected_result = 0;
                } else {
                    self.back_to_chat();
                }
                None
            },
            _ => {
                if n > 0 {
                    self.search.search_results = Vec::new();
                    self.search.selected_result = 0;
                }
                self.handle_text_input(key);
                None
            },
        }
    }

    /// Whether the chosen search result is blocked or already has a pending
    /// request, as the store answered.
    pub fn friend_request_checked(&mut self, blocked: bool, pending: bool)
        ensures
            old(self)@.wf() ==> final(self)@.wf(),
            request_checked_step(old(self)@, blocked, pending, final(self)@),
    {
        let sel = self.search.selected_result;
        if sel >= self.search.search_results.len() {
            return ;
        }
        let on_screen = match &self.screen {
            Screen::AddFriend { .. } => true,
            _ => false,
        };
        if !on_screen {
            return ;
        }
        if blocked {
            self.set_error("This user is blocked");
            return ;
        }
        if pending {
            self.set_error("Request already pending");
            return ;
        }
        let did = self.search.search_results[sel].did.clone();
        let username = crate::text::dup_opt_string(&self.search.search_results[sel].username);
        let name = match &self.search.search_results[sel].username {
            Some(u) => u.clone(),
            None => did.clone(),
        };
        let request_id = crate::ids::random_uuid();
        self.set_error2("Friend request sent to ", name.as_str());
        self.push_effect(
            Effect::SendFriendRequest { request_id, did, display_name: name, username },
        );
        self.search.search_results = Vec::new();
        self.search.selected_result = 0;
        self.search.searching = false;
        let s = self.take_screen();
        self.screen = match s {
            Screen::AddFriend { info, friends, selected_friend } => Screen::Chat {
                info,
                focus: ChatFocus::Sidebar,
                friends,
                selected_friend,
                active_conversation: None,
            },
            other => other,
        };
    }

    /// Handle a key on the friend requests screen.
    #[verifier::spinoff_prover]
    #[verifier::rlimit(50)]
    pub fn handle_friend_requests_key(&mut self, key: KeyEvent) -> (r: Option<AsyncAction>)
        ensures
            r is None,
            requests_step(old(self)@, key.code, final(self)@),
    {
        let s = self.take_screen();
        let (info, friends, sf, requests, sr, tab, blocked) = match s {
            Screen::FriendRequests {
                info,
                friends,
                selected_friend,
                requests,
                selected_request,
                active_tab,
                blocked,
            } => (info, friends, selected_friend, requests, selected_request, active_tab, blocked),
            other => {
                self.screen = other;
                return None;
            },
        };
        // 1 accept, 2 reject or cancel, 3 block, 4 unblock.
        let act: u8 = match key.code {
            KeyCode::Enter => 1,
            KeyCode::Char(k) => if k == 'a' {
                1
            } else if k == 'x' {
                2
            } else if k == 'b' {
                3
            } else if k == 'u' {
                4
            } else {
                0
            },
            _ => 0,
        };
        match key.code {
            KeyCode::Tab => {
                let next = match tab {
                    RequestTab::Incoming => RequestTab::Outgoing,
                    RequestTab::Outgoing => RequestTab::Blocked,
                    RequestTab::Blocked => RequestTab::Incoming,
                };
                self.screen = Screen::FriendRequests {
                    info,
                    friends,
                    selected_friend: sf,
                    requests,
                    selected_request: 0,
                    active_tab: next,
                    blocked,
                };
                return None;
            },
            KeyCode::Up => {
                let k = if sr > 0 {
                    sr - 1
                } else {
                    sr
                };
                self.screen = Screen::FriendRequests {
                    info,
                    friends,
                    selected_friend: sf,
                    requests,
                    selected_request: k,
                    active_tab: tab,
                    blocked,
                };
                return None;
            },
            KeyCode::Down => {
                let count = if tab == RequestTab::Blocked {
                    blocked.len()
                } else {
                    count_in_tab(&requests, tab)
                };
                let k = if sr < count && sr + 1 < count {
                    sr + 1
                } else {
                    sr
                };
                self.screen = Screen::FriendRequests {
                    info,
                    friends,
                    selected_friend: sf,
                    requests,
                    selected_request: k,
                    active_tab: tab,
                    blocked,
                };
                return None;
            },
            KeyCode::Esc => {
                self.screen = Screen::Chat {
                    info,
                    focus: ChatFocus::Sidebar,
                    friends,
                    selected_friend: sf,
                    active_conversation: None,
                };
                return None;
            },
            _ => {},
        }
        if act == 1 && tab == RequestTab::Incoming {
            if let Some(j) = nth_in_tab(&requests, RequestTab::Incoming, sr) {
                let q = copy_request(&requests[j]);
                let f = FriendEntry {
                    did: q.did.clone(),
                    display_name: q.display_name.clone(),
                    username: crate::text::dup_opt_string(&q.username),
                    encryption_key: crate::text::dup_opt_string(&q.encryption_key),
                    signing_key: crate::text::dup_opt_string(&q.signing_key),
                };
                let mut friends = friends;
                let ghost old_friends = friends@;
                friends.insert(0, f);
                assert(friends@ =~= seq![friend_from(q)] + old_friends);
                let rest = drop_request_id(requests, q.id.as_str());
                self.set_error2(q.display_name.as_str(), " added as friend");
                self.screen = Screen::FriendRequests {
                    info,
                    friends,
                    selected_friend: sf,
                    requests: rest,
                    selected_request: 0,
                    active_tab: tab,
                    blocked,
                };
                self.push_effect(Effect::AcceptFriendRequest { request: q });
                return None;
            }
        } else if (act == 2 || act == 3) && (tab == RequestTab::Incoming || tab == RequestTab::Outgoing) {
            if let Some(j) = nth_in_tab(&requests, tab, sr) {
                let q = copy_request(&requests[j]);
                if act == 2 {
                    let rest = drop_request_id(requests, q.id.as_str());
                    if tab == RequestTab::Incoming {
                        self.set_error2("Rejected request from ", q.display_name.as_str());
                    } else {
                        self.set_error2("Cancelled request to ", q.display_name.as_str());
                    }
                    self.screen = Screen::FriendRequests {
                        info,
                        friends,
                        selected_friend: sf,
                        requests: rest,
                        selected_request: 0,
                        active_tab: tab,
                        blocked,
                    };
                    self.push_effect(Effect::DeleteFriendRequest { id: q.id });
                } else {
                    let rest = drop_request_did(requests, q.did.as_str());
                    let kept = drop_friend_did(friends, q.did.as_str());
                    let mut blocked = blocked;
                    blocked.push(
                        BlockedEntry {
                            did: q.did.clone(),
                            display_name: Some(q.display_name.clone()),
                            username: crate::text::dup_opt_string(&q.username),
                        },
                    );
                    self.set_error2("Blocked ", q.display_name.as_str());
                    self.screen = Screen::FriendRequests {
                        info,
                        friends: kept,
                        selected_friend: sf,
                        requests: rest,
                        selected_request: 0,
                        active_tab: tab,
                        blocked,
                    };
                    self.push_effect(
                        Effect::BlockUser {
                            did: q.did,
                            display_name: Some(q.display_name),
                            username: q.username,
                        },
                    );
                }
                return None;
            }
        } else if act == 4 && tab == RequestTab::Blocked && sr < blocked.len() {
            let did = blocked[sr].did.clone();
            let shown = match &blocked[sr].display_name {
                Some(n) => n.clone(),
                None => crate::text::prefix_chars(did.as_str(), 16),
            };
            let rest = drop_blocked_did(blocked, did.as_str());
            let n = rest.len();
            let k = if sr > 0 && sr >= n {
                if n == 0 {
                    0
                } else {
                    n - 1
                }
            } else {
                sr
            };
            self.set_error2("Unblocked ", shown.as_str());
            self.screen = Screen::FriendRequests {
                info,
                friends,
                selected_friend: sf,
                requests,
                selected_request: k,
                active_tab: tab,
                blocked: rest,
            };
            self.push_effect(Effect::UnblockUser { did });
            return None;
        }
        self.screen = Screen::FriendRequests {
            info,
            friends,
            selected_friend: sf,
            requests,
            selected_request: sr,
            active_tab: tab,
            blocked,
        };
        None
    }
}

} // verus!
