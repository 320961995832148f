//! Ticks, results of async work, restoring a stored session, and the
//! transition into the chat screen.

use vstd::prelude::*;
use crate::api::ImportedProfile;
use crate::app::{platform_id, platform_id_spec, App, AppView, ChatView, EntryView, Session};
use crate::effects::Effect;
use crate::onboarding::{select_screen, with_entry, with_error};
use crate::store::{StoredFriend, StoredIdentity};
use crate::types::{
    AsyncAction, AsyncResult, ChatFocus, DashboardInfo, FriendEntry, Screen, SearchResult,
};

verus! {

/// Typing indicators expire after this many milliseconds.
pub const TYPING_TTL_MS: u64 = 4000;

/// Poll attempts before a profile import times out.
pub const MAX_POLLS: u16 = 60;

/// Whether a typing indicator seen at `ts` is still shown at `now`.
pub open spec fn typing_fresh(now: u64, ts: u64) -> bool {
    ts >= now || now - ts < TYPING_TTL_MS
}

/// The state after one tick at time `now` (ms), and whether a poll is due.
pub open spec fn tick_step(pre: AppView, now: u64, post: AppView, r: Option<AsyncAction>) -> bool {
    let e = pre.entry;
    let counter = ((e.tick_counter + 1) % 0x10000) as u16;
    let wt = if pre.screen is Welcome {
        if e.welcome_tick == usize::MAX {
            e.welcome_tick
        } else {
            (e.welcome_tick + 1) as usize
        }
    } else {
        e.welcome_tick
    };
    &&& post == (AppView {
        entry: EntryView {
            spinner_frame: ((e.spinner_frame + 1) % 4) as usize,
            tick_counter: counter,
            welcome_tick: wt,
            ..e
        },
        chat: ChatView {
            typing_peers: pre.chat.typing_peers.filter(|p: (String, u64)| typing_fresh(now, p.1)),
            ..pre.chat
        },
        ..pre
    })
    &&& match pre.screen {
        Screen::ProfileImportLoading { state, poll_count, .. } => if e.polling_active && counter
            % 8 == 0 && poll_count < MAX_POLLS {
            r matches Some(AsyncAction::PollProfileImport { state: s }) && s == state
        } else {
            r is None
        },
        _ => r is None,
    }
}

/// The friend entry for a stored friend.
pub open spec fn friend_of(f: StoredFriend) -> FriendEntry {
    FriendEntry {
        did: f.did,
        display_name: f.display_name,
        username: f.username,
        encryption_key: f.encryption_key,
        signing_key: f.signing_key,
    }
}

/// The dashboard information that onboarding collected on the current screen.
pub open spec fn onboarding_info(s: Screen, created_at: i64) -> Option<DashboardInfo> {
    match s {
        Screen::DiscoveryOptIn { did, display_name, username, linked_platform, linked_username } =>
            Some(
            DashboardInfo {
                display_name,
                did,
                created_at,
                username,
                linked_platform,
                linked_username,
            },
        ),
        Screen::ProfileImportSelect { did, display_name } => Some(
            DashboardInfo {
                display_name,
                did,
                created_at,
                username: None,
                linked_platform: None,
                linked_username: None,
            },
        ),
        Screen::UsernameRegister { did, display_name, .. } => Some(
            DashboardInfo {
                display_name,
                did,
                created_at,
                username: None,
                linked_platform: None,
                linked_username: None,
            },
        ),
        _ => None,
    }
}

impl App {
    pub fn tick(&mut self, now: u64) -> (r: Option<AsyncAction>)
        requires
            old(self)@.wf(),
        ensures
            tick_step(old(self)@, now, final(self)@, r),
            final(self)@.wf(),
    {
        self.entry.spinner_frame = (self.entry.spinner_frame + 1) % 4;
        self.entry.tick_counter = self.entry.tick_counter.wrapping_add(1);
        if let Screen::Welcome = &self.screen {
            self.entry.welcome_tick = self.entry.welcome_tick.saturating_add(1);
        }
        self.expire_typing(now);
        if self.entry.polling_active && self.entry.tick_counter % 8 == 0 {
            if let Screen::ProfileImportLoading { state, poll_count, .. } = &self.screen {
                if *poll_count < MAX_POLLS {
                    return Some(AsyncAction::PollProfileImport { state: state.clone() });
                }
            }
        }
        None
    }

    fn expire_typing(&mut self, now: u64)
        ensures
            final(self)@ == (AppView {
                chat: ChatView {
                    typing_peers: old(self)@.chat.typing_peers.filter(
                        |p: (String, u64)| typing_fresh(now, p.1),
                    ),
                    ..old(self)@.chat
                },
                ..old(self)@
            }),
            crate::app::typing_distinct(old(self)@.chat.typing_peers) ==> crate::app::typing_distinct(
                final(self)@.chat.typing_peers,
            ),
    {
        let ghost distinct_before = crate::app::typing_distinct(self.chat.typing_peers@);
        let mut old_peers: Vec<(String, u64)> = Vec::new();
        std::mem::swap(&mut old_peers, &mut self.chat.typing_peers);
        let ghost pred = |p: (String, u64)| typing_fresh(now, p.1);
        let mut kept: Vec<(String, u64)> = Vec::new();
        let mut i: usize = 0;
        proof {
            assert(old_peers@.subrange(0, 0).filter(pred) =~= Seq::<(String, u64)>::empty()) by {
                reveal(Seq::filter);
            }
        }
        while i < old_peers.len()
            invariant
                i <= old_peers@.len(),
                kept@ == old_peers@.subrange(0, i as int).filter(pred),
                pred == (|p: (String, u64)| typing_fresh(now, p.1)),
                distinct_before == crate::app::typing_distinct(old_peers@),
                distinct_before ==> crate::app::typing_distinct(kept@),
                forall|k: int| 0 <= k < kept@.len() ==> exists|j: int| 0 <= j < i && #[trigger] kept@[k] == old_peers@[j],
            decreases old_peers@.len() - i,
        {
            let ts = old_peers[i].1;
            let fresh = ts >= now || now - ts < TYPING_TTL_MS;
            proof {
                let s = old_peers@.subrange(0, i as int);
                assert(old_peers@.subrange(0, i + 1) =~= s.push(old_peers@[i as int]));
                lemma_filter_push(s, pred, old_peers@[i as int]);
            }
            if fresh {
                let name = old_peers[i].0.clone();
                let ghost before = kept@;
                kept.push((name, ts));
                proof {
                    assert(kept@[before.len() as int] == old_peers@[i as int]);
                    assert forall|k: int| 0 <= k < kept@.len() implies exists|j: int| 0 <= j < i + 1 && #[trigger] kept@[k] == old_peers@[j] by {
                        if k < before.len() {
                            assert(kept@[k] == before[k]);
                            let j = choose|j: int| 0 <= j < i && #[trigger] before[k] == old_peers@[j];
                            assert(kept@[k] == old_peers@[j]);
                        } else {
                            assert(kept@[k] == old_peers@[i as int]);
                        }
                    }
                    if distinct_before {
                        assert forall|a: int, b: int| 0 <= a < b < kept@.len() implies #[trigger] kept@[a].0@ != #[trigger] kept@[b].0@ by {
                            if b < before.len() {
                                assert(kept@[a] == before[a] && kept@[b] == before[b]);
                            } else {
                                assert(kept@[a] == before[a]);
                                let j = choose|j: int| 0 <= j < i && #[trigger] before[a] == old_peers@[j];
                                assert(old_peers@[j].0@ != old_peers@[i as int].0@);
                            }
                        }
                    }
                }
            }
            i = i + 1;
        }
        proof {
            assert(old_peers@.subrange(0, old_peers@.len() as int) =~= old_peers@);
        }
        self.chat.typing_peers = kept;
    }

    /// Enter the chat screen with what onboarding collected.
    pub fn go_to_chat(&mut self, created_at: i64)
        requires
            old(self)@.wf(),
        ensures
            final(self)@.wf(),
            match onboarding_info(old(self)@.screen, created_at) {
                Some(info) => {
                    &&& final(self)@ == (AppView { screen: final(self)@.screen, ..old(self)@ })
                    &&& final(self)@.screen matches Screen::Chat {
                        info: i,
                        focus,
                        friends,
                        selected_friend,
                        active_conversation,
                    }
                    &&& i == info
                    &&& focus == ChatFocus::Sidebar
                    &&& friends@.len() == 0
                    &&& selected_friend == 0
                    &&& active_conversation is None
                },
                None => final(self)@ == old(self)@,
            },
    {
        let info = match &self.screen {
            Screen::DiscoveryOptIn { did, display_name, username, linked_platform, linked_username } =>
                DashboardInfo {
                display_name: display_name.clone(),
                did: did.clone(),
                created_at,
                username: crate::text::dup_opt_string(username),
                linked_platform: crate::text::dup_opt_string(linked_platform),
                linked_username: crate::text::dup_opt_string(linked_username),
            },
            Screen::ProfileImportSelect { did, display_name } => DashboardInfo {
                display_name: display_name.clone(),
                did: did.clone(),
                created_at,
                username: None,
                linked_platform: None,
                linked_username: None,
            },
            Screen::UsernameRegister { did, display_name, .. } => DashboardInfo {
                display_name: display_name.clone(),
                did: did.clone(),
                created_at,
                username: None,
                linked_platform: None,
                linked_username: None,
            },
            _ => {
                return;
            },
        };
        self.screen = Screen::Chat {
            info,
            focus: ChatFocus::Sidebar,
            friends: Vec::new(),
            selected_friend: 0,
            active_conversation: None,
        };
    }

    /// Go to the chat screen after a stored identity was validated: the
    /// dashboard shows the stored identity, the sidebar lists the stored
    /// friends, and groups and communities are loaded.
    pub fn restore_session(
        &mut self,
        stored: StoredIdentity,
        my_did: String,
        friends: Vec<StoredFriend>,
    )
        requires
            old(self)@.wf(),
        ensures
            final(self)@.wf(),
            final(self)@ == (AppView {
                session: Session {
                    my_did: Some(my_did),
                    my_name: Some(stored.display_name),
                    ..old(self)@.session
                },
                screen: final(self)@.screen,
                effects: final(self)@.effects,
                ..old(self)@
            }),
            final(self)@.screen matches Screen::Chat {
                info,
                focus,
                friends: f,
                selected_friend,
                active_conversation,
            } && info == (DashboardInfo {
                display_name: stored.display_name,
                did: stored.did,
                created_at: stored.created_at,
                username: stored.username,
                linked_platform: stored.linked_platform,
                linked_username: stored.linked_username,
            }) && focus == ChatFocus::Sidebar && f@ == friends@.map_values(|x: StoredFriend| friend_of(x))
                && selected_friend == 0 && active_conversation is None,
            final(self)@.effects == old(self)@.effects.push(Effect::ReloadGroups).push(
                Effect::ReloadCommunities,
            ),
    {
        let f = friends_of(friends);
        self.session.my_did = Some(my_did);
        self.session.my_name = Some(stored.display_name.clone());
        self.push_effect(Effect::ReloadGroups);
        self.push_effect(Effect::ReloadCommunities);
        self.screen = Screen::Chat {
            info: DashboardInfo {
                display_name: stored.display_name,
                did: stored.did,
                created_at: stored.created_at,
                username: stored.username,
                linked_platform: stored.linked_platform,
                linked_username: stored.linked_username,
            },
            focus: ChatFocus::Sidebar,
            friends: f,
            selected_friend: 0,
            active_conversation: None,
        };
    }
}

/// Friend entries for stored friends, in order.
pub fn friends_of(v: Vec<StoredFriend>) -> (r: Vec<FriendEntry>)
    ensures
        r@ == v@.map_values(|x: StoredFriend| friend_of(x)),
{
    let mut r: Vec<FriendEntry> = Vec::new();
    let mut v = v;
    let ghost orig = v@;
    let mut rev: Vec<FriendEntry> = Vec::new();
    while v.len() > 0
        invariant
            v@ == orig.subrange(0, v@.len() as int),
            v@.len() <= orig.len(),
            rev@.len() == orig.len() - v@.len(),
            forall|k: int|
                0 <= k < rev@.len() ==> rev@[k] == friend_of(orig[orig.len() - 1 - k]),
        decreases v@.len(),
    {
        let f = v.pop().unwrap();
        rev.push(
            FriendEntry {
                did: f.did,
                display_name: f.display_name,
                username: f.username,
                encryption_key: f.encryption_key,
                signing_key: f.signing_key,
            },
        );
        proof {
            assert(v@ =~= orig.subrange(0, v@.len() as int));
        }
    }
    while rev.len() > 0
        invariant
            rev@.len() + r@.len() == orig.len(),
            forall|k: int|
                0 <= k < rev@.len() ==> rev@[k] == friend_of(orig[orig.len() - 1 - k]),
            forall|k: int| 0 <= k < r@.len() ==> r@[k] == friend_of(orig[k]),
        decreases rev@.len(),
    {
        let f = rev.pop().unwrap();
        r.push(f);
    }
    assert(r@ =~= orig.map_values(|x: StoredFriend| friend_of(x)));
    r
}

/// Filtering a sequence extended by one element.
pub proof fn lemma_filter_push<A>(s: Seq<A>, pred: spec_fn(A) -> bool, x: A)
    ensures
        s.push(x).filter(pred) == (if pred(x) {
            s.filter(pred).push(x)
        } else {
            s.filter(pred)
        }),
{
    reveal(Seq::filter);
    assert(s.push(x).drop_last() =~= s);
}


/// The state entered from `pre` by `go_to_chat` at creation time `t`.
pub open spec fn chat_entered(pre: AppView, t: i64, post: AppView) -> bool {
    match onboarding_info(pre.screen, t) {
        Some(info) => {
            &&& post == (AppView { screen: post.screen, ..pre })
            &&& post.screen matches Screen::Chat {
                info: i,
                focus,
                friends,
                selected_friend,
                active_conversation,
            }
            &&& i == info
            &&& focus == ChatFocus::Sidebar
            &&& friends@.len() == 0
            &&& selected_friend == 0
            &&& active_conversation is None
        },
        None => post == pre,
    }
}

/// `post` is the chat screen entered from `pre` at some creation time.
pub open spec fn reached_chat(pre: AppView, post: AppView) -> bool {
    exists|t: i64| #[trigger] chat_entered(pre, t, post)
}

/// The discoverability choice queued for saving when a store exists.
pub open spec fn discovery_saved(pre: AppView) -> AppView {
    if pre.session.has_db {
        AppView {
            effects: pre.effects.push(
                Effect::UpdateDiscoverable { discoverable: pre.entry.discovery_choice },
            ),
            ..pre
        }
    } else {
        pre
    }
}

/// The state after the result of an async operation.
pub open spec fn async_step(pre: AppView, res: AsyncResult, post: AppView, r: Option<AsyncAction>) -> bool {
    let e = pre.entry;
    match res {
        AsyncResult::ProfileImportStarted { redirect_url, state } => {
            let opened = AppView {
                effects: pre.effects.push(Effect::OpenBrowser { url: redirect_url }),
                ..pre
            };
            &&& r is None
            &&& match pre.screen {
                Screen::ProfileImportSelect { did, display_name } => {
                    &&& post == (AppView {
                        entry: EntryView { polling_active: true, tick_counter: 0, ..e },
                        screen: post.screen,
                        ..opened
                    })
                    &&& post.screen matches Screen::ProfileImportLoading {
                        did: d,
                        display_name: n,
                        platform,
                        state: st,
                        poll_count,
                    }
                    &&& d == did && n == display_name && st == state && poll_count == 0
                    &&& platform@ == platform_id_spec(e.selected_platform as int)
                },
                _ => post == opened,
            }
        },
        AsyncResult::ProfileImportResult { profile: Some(p) } => {
            let stopped = with_entry(pre, EntryView { polling_active: false, ..e });
            match pre.screen {
                Screen::ProfileImportLoading { did, display_name, platform, .. } => {
                    &&& post == (AppView {
                        screen: Screen::ProfileImportSuccess {
                            did,
                            display_name,
                            platform,
                            platform_username: p.username,
                            platform_id: p.platform_id,
                        },
                        ..stopped
                    })
                    &&& r == Some(
                        AsyncAction::LinkAccount {
                            did,
                            platform,
                            platform_id: p.platform_id,
                            username: p.username,
                        },
                    )
                },
                _ => post == stopped && r is None,
            }
        },
        AsyncResult::ProfileImportResult { profile: None } => r is None && match pre.screen {
            Screen::ProfileImportLoading { did, display_name, platform, state, poll_count } => if poll_count
                + 1 >= MAX_POLLS {
                &&& with_error(
                    AppView {
                        screen: Screen::ProfileImportSelect { did, display_name },
                        ..with_entry(pre, EntryView { polling_active: false, ..e })
                    },
                    post,
                    "Sign-in timed out. Please try again."@,
                )
            } else {
                post == (AppView {
                    screen: Screen::ProfileImportLoading {
                        did,
                        display_name,
                        platform,
                        state,
                        poll_count: (poll_count + 1) as u16,
                    },
                    ..pre
                })
            },
            _ => post == pre,
        },
        AsyncResult::ProfileImportError(msg) => {
            let stopped = with_entry(pre, EntryView { polling_active: false, ..e }).with_error_text(
                Some(msg),
            );
            &&& r is None
            &&& match pre.screen {
                Screen::ProfileImportLoading { did, display_name, .. } => post == (AppView {
                    screen: Screen::ProfileImportSelect { did, display_name },
                    ..stopped
                }),
                _ => post == stopped,
            }
        },
        AsyncResult::AccountLinked => r is None && match pre.screen {
            Screen::ProfileImportSuccess { platform, platform_username, .. } if pre.session.has_db =>
                post == (AppView {
                effects: pre.effects.push(
                    Effect::UpdateLinkedAccount { platform, username: platform_username },
                ),
                ..pre
            }),
            _ => post == pre,
        },
        AsyncResult::AccountLinkError(msg) => r is None && with_error(
            pre,
            post,
            "Account link warning: "@ + msg@,
        ),
        AsyncResult::UsernameRegistered { username } => {
            let saved = if pre.session.has_db {
                AppView {
                    effects: pre.effects.push(Effect::UpdateUsername { username }),
                    ..pre
                }
            } else {
                pre
            };
            &&& r is None
            &&& match pre.screen {
                Screen::UsernameRegister { did, display_name, linked_platform, linked_username } =>
                    post == (AppView {
                    screen: Screen::UsernameSuccess {
                        did,
                        display_name,
                        username,
                        linked_platform,
                        linked_username,
                    },
                    ..saved
                }),
                _ => post == saved,
            }
        },
        AsyncResult::UsernameError(msg) => r is None && post == pre.with_error_text(Some(msg)),
        AsyncResult::DiscoveryUpdated => r is None && reached_chat(discovery_saved(pre), post),
        AsyncResult::DiscoveryError(msg) => {
            &&& r is None
            &&& post.session.error_message is Some
            &&& post.session.error_message.unwrap()@ == "Discovery warning: "@ + msg@
            &&& reached_chat(pre.with_error_text(post.session.error_message), post)
        },
        AsyncResult::UserSearchResult { results } => {
            let found = AppView {
                search: crate::app::SearchView {
                    search_results: results@,
                    selected_result: 0,
                    searching: false,
                },
                ..pre
            };
            &&& r is None
            &&& if results@.len() == 0 {
                with_error(found, post, "No users found"@)
            } else {
                post == found
            }
        },
        AsyncResult::UserSearchError(msg) => r is None && post == pre.with_error_text(Some(msg)),
    }
}

impl App {
    /// Handle the result of an async operation; may ask for a follow-up one.
    pub fn handle_async_result(&mut self, result: AsyncResult) -> (r: Option<AsyncAction>)
        requires
            old(self)@.wf(),
        ensures
            async_step(old(self)@, result, final(self)@, r),
            final(self)@.wf(),
    {
        match result {
            AsyncResult::ProfileImportStarted { redirect_url, state } => {
                self.import_started(redirect_url, state);
                None
            },
            AsyncResult::ProfileImportResult { profile } => self.import_polled(profile),
            AsyncResult::ProfileImportError(msg) => {
                self.entry.polling_active = false;
                self.session.error_message = Some(msg);
                if let Screen::ProfileImportLoading { .. } = &self.screen {
                    let s = self.take_screen();
                    if let Screen::ProfileImportLoading { did, display_name, .. } = s {
                        self.screen = Screen::ProfileImportSelect { did, display_name };
                    }
                }
                None
            },
            AsyncResult::AccountLinked => {
                if self.session.has_db {
                    if let Screen::ProfileImportSuccess { platform, platform_username, .. } = &self.screen {
                        let e = Effect::UpdateLinkedAccount {
                            platform: platform.clone(),
                            username: platform_username.clone(),
                        };
                        self.push_effect(e);
                    }
                }
                None
            },
            AsyncResult::AccountLinkError(msg) => {
                self.set_error2("Account link warning: ", msg.as_str());
                None
            },
            AsyncResult::UsernameRegistered { username } => {
                if self.session.has_db {
                    self.push_effect(Effect::UpdateUsername { username: username.clone() });
                }
                if let Screen::UsernameRegister { .. } = &self.screen {
                    let s = self.take_screen();
                    if let Screen::UsernameRegister {
                        did,
                        display_name,
                        linked_platform,
                        linked_username,
                    } = s {
                        self.screen = Screen::UsernameSuccess {
                            did,
                            display_name,
                            username,
                            linked_platform,
                            linked_username,
                        };
                    }
                }
                None
            },
            AsyncResult::UsernameError(msg) => {
                self.session.error_message = Some(msg);
                None
            },
            AsyncResult::DiscoveryUpdated => {
                self.discovery_updated();
                None
            },
            AsyncResult::DiscoveryError(msg) => {
                self.discovery_failed(msg);
                None
            },
            AsyncResult::UserSearchResult { results } => {
                let empty = results.len() == 0;
                self.search.searching = false;
                self.search.search_results = results;
                self.search.selected_result = 0;
                if empty {
                    self.set_error("No users found");
                }
                None
            },
            AsyncResult::UserSearchError(msg) => {
                self.session.error_message = Some(msg);
                None
            },
        }
    }

    fn discovery_updated(&mut self)
        requires
            old(self)@.wf(),
        ensures
            async_step(old(self)@, AsyncResult::DiscoveryUpdated, final(self)@, None),
            final(self)@.wf(),
    {
        if self.session.has_db {
            self.push_effect(Effect::UpdateDiscoverable { discoverable: self.entry.discovery_choice });
        }
        let ghost saved = self@;
        assert(saved == discovery_saved(old(self)@));
        let t = crate::ids::unix_secs();
        self.go_to_chat(t);
        assert(chat_entered(saved, t, self@));
    }

    fn discovery_failed(&mut self, msg: String)
        requires
            old(self)@.wf(),
        ensures
            async_step(old(self)@, AsyncResult::DiscoveryError(msg), final(self)@, None),
            final(self)@.wf(),
    {
        self.set_error2("Discovery warning: ", msg.as_str());
        let ghost saved = self@;
        let t = crate::ids::unix_secs();
        self.go_to_chat(t);
        assert(chat_entered(saved, t, self@));
    }

    fn import_started(&mut self, redirect_url: String, state: String)
        requires
            old(self)@.wf(),
        ensures
            async_step(
                old(self)@,
                AsyncResult::ProfileImportStarted { redirect_url, state },
                final(self)@,
                None,
            ),
            final(self)@.wf(),
    {
        self.push_effect(Effect::OpenBrowser { url: redirect_url });
        if let Screen::ProfileImportSelect { .. } = &self.screen {
            let platform = platform_id(self.entry.selected_platform);
            let s = self.take_screen();
            if let Screen::ProfileImportSelect { did, display_name } = s {
                self.screen = Screen::ProfileImportLoading {
                    did,
                    display_name,
                    platform,
                    state,
                    poll_count: 0,
                };
                self.entry.polling_active = true;
                self.entry.tick_counter = 0;
            }
        }
    }

    fn import_polled(&mut self, profile: Option<ImportedProfile>) -> (r: Option<AsyncAction>)
        requires
            old(self)@.wf(),
        ensures
            async_step(old(self)@, AsyncResult::ProfileImportResult { profile }, final(self)@, r),
            final(self)@.wf(),
    {
        match profile {
            Some(p) => {
                self.entry.polling_active = false;
                if let Screen::ProfileImportLoading { .. } = &self.screen {
                    let s = self.take_screen();
                    if let Screen::ProfileImportLoading { did, display_name, platform, .. } = s {
                        let action = AsyncAction::LinkAccount {
                            did: did.clone(),
                            platform: platform.clone(),
                            platform_id: p.platform_id.clone(),
                            username: p.username.clone(),
                        };
                        self.screen = Screen::ProfileImportSuccess {
                            did,
                            display_name,
                            platform,
                            platform_username: p.username,
                            platform_id: p.platform_id,
                        };
                        return Some(action);
                    }
                }
                None
            },
            None => {
                if let Screen::ProfileImportLoading { poll_count, .. } = &self.screen {
                    let n = *poll_count;
                    let s = self.take_screen();
                    if let Screen::ProfileImportLoading { did, display_name, platform, state, .. } = s {
                        if n >= MAX_POLLS - 1 {
                            self.entry.polling_active = false;
                            self.screen = Screen::ProfileImportSelect { did, display_name };
                            self.set_error("Sign-in timed out. Please try again.");
                        } else {
                            self.screen = Screen::ProfileImportLoading {
                                did,
                                display_name,
                                platform,
                                state,
                                poll_count: n + 1,
                            };
                        }
                    }
                }
                None
            },
        }
    }
}

} // verus!
