//! Key presses: the pending message is cleared, then the current screen's
//! handler takes the key.

use vstd::prelude::*;
use crate::app::{App, AppView};
use crate::chatkeys::chat_key_step;
use crate::communities::{
    create_community_step, invites_step, join_step, member_actions_step, members_step, roles_step,
};
use crate::friends::{add_friend_step, requests_step};
use crate::groups::create_group_step;
use crate::keys::KeyEvent;
use crate::onboarding::{
    create_confirm_step, create_name_step, create_phrase_step, discovery_step, import_name_step,
    import_phrase_step, profile_loading_step, profile_select_step, profile_success_step,
    username_register_step, username_success_step, welcome_step,
};
use crate::types::{AsyncAction, Screen};

verus! {

/// A key press at time `now` (milliseconds): the message line is cleared
/// and the current screen's handler takes the key; `r` is the async work
/// it asks for.
pub open spec fn key_step(pre: AppView, key: KeyEvent, now: u64, post: AppView, r: Option<AsyncAction>) -> bool {
    let p = pre.with_error_text(None);
    let c = key.code;
    match pre.screen {
        Screen::Welcome => r is None && welcome_step(p, c, post),
        Screen::CreateName => r is None && create_name_step(p, c, post),
        Screen::CreatePhrase { .. } => r is None && create_phrase_step(p, c, post),
        Screen::CreateConfirm { .. } => r is None && create_confirm_step(p, c, post),
        Screen::ImportPhrase => r is None && import_phrase_step(p, key, post),
        Screen::ImportName { .. } => r is None && import_name_step(p, c, post),
        Screen::ProfileImportSelect { .. } => profile_select_step(p, c, post, r),
        Screen::ProfileImportLoading { .. } => r is None && profile_loading_step(p, c, post),
        Screen::ProfileImportSuccess { .. } => r is None && profile_success_step(p, c, post),
        Screen::UsernameRegister { .. } => username_register_step(p, c, post, r),
        Screen::UsernameSuccess { .. } => r is None && username_success_step(p, c, post),
        Screen::DiscoveryOptIn { .. } => discovery_step(p, c, post, r),
        Screen::Chat { .. } => r is None && chat_key_step(p, c, now, post),
        Screen::AddFriend { .. } => add_friend_step(p, key, post, r),
        Screen::FriendRequests { .. } => r is None && requests_step(p, c, post),
        Screen::CreateGroup { .. } => r is None && create_group_step(p, c, post),
        Screen::CreateCommunity { .. } => r is None && create_community_step(p, c, post),
        Screen::CommunityMembers { .. } => r is None && members_step(p, c, post),
        Screen::CommunityRoles { .. } => r is None && roles_step(p, c, post),
        Screen::MemberActions { .. } => r is None && member_actions_step(p, c, post),
        Screen::CommunityInvites { .. } => r is None && invites_step(p, c, post),
        Screen::JoinCommunity { .. } => r is None && join_step(p, c, post),
    }
}

/// The parts of the state that the invariant speaks of are the same.
pub open spec fn same_entry_and_cursors(a: AppView, b: AppView) -> bool {
    &&& a.entry == b.entry
    &&& a.chat.message_input == b.chat.message_input
    &&& a.chat.message_cursor == b.chat.message_cursor
    &&& a.chat.edit_buffer == b.chat.edit_buffer
    &&& a.chat.edit_cursor == b.chat.edit_cursor
}

impl App {
    /// Handle a key press at time `now` (milliseconds).
    pub fn handle_key(&mut self, key: KeyEvent, now: u64) -> (r: Option<AsyncAction>)
        requires
            old(self)@.wf(),
        ensures
            key_step(old(self)@, key, now, final(self)@, r),
            final(self)@.wf(),
    {
        self.session.error_message = None;
        let which: u8 = match &self.screen {
            Screen::Welcome => 0,
            Screen::CreateName => 1,
            Screen::CreatePhrase { .. } => 2,
            Screen::CreateConfirm { .. } => 3,
            Screen::ImportPhrase => 4,
            Screen::ImportName { .. } => 5,
            Screen::ProfileImportSelect { .. } => 6,
            Screen::ProfileImportLoading { .. } => 7,
            Screen::ProfileImportSuccess { .. } => 8,
            Screen::UsernameRegister { .. } => 9,
            Screen::UsernameSuccess { .. } => 10,
            Screen::DiscoveryOptIn { .. } => 11,
            Screen::Chat { .. } => 12,
            Screen::AddFriend { .. } => 13,
            Screen::FriendRequests { .. } => 14,
            Screen::CreateGroup { .. } => 15,
            Screen::CreateCommunity { .. } => 16,
            Screen::CommunityMembers { .. } => 17,
            Screen::CommunityRoles { .. } => 18,
            Screen::MemberActions { .. } => 19,
            Screen::CommunityInvites { .. } => 20,
            Screen::JoinCommunity { .. } => 21,
        };
        let ghost p = self@;
        if which == 0 {
            self.handle_welcome_key(key)
        } else if which == 1 {
            self.handle_create_name_key(key)
        } else if which == 2 {
            self.handle_create_phrase_key(key)
        } else if which == 3 {
            self.handle_create_confirm_key(key)
        } else if which == 4 {
            self.handle_import_phrase_key(key)
        } else if which == 5 {
            self.handle_import_name_key(key)
        } else if which == 6 {
            self.handle_profile_import_select_key(key)
        } else if which == 7 {
            self.handle_profile_import_loading_key(key)
        } else if which == 8 {
            self.handle_profile_import_success_key(key)
        } else if which == 9 {
            self.handle_username_register_key(key)
        } else if which == 10 {
            self.handle_username_success_key(key)
        } else if which == 11 {
            self.handle_discovery_optin_key(key)
        } else if which == 12 {
            self.handle_chat_key(key.code, now);
            None
        } else if which == 13 {
            self.handle_add_friend_key(key)
        } else if which == 14 {
            self.handle_friend_requests_key(key)
        } else {
            if which == 15 {
                self.handle_create_group_key(key.code);
            } else if which == 16 {
                self.handle_create_community_key(key.code);
            } else if which == 17 {
                self.handle_community_members_key(key.code);
            } else if which == 18 {
                self.handle_community_roles_key(key.code);
            } else if which == 19 {
                self.handle_member_actions_key(key.code);
            } else if which == 20 {
                self.handle_community_invites_key(key.code);
            } else {
                self.handle_join_community_key(key.code);
            }
            assert(same_entry_and_cursors(p, self@));
            None
        }
    }
}

} // verus!
