//! Onboarding screens: create or import an identity, import a profile,
//! register a username, choose discoverability.

use vstd::prelude::*;
use crate::app::{
    empty_words, platform_id, platform_id_spec, words_lowercase, App, AppView, EntryView, Session,
};
use crate::effects::Effect;
use crate::keys::{KeyCode, KeyEvent};
use crate::text::{is_blank, string_of, trim, trim_chars};
use crate::types::{AsyncAction, DashboardInfo, Screen};

verus! {

/// Ticks of the welcome animation before the menu is idle.
pub const INTRO_END: usize = 8;

/// The state with a given error text and nothing else changed.
pub open spec fn with_error(pre: AppView, post: AppView, m: Seq<char>) -> bool {
    &&& post == pre.with_error_text(post.session.error_message)
    &&& post.session.error_message is Some
    &&& post.session.error_message.unwrap()@ == m
}

/// The state with one more piece of outside work and nothing else changed.
pub open spec fn with_effect(pre: AppView, post: AppView, pred: spec_fn(Effect) -> bool) -> bool {
    &&& post == (AppView { effects: post.effects, ..pre })
    &&& post.effects.len() == pre.effects.len() + 1
    &&& post.effects.subrange(0, pre.effects.len() as int) == pre.effects
    &&& pred(post.effects.last())
}

/// The phrase made of the typed words.
pub open spec fn typed_words(w: Seq<Vec<char>>) -> Seq<Seq<char>> {
    w.map_values(|v: Vec<char>| v@)
}

/// The state with a new entry part and a new screen.
pub open spec fn entry_screen(pre: AppView, e: EntryView, s: Screen) -> AppView {
    AppView { entry: e, screen: s, ..pre }
}

/// The state with a new entry part.
pub open spec fn with_entry(pre: AppView, e: EntryView) -> AppView {
    AppView { entry: e, ..pre }
}

/// Back to the Welcome screen with the intro skipped.
pub open spec fn back_to_welcome(pre: AppView) -> AppView {
    entry_screen(pre, EntryView { welcome_tick: 100, ..pre.entry }, Screen::Welcome)
}

/// Empty text entry on a new screen.
pub open spec fn fresh_input_on(pre: AppView, s: Screen) -> AppView {
    entry_screen(pre, EntryView { input: Seq::empty(), cursor_pos: 0, ..pre.entry }, s)
}

/// The platform choice reset to the first platform, on a new screen.
pub open spec fn select_screen(pre: AppView, s: Screen) -> AppView {
    entry_screen(pre, EntryView { selected_platform: 0, ..pre.entry }, s)
}

/// Welcome screen: any key ends the intro; then 1/c creates, 2/i imports, q/Esc quits.
pub open spec fn welcome_step(pre: AppView, code: KeyCode, post: AppView) -> bool {
    if pre.entry.welcome_tick < INTRO_END {
        post == with_entry(pre, EntryView { welcome_tick: INTRO_END, ..pre.entry })
    } else {
        match code {
            KeyCode::Char('1') | KeyCode::Char('c') => post == fresh_input_on(
                pre,
                Screen::CreateName,
            ),
            KeyCode::Char('2') | KeyCode::Char('i') => {
                &&& post == entry_screen(
                    pre,
                    EntryView { word_inputs: post.entry.word_inputs, active_word: 0, ..pre.entry },
                    Screen::ImportPhrase,
                )
                &&& empty_words(post.entry.word_inputs)
            },
            KeyCode::Char('q') | KeyCode::Esc => post == (AppView {
                session: Session { should_quit: true, ..pre.session },
                ..pre
            }),
            _ => post == pre,
        }
    }
}

/// Display-name entry for a new identity.
pub open spec fn create_name_step(pre: AppView, code: KeyCode, post: AppView) -> bool {
    match code {
        KeyCode::Enter => if is_blank(pre.entry.input) {
            with_error(pre, post, "Display name cannot be empty"@)
        } else {
            with_effect(
                pre,
                post,
                |e: Effect|
                    e matches Effect::CreateIdentity { name } && name@ == trim(pre.entry.input),
            )
        },
        KeyCode::Esc => post == back_to_welcome(pre),
        _ => post == pre.text_input_step(code),
    }
}

/// The recovery phrase of a new identity is shown.
pub open spec fn create_phrase_step(pre: AppView, code: KeyCode, post: AppView) -> bool {
    match code {
        KeyCode::Enter => match pre.screen {
            Screen::CreatePhrase { name, phrase } => post == entry_screen(
                pre,
                EntryView { confirmed_backup: false, ..pre.entry },
                Screen::CreateConfirm { name, phrase },
            ),
            _ => post == pre,
        },
        KeyCode::Esc => post == back_to_welcome(pre),
        _ => post == pre,
    }
}

/// The user confirms the phrase was backed up.
pub open spec fn create_confirm_step(pre: AppView, code: KeyCode, post: AppView) -> bool {
    match code {
        KeyCode::Char(' ') => post == with_entry(
            pre,
            EntryView { confirmed_backup: !pre.entry.confirmed_backup, ..pre.entry },
        ),
        KeyCode::Enter => if !pre.entry.confirmed_backup {
            with_error(pre, post, "You must confirm you've backed up your phrase"@)
        } else {
            match pre.screen {
                Screen::CreateConfirm { name, phrase } => with_effect(
                    pre,
                    post,
                    |e: Effect|
                        e matches Effect::ImportIdentity { words, name: n } && words@ == phrase@
                            && n == name,
                ),
                _ => post == pre,
            }
        },
        KeyCode::Esc => match pre.screen {
            Screen::CreateConfirm { name, phrase } => post == (AppView {
                screen: Screen::CreatePhrase { name, phrase },
                ..pre
            }),
            _ => post == pre,
        },
        _ => post == pre,
    }
}

/// The active word replaced by `w`, the others unchanged.
pub open spec fn active_word_becomes(pre: AppView, post: AppView, w: Seq<char>) -> bool {
    &&& post == with_entry(pre, EntryView { word_inputs: post.entry.word_inputs, ..pre.entry })
    &&& post.entry.word_inputs.len() == 24
    &&& post.entry.word_inputs[pre.entry.active_word as int]@ == w
    &&& forall|i: int|
        0 <= i < 24 && i != pre.entry.active_word ==> post.entry.word_inputs[i]
            == pre.entry.word_inputs[i]
}

/// The active word index moved to `i`.
pub open spec fn active_word_at(pre: AppView, i: int) -> AppView {
    with_entry(pre, EntryView { active_word: i as usize, ..pre.entry })
}

/// The 24 recovery words are typed in.
pub open spec fn import_phrase_step(pre: AppView, key: KeyEvent, post: AppView) -> bool {
    let e = pre.entry;
    let w = e.word_inputs[e.active_word as int]@;
    match key.code {
        KeyCode::Esc => post == back_to_welcome(pre),
        KeyCode::Tab => if e.active_word < 23 {
            post == active_word_at(pre, e.active_word + 1)
        } else {
            post == pre
        },
        KeyCode::BackTab => if e.active_word > 0 {
            post == active_word_at(pre, e.active_word - 1)
        } else {
            post == pre
        },
        KeyCode::Enter => if exists|i: int|
            0 <= i < 24 && #[trigger] e.word_inputs[i]@.len() == 0 {
            with_error(pre, post, "Please fill in all 24 words"@)
        } else {
            with_effect(
                pre,
                post,
                |x: Effect|
                    x matches Effect::ValidatePhrase { words } && words@.map_values(
                        |s: String| s@,
                    ) == typed_words(e.word_inputs),
            )
        },
        KeyCode::Backspace => if w.len() > 0 {
            active_word_becomes(pre, post, w.drop_last())
        } else if e.active_word > 0 {
            post == active_word_at(pre, e.active_word - 1)
        } else {
            post == pre
        },
        KeyCode::Char(' ') => if w.len() > 0 && e.active_word < 23 {
            post == active_word_at(pre, e.active_word + 1)
        } else {
            post == pre
        },
        KeyCode::Char(c) => if key.ctrl && c == 'v' {
            post == pre
        } else if (w.len() < 12 && 'a' <= c <= 'z') || ('A' <= c <= 'Z') {
            active_word_becomes(
                pre,
                post,
                w.push(
                    if 'A' <= c <= 'Z' {
                        ((c as u32) + 32) as char
                    } else {
                        c
                    },
                ),
            )
        } else {
            post == pre
        },
        _ => post == pre,
    }
}

/// Display-name entry for an imported identity.
pub open spec fn import_name_step(pre: AppView, code: KeyCode, post: AppView) -> bool {
    match code {
        KeyCode::Enter => if is_blank(pre.entry.input) {
            with_error(pre, post, "Display name cannot be empty"@)
        } else {
            match pre.screen {
                Screen::ImportName { phrase } => with_effect(
                    pre,
                    post,
                    |e: Effect|
                        e matches Effect::ImportIdentity { words, name } && words@ == phrase@
                            && name@ == trim(pre.entry.input),
                ),
                _ => post == pre,
            }
        },
        KeyCode::Esc => {
            &&& post == entry_screen(
                pre,
                EntryView { word_inputs: post.entry.word_inputs, active_word: 0, ..pre.entry },
                Screen::ImportPhrase,
            )
            &&& empty_words(post.entry.word_inputs)
        },
        _ => post == pre.text_input_step(code),
    }
}

/// The platform choice moved to `i`.
pub open spec fn platform_at(pre: AppView, i: int) -> AppView {
    with_entry(pre, EntryView { selected_platform: i as usize, ..pre.entry })
}

/// Choice of a platform to import a profile from.
pub open spec fn profile_select_step(
    pre: AppView,
    code: KeyCode,
    post: AppView,
    r: Option<AsyncAction>,
) -> bool {
    let p = pre.entry.selected_platform;
    match code {
        KeyCode::Enter => match pre.screen {
            Screen::ProfileImportSelect { did, .. } => {
                &&& post == pre
                &&& r matches Some(AsyncAction::StartProfileImport { platform, did: d })
                &&& platform@ == platform_id_spec(p as int)
                &&& d == Some(did)
            },
            _ => post == pre && r is None,
        },
        KeyCode::Up => r is None && post == (if p > 0 {
            platform_at(pre, p - 1)
        } else {
            pre
        }),
        KeyCode::Down => r is None && post == (if p < 3 {
            platform_at(pre, p + 1)
        } else {
            pre
        }),
        KeyCode::Char('1') => r is None && post == platform_at(pre, 0),
        KeyCode::Char('2') => r is None && post == platform_at(pre, 1),
        KeyCode::Char('3') => r is None && post == platform_at(pre, 2),
        KeyCode::Char('4') => r is None && post == platform_at(pre, 3),
        KeyCode::Char('s') => r is None && match pre.screen {
            Screen::ProfileImportSelect { did, display_name } => post == fresh_input_on(
                pre,
                Screen::UsernameRegister {
                    did,
                    display_name,
                    linked_platform: None,
                    linked_username: None,
                },
            ),
            _ => post == pre,
        },
        KeyCode::Esc => r is None && post == back_to_welcome(pre),
        _ => r is None && post == pre,
    }
}

/// Waiting for the browser sign-in: Esc goes back to the platform choice.
pub open spec fn profile_loading_step(pre: AppView, code: KeyCode, post: AppView) -> bool {
    let stopped = with_entry(pre, EntryView { polling_active: false, ..pre.entry });
    match (code, pre.screen) {
        (KeyCode::Esc, Screen::ProfileImportLoading { did, display_name, .. }) => post
            == select_screen(stopped, Screen::ProfileImportSelect { did, display_name }),
        (KeyCode::Esc, _) => post == stopped,
        _ => post == pre,
    }
}

/// The imported profile is shown.
pub open spec fn profile_success_step(pre: AppView, code: KeyCode, post: AppView) -> bool {
    match (code, pre.screen) {
        (
            KeyCode::Enter,
            Screen::ProfileImportSuccess { did, display_name, platform, platform_username, .. },
        ) => post == fresh_input_on(
            pre,
            Screen::UsernameRegister {
                did,
                display_name,
                linked_platform: Some(platform),
                linked_username: Some(platform_username),
            },
        ),
        (KeyCode::Esc, Screen::ProfileImportSuccess { did, display_name, .. }) => post
            == select_screen(pre, Screen::ProfileImportSelect { did, display_name }),
        _ => post == pre,
    }
}

/// Username entry.
pub open spec fn username_register_step(
    pre: AppView,
    code: KeyCode,
    post: AppView,
    r: Option<AsyncAction>,
) -> bool {
    match (code, pre.screen) {
        (KeyCode::Enter, Screen::UsernameRegister { did, .. }) => if is_blank(pre.entry.input) {
            r is None && with_error(pre, post, "Username cannot be empty"@)
        } else {
            &&& post == pre
            &&& r matches Some(AsyncAction::RegisterUsername { did: d, name })
            &&& d == did
            &&& name@ == trim(pre.entry.input)
        },
        (
            KeyCode::Char('s'),
            Screen::UsernameRegister { did, display_name, linked_platform, linked_username },
        ) if pre.entry.input.len() == 0 => r is None && post == (AppView {
            screen: Screen::DiscoveryOptIn {
                did,
                display_name,
                username: None,
                linked_platform,
                linked_username,
            },
            ..pre
        }),
        (KeyCode::Esc, Screen::UsernameRegister { did, display_name, .. }) => r is None && post
            == select_screen(pre, Screen::ProfileImportSelect { did, display_name }),
        (KeyCode::Enter, _) | (KeyCode::Esc, _) => r is None && post == pre,
        (KeyCode::Char('s'), _) if pre.entry.input.len() == 0 => r is None && post == pre,
        _ => r is None && post == pre.text_input_step(code),
    }
}

/// The registered username is shown.
pub open spec fn username_success_step(pre: AppView, code: KeyCode, post: AppView) -> bool {
    match (code, pre.screen) {
        (
            KeyCode::Enter,
            Screen::UsernameSuccess {
                did,
                display_name,
                username,
                linked_platform,
                linked_username,
            },
        ) => post == entry_screen(
            pre,
            EntryView { discovery_choice: true, ..pre.entry },
            Screen::DiscoveryOptIn {
                did,
                display_name,
                username: Some(username),
                linked_platform,
                linked_username,
            },
        ),
        _ => post == pre,
    }
}

/// The discoverability choice set to `b`.
pub open spec fn choice_is(pre: AppView, b: bool) -> AppView {
    with_entry(pre, EntryView { discovery_choice: b, ..pre.entry })
}

/// Choice of being discoverable.
pub open spec fn discovery_step(
    pre: AppView,
    code: KeyCode,
    post: AppView,
    r: Option<AsyncAction>,
) -> bool {
    match code {
        KeyCode::Enter => match pre.screen {
            Screen::DiscoveryOptIn { did, .. } => {
                &&& post == pre
                &&& r matches Some(AsyncAction::EnableDiscovery { did: d, discoverable })
                &&& d == did
                &&& discoverable == pre.entry.discovery_choice
            },
            _ => post == pre && r is None,
        },
        KeyCode::Up | KeyCode::Down => r is None && post == choice_is(
            pre,
            !pre.entry.discovery_choice,
        ),
        KeyCode::Char('y') => r is None && post == choice_is(pre, true),
        KeyCode::Char('n') => r is None && post == choice_is(pre, false),
        KeyCode::Esc => r is None && match pre.screen {
            Screen::DiscoveryOptIn { did, display_name, linked_platform, linked_username, .. } =>
                post == fresh_input_on(
                pre,
                Screen::UsernameRegister { did, display_name, linked_platform, linked_username },
            ),
            _ => post == pre,
        },
        _ => r is None && post == pre,
    }
}

impl App {
    pub fn handle_welcome_key(&mut self, key: KeyEvent) -> (r: Option<AsyncAction>)
        requires
            old(self)@.wf(),
        ensures
            r is None,
            welcome_step(old(self)@, key.code, final(self)@),
            final(self)@.wf(),
    {
        if self.entry.welcome_tick < INTRO_END {
            self.entry.welcome_tick = INTRO_END;
            return None;
        }
        match key.code {
            KeyCode::Char('1') | KeyCode::Char('c') => {
                self.go_create_name();
            },
            KeyCode::Char('2') | KeyCode::Char('i') => {
                self.go_import_phrase();
            },
            KeyCode::Char('q') | KeyCode::Esc => {
                self.session.should_quit = true;
            },
            _ => {},
        }
        None
    }

    fn go_create_name(&mut self)
        requires
            old(self)@.wf(),
        ensures
            final(self)@ == fresh_input_on(old(self)@, Screen::CreateName),
            final(self)@.wf(),
    {
        self.entry.input = Vec::new();
        self.entry.cursor_pos = 0;
        self.screen = Screen::CreateName;
    }

    /// Back to the import phrase screen with 24 empty words.
    pub fn go_import_phrase(&mut self)
        requires
            old(self)@.wf(),
        ensures
            final(self)@ == entry_screen(
                old(self)@,
                EntryView {
                    word_inputs: final(self)@.entry.word_inputs,
                    active_word: 0,
                    ..old(self)@.entry
                },
                Screen::ImportPhrase,
            ),
            empty_words(final(self)@.entry.word_inputs),
            final(self)@.wf(),
    {
        self.entry.word_inputs = App::fresh_words();
        self.entry.active_word = 0;
        self.screen = Screen::ImportPhrase;
    }

    pub fn handle_create_name_key(&mut self, key: KeyEvent) -> (r: Option<AsyncAction>)
        requires
            old(self)@.wf(),
        ensures
            r is None,
            create_name_step(old(self)@, key.code, final(self)@),
            final(self)@.wf(),
    {
        match key.code {
            KeyCode::Enter => {
                let name = trim_chars(&self.entry.input);
                if name.len() == 0 {
                    self.set_error("Display name cannot be empty");
                    return None;
                }
                let name = string_of(&name);
                self.push_effect(Effect::CreateIdentity { name });
            },
            KeyCode::Esc => {
                self.entry.welcome_tick = 100;
                self.screen = Screen::Welcome;
            },
            _ => {
                self.handle_text_input(key);
            },
        }
        None
    }

    pub fn handle_create_phrase_key(&mut self, key: KeyEvent) -> (r: Option<AsyncAction>)
        requires
            old(self)@.wf(),
        ensures
            r is None,
            create_phrase_step(old(self)@, key.code, final(self)@),
            final(self)@.wf(),
    {
        match key.code {
            KeyCode::Enter => {
                if let Screen::CreatePhrase { .. } = &self.screen {
                    let s = self.take_screen();
                    if let Screen::CreatePhrase { name, phrase } = s {
                        self.entry.confirmed_backup = false;
                        self.screen = Screen::CreateConfirm { name, phrase };
                    }
                }
            },
            KeyCode::Esc => {
                self.entry.welcome_tick = 100;
                self.screen = Screen::Welcome;
            },
            _ => {},
        }
        None
    }

    pub fn handle_create_confirm_key(&mut self, key: KeyEvent) -> (r: Option<AsyncAction>)
        requires
            old(self)@.wf(),
        ensures
            r is None,
            create_confirm_step(old(self)@, key.code, final(self)@),
            final(self)@.wf(),
    {
        match key.code {
            KeyCode::Char(' ') => {
                self.entry.confirmed_backup = !self.entry.confirmed_backup;
            },
            KeyCode::Enter => {
                if !self.entry.confirmed_backup {
                    self.set_error("You must confirm you've backed up your phrase");
                    return None;
                }
                if let Screen::CreateConfirm { name, phrase } = &self.screen {
                    let words = crate::text::dup_strings(phrase);
                    let n = name.clone();
                        self.push_effect(Effect::ImportIdentity { words, name: n });
                }
            },
            KeyCode::Esc => {
                if let Screen::CreateConfirm { .. } = &self.screen {
                    let s = self.take_screen();
                    if let Screen::CreateConfirm { name, phrase } = s {
                        self.screen = Screen::CreatePhrase { name, phrase };
                    }
                }
            },
            _ => {},
        }
        None
    }

    /// Whether every one of the 24 words holds something.
    fn all_words_filled(&self) -> (r: bool)
        requires
            self@.wf(),
        ensures
            r == !(exists|i: int| 0 <= i < 24 && #[trigger] self@.entry.word_inputs[i]@.len() == 0),
    {
        let mut i: usize = 0;
        while i < 24
            invariant
                self@.wf(),
                i <= 24,
                forall|k: int| 0 <= k < i ==> #[trigger] self@.entry.word_inputs[k]@.len() != 0,
            decreases 24 - i,
        {
            if self.entry.word_inputs[i].len() == 0 {
                return false;
            }
            i = i + 1;
        }
        true
    }

    /// The typed words as strings.
    fn typed_phrase(&self) -> (r: Vec<String>)
        requires
            self@.wf(),
        ensures
            r@.map_values(|s: String| s@) == typed_words(self@.entry.word_inputs),
    {
        let mut r: Vec<String> = Vec::new();
        let mut i: usize = 0;
        while i < 24
            invariant
                self@.wf(),
                i <= 24,
                r@.len() == i,
                forall|k: int| 0 <= k < i ==> (#[trigger] r@[k])@ == self@.entry.word_inputs[k]@,
            decreases 24 - i,
        {
            r.push(string_of(&self.entry.word_inputs[i]));
            i = i + 1;
        }
        assert(r@.map_values(|s: String| s@) =~= typed_words(self@.entry.word_inputs));
        r
    }

    /// Replace the active word.
    fn set_active_word(&mut self, w: Vec<char>)
        requires
            old(self)@.wf(),
            forall|j: int| 0 <= j < w@.len() ==> 'a' <= #[trigger] w@[j] <= 'z',
        ensures
            final(self)@ == with_entry(
                old(self)@,
                EntryView { word_inputs: final(self)@.entry.word_inputs, ..old(self)@.entry },
            ),
            final(self)@.entry.word_inputs.len() == 24,
            final(self)@.entry.word_inputs[old(self)@.entry.active_word as int] == w,
            forall|i: int|
                0 <= i < 24 && i != old(self)@.entry.active_word ==> final(self)@.entry.word_inputs[i]
                    == old(self)@.entry.word_inputs[i],
            final(self)@.wf(),
    {
        proof {
            reveal(words_lowercase);
        }
        let i = self.entry.active_word;
        let mut words: Vec<Vec<char>> = Vec::new();
        std::mem::swap(&mut words, &mut self.entry.word_inputs);
        let _old = words.remove(i);
        words.insert(i, w);
        self.entry.word_inputs = words;
        assert forall|a: int, b: int|
            0 <= a < self@.entry.word_inputs.len() && 0 <= b < self@.entry.word_inputs[a]@.len() implies 'a'
            <= #[trigger] self@.entry.word_inputs[a]@[b] <= 'z' by {
            if a != i {
                assert(self@.entry.word_inputs[a] == old(self)@.entry.word_inputs[a]);
            }
        }
    }

    fn import_backspace(&mut self)
        requires
            old(self)@.wf(),
        ensures
            import_phrase_step(
                old(self)@,
                KeyEvent { code: KeyCode::Backspace, ctrl: false },
                final(self)@,
            ),
            final(self)@.wf(),
    {
        proof {
            reveal(words_lowercase);
        }
        let i = self.entry.active_word;
        if self.entry.word_inputs[i].len() > 0 {
            let mut w = crate::text::dup_chars(&self.entry.word_inputs[i]);
            w.pop();
            proof {
                assert(w@ =~= old(self)@.entry.word_inputs[i as int]@.drop_last());
            }
            self.set_active_word(w);
        } else if i > 0 {
            self.entry.active_word = i - 1;
        }
    }

    fn import_char(&mut self, key: KeyEvent, c: char)
        requires
            old(self)@.wf(),
            key.code == KeyCode::Char(c),
            c != ' ',
        ensures
            import_phrase_step(old(self)@, key, final(self)@),
            final(self)@.wf(),
    {
        if key.ctrl && c == 'v' {
            return;
        }
        proof {
            reveal(words_lowercase);
        }
        let i = self.entry.active_word;
        let n = self.entry.word_inputs[i].len();
        if (n < 12 && 'a' <= c && c <= 'z') || ('A' <= c && c <= 'Z') {
            let lc = if 'A' <= c && c <= 'Z' {
                ascii_lower(c)
            } else {
                c
            };
            let mut w = crate::text::dup_chars(&self.entry.word_inputs[i]);
            w.push(lc);
            proof {
                assert forall|j: int| 0 <= j < w@.len() implies 'a' <= #[trigger] w@[j] <= 'z' by {
                    if j < n {
                        assert(w@[j] == old(self)@.entry.word_inputs[i as int]@[j]);
                    }
                }
            }
            self.set_active_word(w);
        }
    }

    pub fn handle_import_phrase_key(&mut self, key: KeyEvent) -> (r: Option<AsyncAction>)
        requires
            old(self)@.wf(),
        ensures
            r is None,
            import_phrase_step(old(self)@, key, final(self)@),
            final(self)@.wf(),
    {
        match key.code {
            KeyCode::Esc => {
                self.entry.welcome_tick = 100;
                self.screen = Screen::Welcome;
            },
            KeyCode::Tab => {
                if self.entry.active_word < 23 {
                    self.entry.active_word = self.entry.active_word + 1;
                }
            },
            KeyCode::BackTab => {
                if self.entry.active_word > 0 {
                    self.entry.active_word = self.entry.active_word - 1;
                }
            },
            KeyCode::Enter => {
                if !self.all_words_filled() {
                    self.set_error("Please fill in all 24 words");
                    return None;
                }
                let words = self.typed_phrase();
                self.push_effect(Effect::ValidatePhrase { words });
            },
            KeyCode::Backspace => {
                self.import_backspace();
            },
            KeyCode::Char(' ') => {
                if self.entry.word_inputs[self.entry.active_word].len() > 0 && self.entry.active_word < 23 {
                    self.entry.active_word = self.entry.active_word + 1;
                }
            },
            KeyCode::Char(c) => {
                self.import_char(key, c);
            },
            _ => {},
        }
        None
    }

    /// Answer to `Effect::CreateIdentity`: the new identity's DID and the
    /// words of its recovery phrase, or the failure's text.
    pub fn identity_created(&mut self, outcome: Result<(String, Vec<String>), String>)
        requires
            old(self)@.wf(),
        ensures
            final(self)@.wf(),
            match (old(self)@.screen, outcome) {
                (Screen::CreateName, Ok((did, words))) => {
                    &&& final(self)@ == (AppView {
                        session: Session {
                            my_did: Some(did),
                            my_name: final(self)@.session.my_name,
                            ..old(self)@.session
                        },
                        screen: final(self)@.screen,
                        ..old(self)@
                    })
                    &&& final(self)@.session.my_name matches Some(n)
                    &&& n@ == trim(old(self)@.entry.input)
                    &&& final(self)@.screen matches Screen::CreatePhrase { name, phrase }
                    &&& name == n
                    &&& phrase == words
                },
                (Screen::CreateName, Err(e)) => with_error(
                    old(self)@,
                    final(self)@,
                    "Failed to create identity: "@ + e@,
                ),
                _ => final(self)@ == old(self)@,
            },
    {
        if let Screen::CreateName = &self.screen {
            match outcome {
                Ok((did, words)) => {
                    let name = string_of(&trim_chars(&self.entry.input));
                    let n2 = name.clone();
                    self.session.my_did = Some(did);
                    self.session.my_name = Some(name);
                    self.screen = Screen::CreatePhrase { name: n2, phrase: words };
                },
                Err(e) => {
                    self.set_error2("Failed to create identity: ", e.as_str());
                },
            }
        }
    }

    /// Answer to `Effect::ImportIdentity`: the restored identity, or the
    /// failure's text.
    pub fn identity_imported(&mut self, outcome: Result<DashboardInfo, String>)
        requires
            old(self)@.wf(),
        ensures
            final(self)@.wf(),
            match (old(self)@.screen, outcome) {
                (Screen::CreateConfirm { phrase, .. }, Ok(info)) | (
                    Screen::ImportName { phrase },
                    Ok(info),
                ) => {
                    &&& final(self)@ == (AppView {
                        session: Session {
                            my_did: Some(info.did),
                            my_name: Some(info.display_name),
                            ..old(self)@.session
                        },
                        entry: EntryView { selected_platform: 0, ..old(self)@.entry },
                        screen: Screen::ProfileImportSelect {
                            did: info.did,
                            display_name: info.display_name,
                        },
                        effects: final(self)@.effects,
                        ..old(self)@
                    })
                    &&& if old(self)@.session.has_db {
                        &&& final(self)@.effects.len() == old(self)@.effects.len() + 1
                        &&& final(self)@.effects.subrange(0, old(self)@.effects.len() as int)
                            == old(self)@.effects
                        &&& final(self)@.effects.last() matches Effect::SaveIdentity {
                            phrase: p,
                            display_name,
                            did,
                            created_at,
                        }
                        &&& p@ == phrase@ && display_name == info.display_name && did == info.did
                            && created_at == info.created_at
                    } else {
                        final(self)@.effects == old(self)@.effects
                    }
                },
                (Screen::CreateConfirm { .. }, Err(e)) => with_error(
                    old(self)@,
                    final(self)@,
                    "Failed to restore identity: "@ + e@,
                ),
                (Screen::ImportName { .. }, Err(e)) => with_error(
                    old(self)@,
                    final(self)@,
                    "Failed to import identity: "@ + e@,
                ),
                _ => final(self)@ == old(self)@,
            },
    {
        let phrase = match &self.screen {
            Screen::CreateConfirm { phrase, .. } => crate::text::dup_strings(phrase),
            Screen::ImportName { phrase } => crate::text::dup_strings(phrase),
            _ => {
                return;
            },
        };
        let creating = match &self.screen {
            Screen::CreateConfirm { .. } => true,
            _ => false,
        };
        match outcome {
            Ok(info) => {
                if self.session.has_db {
                    self.push_effect(
                        Effect::SaveIdentity {
                            phrase,
                            display_name: info.display_name.clone(),
                            did: info.did.clone(),
                            created_at: info.created_at,
                        },
                    );
                }
                self.session.my_did = Some(info.did.clone());
                self.session.my_name = Some(info.display_name.clone());
                self.entry.selected_platform = 0;
                self.screen = Screen::ProfileImportSelect {
                    did: info.did,
                    display_name: info.display_name,
                };
            },
            Err(e) => {
                if creating {
                    self.set_error2("Failed to restore identity: ", e.as_str());
                } else {
                    self.set_error2("Failed to import identity: ", e.as_str());
                }
            },
        }
    }

    /// Answer to `Effect::ValidatePhrase`: whether the typed phrase is a
    /// valid recovery phrase (or the failure's text).
    pub fn phrase_validated(&mut self, outcome: Result<(), String>)
        requires
            old(self)@.wf(),
        ensures
            final(self)@.wf(),
            match (old(self)@.screen, outcome) {
                (Screen::ImportPhrase, Ok(())) => {
                    &&& final(self)@ == fresh_input_on(old(self)@, final(self)@.screen)
                    &&& final(self)@.screen matches Screen::ImportName { phrase }
                    &&& phrase@.map_values(|s: String| s@) == typed_words(old(self)@.entry.word_inputs)
                },
                (Screen::ImportPhrase, Err(e)) => with_error(
                    old(self)@,
                    final(self)@,
                    "Invalid recovery phrase: "@ + e@,
                ),
                _ => final(self)@ == old(self)@,
            },
    {
        if let Screen::ImportPhrase = &self.screen {
            match outcome {
                Ok(()) => {
                    let words = self.typed_phrase();
                    self.entry.input = Vec::new();
                    self.entry.cursor_pos = 0;
                    self.screen = Screen::ImportName { phrase: words };
                },
                Err(e) => {
                    self.set_error2("Invalid recovery phrase: ", e.as_str());
                },
            }
        }
    }

    pub fn handle_import_name_key(&mut self, key: KeyEvent) -> (r: Option<AsyncAction>)
        requires
            old(self)@.wf(),
        ensures
            r is None,
            import_name_step(old(self)@, key.code, final(self)@),
            final(self)@.wf(),
    {
        match key.code {
            KeyCode::Enter => {
                let name = trim_chars(&self.entry.input);
                if name.len() == 0 {
                    self.set_error("Display name cannot be empty");
                    return None;
                }
                if let Screen::ImportName { phrase } = &self.screen {
                    let words = crate::text::dup_strings(phrase);
                    let name = string_of(&name);
                    self.push_effect(Effect::ImportIdentity { words, name });
                }
            },
            KeyCode::Esc => {
                self.go_import_phrase();
            },
            _ => {
                self.handle_text_input(key);
            },
        }
        None
    }

    pub fn handle_profile_import_select_key(&mut self, key: KeyEvent) -> (r: Option<AsyncAction>)
        requires
            old(self)@.wf(),
        ensures
            profile_select_step(old(self)@, key.code, final(self)@, r),
            final(self)@.wf(),
    {
        match key.code {
            KeyCode::Up => {
                if self.entry.selected_platform > 0 {
                    self.entry.selected_platform = self.entry.selected_platform - 1;
                }
            },
            KeyCode::Down => {
                if self.entry.selected_platform < 3 {
                    self.entry.selected_platform = self.entry.selected_platform + 1;
                }
            },
            KeyCode::Char('1') => {
                self.entry.selected_platform = 0;
            },
            KeyCode::Char('2') => {
                self.entry.selected_platform = 1;
            },
            KeyCode::Char('3') => {
                self.entry.selected_platform = 2;
            },
            KeyCode::Char('4') => {
                self.entry.selected_platform = 3;
            },
            KeyCode::Enter => {
                let platform = platform_id(self.entry.selected_platform);
                if let Screen::ProfileImportSelect { did, .. } = &self.screen {
                    return Some(AsyncAction::StartProfileImport { platform, did: Some(did.clone()) });
                }
            },
            KeyCode::Char('s') => {
                if let Screen::ProfileImportSelect { .. } = &self.screen {
                    let s = self.take_screen();
                    if let Screen::ProfileImportSelect { did, display_name } = s {
                        self.entry.input = Vec::new();
                        self.entry.cursor_pos = 0;
                        self.screen = Screen::UsernameRegister {
                            did,
                            display_name,
                            linked_platform: None,
                            linked_username: None,
                        };
                    }
                }
            },
            KeyCode::Esc => {
                self.entry.welcome_tick = 100;
                self.screen = Screen::Welcome;
            },
            _ => {},
        }
        None
    }

    pub fn handle_profile_import_loading_key(&mut self, key: KeyEvent) -> (r: Option<AsyncAction>)
        requires
            old(self)@.wf(),
        ensures
            r is None,
            profile_loading_step(old(self)@, key.code, final(self)@),
            final(self)@.wf(),
    {
        if let KeyCode::Esc = key.code {
            self.entry.polling_active = false;
            if let Screen::ProfileImportLoading { .. } = &self.screen {
                let s = self.take_screen();
                if let Screen::ProfileImportLoading { did, display_name, .. } = s {
                    self.entry.selected_platform = 0;
                    self.screen = Screen::ProfileImportSelect { did, display_name };
                }
            }
        }
        None
    }

    pub fn handle_profile_import_success_key(&mut self, key: KeyEvent) -> (r: Option<AsyncAction>)
        requires
            old(self)@.wf(),
        ensures
            r is None,
            profile_success_step(old(self)@, key.code, final(self)@),
            final(self)@.wf(),
    {
        match key.code {
            KeyCode::Enter => {
                if let Screen::ProfileImportSuccess { .. } = &self.screen {
                    let s = self.take_screen();
                    if let Screen::ProfileImportSuccess {
                        did,
                        display_name,
                        platform,
                        platform_username,
                        ..
                    } = s {
                        self.entry.input = Vec::new();
                        self.entry.cursor_pos = 0;
                        self.screen = Screen::UsernameRegister {
                            did,
                            display_name,
                            linked_platform: Some(platform),
                            linked_username: Some(platform_username),
                        };
                    }
                }
            },
            KeyCode::Esc => {
                if let Screen::ProfileImportSuccess { .. } = &self.screen {
                    let s = self.take_screen();
                    if let Screen::ProfileImportSuccess { did, display_name, .. } = s {
                        self.entry.selected_platform = 0;
                        self.screen = Screen::ProfileImportSelect { did, display_name };
                    }
                }
            },
            _ => {},
        }
        None
    }

    pub fn handle_username_register_key(&mut self, key: KeyEvent) -> (r: Option<AsyncAction>)
        requires
            old(self)@.wf(),
        ensures
            username_register_step(old(self)@, key.code, final(self)@, r),
            final(self)@.wf(),
    {
        let on_screen = match &self.screen {
            Screen::UsernameRegister { .. } => true,
            _ => false,
        };
        match key.code {
            KeyCode::Enter => {
                if !on_screen {
                    return None;
                }
                let name = trim_chars(&self.entry.input);
                if name.len() == 0 {
                    self.set_error("Username cannot be empty");
                    return None;
                }
                if let Screen::UsernameRegister { did, .. } = &self.screen {
                    return Some(
                        AsyncAction::RegisterUsername { did: did.clone(), name: string_of(&name) },
                    );
                }
                None
            },
            KeyCode::Char('s') if self.entry.input.len() == 0 => {
                if on_screen {
                    let s = self.take_screen();
                    if let Screen::UsernameRegister {
                        did,
                        display_name,
                        linked_platform,
                        linked_username,
                    } = s {
                        self.screen = Screen::DiscoveryOptIn {
                            did,
                            display_name,
                            username: None,
                            linked_platform,
                            linked_username,
                        };
                    }
                }
                None
            },
            KeyCode::Esc => {
                if on_screen {
                    let s = self.take_screen();
                    if let Screen::UsernameRegister { did, display_name, .. } = s {
                        self.entry.selected_platform = 0;
                        self.screen = Screen::ProfileImportSelect { did, display_name };
                    }
                }
                None
            },
            _ => {
                self.handle_text_input(key);
                None
            },
        }
    }

    pub fn handle_username_success_key(&mut self, key: KeyEvent) -> (r: Option<AsyncAction>)
        requires
            old(self)@.wf(),
        ensures
            r is None,
            username_success_step(old(self)@, key.code, final(self)@),
            final(self)@.wf(),
    {
        if let KeyCode::Enter = key.code {
            if let Screen::UsernameSuccess { .. } = &self.screen {
                let s = self.take_screen();
                if let Screen::UsernameSuccess {
                    did,
                    display_name,
                    username,
                    linked_platform,
                    linked_username,
                } = s {
                    self.entry.discovery_choice = true;
                    self.screen = Screen::DiscoveryOptIn {
                        did,
                        display_name,
                        username: Some(username),
                        linked_platform,
                        linked_username,
                    };
                }
            }
        }
        None
    }

    pub fn handle_discovery_optin_key(&mut self, key: KeyEvent) -> (r: Option<AsyncAction>)
        requires
            old(self)@.wf(),
        ensures
            discovery_step(old(self)@, key.code, final(self)@, r),
            final(self)@.wf(),
    {
        match key.code {
            KeyCode::Up | KeyCode::Down => {
                self.entry.discovery_choice = !self.entry.discovery_choice;
            },
            KeyCode::Char('y') => {
                self.entry.discovery_choice = true;
            },
            KeyCode::Char('n') => {
                self.entry.discovery_choice = false;
            },
            KeyCode::Enter => {
                if let Screen::DiscoveryOptIn { did, .. } = &self.screen {
                    return Some(
                        AsyncAction::EnableDiscovery {
                            did: did.clone(),
                            discoverable: self.entry.discovery_choice,
                        },
                    );
                }
            },
            KeyCode::Esc => {
                if let Screen::DiscoveryOptIn { .. } = &self.screen {
                    let s = self.take_screen();
                    if let Screen::DiscoveryOptIn {
                        did,
                        display_name,
                        linked_platform,
                        linked_username,
                        ..
                    } = s {
                        self.entry.input = Vec::new();
                        self.entry.cursor_pos = 0;
                        self.screen = Screen::UsernameRegister {
                            did,
                            display_name,
                            linked_platform,
                            linked_username,
                        };
                    }
                }
            },
            _ => {},
        }
        None
    }
}

/// ASCII lowercase of an uppercase letter.
fn ascii_lower(c: char) -> (r: char)
    requires
        'A' <= c <= 'Z',
    ensures
        r == ((c as u32) + 32) as char,
        'a' <= r <= 'z',
{
    let b: u8 = c as u8;
    let l: u8 = b + 32;
    l as char
}

} // verus!
