//! Which handler a key goes to: the global tab shortcuts first, then the
//! open popup menu, the go-to-line prompt, and the screen on show.
use vstd::prelude::*;
use crate::app::{App, AppFocus, AppScreen, Effect, KeyCode, KeyEvent};
use crate::app::input::{editor_key_ok, editor_step, new_file_opened, tab_advanced, tab_closed};
use crate::app::screens::{
    ai_step, git_step, go_to_line_step, info_step, palette_step, picker_key_ok, picker_shown,
    picker_step, popup_key_ok, popup_step, screen_set, setup_key_ok, setup_step, welcome_step,
};
use crate::theme::Theme;

verus! {

/// The tab a digit key selects with Ctrl or Alt: `1` to `9` for the first
/// nine tabs.
pub open spec fn digit_tab(k: KeyCode) -> Option<usize> {
    match k {
        KeyCode::Char(c) => if '1' <= c <= '9' {
            Some((c as u32 - '1' as u32) as usize)
        } else {
            None
        },
        _ => None,
    }
}

/// `key` is one of the shortcuts that work on every screen: Ctrl with `x`,
/// `o`, `n`, `p` or Tab; Ctrl or Alt with a digit; Alt with Left or Right.
pub open spec fn is_global(key: KeyEvent) -> bool {
    let k = key.code;
    ||| key.ctrl && (k == KeyCode::Char('x') || k == KeyCode::Char('o') || k == KeyCode::Char('n')
        || k == KeyCode::Char('p') || k == KeyCode::Tab)
    ||| (key.ctrl || key.alt) && digit_tab(k) is Some
    ||| key.alt && (k == KeyCode::Left || k == KeyCode::Right)
}

/// `a1` is `a0` on tab `i`, when it exists.
#[verifier::opaque]
pub open spec fn tab_selected(a0: App, a1: App, i: usize) -> bool {
    a1 == if i < a0.documents@.len() {
        App { active_tab: i, ..a0 }
    } else {
        a0
    }
}

/// `a1` is `a0` on the previous tab, wrapping around to the last.
#[verifier::opaque]
pub open spec fn tab_receded(a0: App, a1: App) -> bool {
    a1 == if a0.active_tab > 0 {
        App { active_tab: (a0.active_tab - 1) as usize, ..a0 }
    } else if a0.documents@.len() > 0 {
        App { active_tab: (a0.documents@.len() - 1) as usize, ..a0 }
    } else {
        a0
    }
}

/// `a1` and `effects` after a global shortcut: Ctrl+X closes the tab,
/// Ctrl+O shows the file picker, Ctrl+N opens a new file, Ctrl+P shows the
/// command palette, Ctrl+Tab and Alt+Right go to the next tab, Alt+Left to
/// the previous one, a digit to that tab.
pub open spec fn global_step(a0: App, a1: App, key: KeyEvent, effects: Seq<Effect>) -> bool {
    let k = key.code;
    if key.ctrl && k == KeyCode::Char('o') {
        effects == seq![Effect::RefreshFilePicker] && picker_shown(a0, a1)
    } else {
        &&& effects.len() == 0
        &&& if key.ctrl && k == KeyCode::Char('x') {
            tab_closed(a0, a1)
        } else if key.ctrl && k == KeyCode::Char('n') {
            new_file_opened(a0, a1)
        } else if key.ctrl && k == KeyCode::Char('p') {
            screen_set(a0, a1, AppScreen::CommandPalette)
        } else if key.ctrl && k == KeyCode::Tab {
            tab_advanced(a0, a1)
        } else if digit_tab(k) is Some {
            tab_selected(a0, a1, digit_tab(k)->0)
        } else if k == KeyCode::Left {
            tab_receded(a0, a1)
        } else {
            tab_advanced(a0, a1)
        }
    }
}

/// `a1` and `effects` after `key` on what `a0` shows: its popup menu, else
/// its go-to-line prompt, else its screen (on the editor screen, the AI
/// prompt when the sidebar has the focus, else the file picker when shown).
pub open spec fn routed_step(a0: App, a1: App, key: KeyEvent, effects: Seq<Effect>, themes: Seq<Theme>) -> bool {
    let k = key.code;
    if a0.active_popup is Some {
        popup_step(a0, a1, k, effects, themes)
    } else if a0.go_to_line_active {
        effects.len() == 0 && go_to_line_step(a0, a1, k)
    } else {
        match a0.screen {
            AppScreen::Setup => setup_step(a0, a1, k, effects, themes),
            AppScreen::Welcome => welcome_step(a0, a1, k, effects),
            AppScreen::Editor => if a0.show_ai_sidebar && a0.focus == AppFocus::AiPrompt {
                ai_step(a0, a1, k, effects)
            } else if a0.file_picker_active {
                picker_step(a0, a1, k, effects)
            } else {
                editor_step(a0, a1, key, effects, themes)
            },
            AppScreen::CommandPalette => palette_step(a0, a1, k, effects, themes),
            AppScreen::About | AppScreen::Updater | AppScreen::Controls => effects.len() == 0
                && info_step(a0, a1),
            AppScreen::GitStatus => effects.len() == 0 && git_step(a0, a1, k, AppScreen::Welcome),
            AppScreen::GitDiff | AppScreen::GitCommit => effects.len() == 0 && git_step(
                a0,
                a1,
                k,
                AppScreen::GitStatus,
            ),
        }
    }
}

/// `key` can be handled where `routed_step` sends it without failing.
pub open spec fn routed_key_ok(a: App, key: KeyEvent, themes: Seq<Theme>) -> bool {
    let k = key.code;
    if a.active_popup is Some {
        popup_key_ok(a, k, themes)
    } else if a.go_to_line_active {
        true
    } else {
        match a.screen {
            AppScreen::Setup => setup_key_ok(a, k, themes),
            AppScreen::Welcome => a.welcome_state.recent_files@.len() + 7 <= usize::MAX,
            AppScreen::Editor => if a.show_ai_sidebar && a.focus == AppFocus::AiPrompt {
                true
            } else if a.file_picker_active {
                picker_key_ok(a, k)
            } else {
                editor_key_ok(a, key, themes)
            },
            _ => true,
        }
    }
}

/// `a1` and `effects` after `key`: a global shortcut, or what `routed_step`
/// does.
pub open spec fn key_step(a0: App, a1: App, key: KeyEvent, effects: Seq<Effect>, themes: Seq<Theme>) -> bool {
    if is_global(key) {
        global_step(a0, a1, key, effects)
    } else {
        routed_step(a0, a1, key, effects, themes)
    }
}

/// `key` can be handled without failing.
pub open spec fn key_ok(a: App, key: KeyEvent, themes: Seq<Theme>) -> bool {
    is_global(key) || routed_key_ok(a, key, themes)
}

/// `digit_tab`.
pub(crate) fn digit_tab_of(k: KeyCode) -> (r: Option<usize>)
    ensures
        r == digit_tab(k),
{
    match k {
        KeyCode::Char(c) => if '1' <= c && c <= '9' {
            Some((c as u32 - '1' as u32) as usize)
        } else {
            None
        },
        _ => None,
    }
}

impl App {
    /// Goes to tab `i`, when it exists.
    #[verifier::rlimit(30)]
    fn pick_tab(&mut self, i: usize)
        requires
            old(self).wf(),
        ensures
            final(self).wf(),
            tab_selected(*old(self), *final(self), i),
    {
        self.select_tab(i);
        proof {
            reveal(tab_selected);
        }
    }

    /// Goes to the previous tab, wrapping around.
    #[verifier::rlimit(30)]
    fn previous_tab(&mut self)
        requires
            old(self).wf(),
        ensures
            final(self).wf(),
            tab_receded(*old(self), *final(self)),
    {
        let t = self.active_tab;
        let n = self.documents.len();
        self.active_tab = if t > 0 {
            t - 1
        } else if n > 0 {
            n - 1
        } else {
            t
        };
        proof {
            reveal(tab_receded);
        }
    }

    /// A global shortcut.
    fn global_key(&mut self, key: KeyEvent) -> (effects: Vec<Effect>)
        requires
            old(self).wf(),
            is_global(key),
        ensures
            final(self).wf(),
            global_step(*old(self), *final(self), key, effects@),
    {
        let k = key.code;
        if key.ctrl && k == KeyCode::Char('o') {
            let e = self.open_file_picker();
            let mut effects: Vec<Effect> = Vec::new();
            effects.push(e);
            proof {
                assert(effects@ =~= seq![Effect::RefreshFilePicker]);
            }
            effects
        } else {
            if key.ctrl && k == KeyCode::Char('x') {
                self.close_tab();
            } else if key.ctrl && k == KeyCode::Char('n') {
                self.open_new_file();
            } else if key.ctrl && k == KeyCode::Char('p') {
                self.go_to_screen(AppScreen::CommandPalette);
            } else if key.ctrl && k == KeyCode::Tab {
                self.advance_tab();
            } else if let Some(i) = digit_tab_of(k) {
                self.pick_tab(i);
            } else if k == KeyCode::Left {
                self.previous_tab();
            } else {
                self.advance_tab();
            }
            Vec::new()
        }
    }

    /// A key that is no global shortcut.
    fn routed_key(&mut self, key: KeyEvent, themes: &Vec<Theme>) -> (effects: Vec<Effect>)
        requires
            old(self).wf(),
            routed_key_ok(*old(self), key, themes@),
        ensures
            final(self).wf(),
            routed_step(*old(self), *final(self), key, effects@, themes@),
    {
        if self.active_popup.is_some() {
            self.handle_popup_input(key, themes)
        } else if self.go_to_line_active {
            self.handle_go_to_line_input(key);
            Vec::new()
        } else {
            match self.screen {
                AppScreen::Setup => self.handle_setup_input(key, themes),
                AppScreen::Welcome => self.handle_welcome_input(key),
                AppScreen::Editor => {
                    if self.show_ai_sidebar && self.focus == AppFocus::AiPrompt {
                        self.handle_ai_input(key)
                    } else if self.file_picker_active {
                        self.handle_file_picker_input(key)
                    } else {
                        self.handle_editor_input(key, themes)
                    }
                },
                AppScreen::CommandPalette => self.handle_command_palette_input(key, themes),
                AppScreen::About => {
                    self.handle_about_input(key);
                    Vec::new()
                },
                AppScreen::Updater => {
                    self.handle_updater_input(key);
                    Vec::new()
                },
                AppScreen::Controls => {
                    self.handle_controls_input(key);
                    Vec::new()
                },
                AppScreen::GitStatus => {
                    self.handle_git_status_input(key);
                    Vec::new()
                },
                AppScreen::GitDiff => {
                    self.handle_git_diff_input(key);
                    Vec::new()
                },
                AppScreen::GitCommit => {
                    self.handle_git_commit_input(key);
                    Vec::new()
                },
            }
        }
    }

    /// Handles a key press (after the plugins have passed on it): what
    /// `key_step` describes. The caller carries out the returned effects.
    pub fn handle_key(&mut self, key: KeyEvent, themes: &Vec<Theme>) -> (effects: Vec<Effect>)
        requires
            old(self).wf(),
            key_ok(*old(self), key, themes@),
        ensures
            final(self).wf(),
            key_step(*old(self), *final(self), key, effects@, themes@),
    {
        if key.ctrl && (key.code == KeyCode::Char('x') || key.code == KeyCode::Char('o')
            || key.code == KeyCode::Char('n') || key.code == KeyCode::Char('p') || key.code
            == KeyCode::Tab) || (key.ctrl || key.alt) && digit_tab_of(key.code).is_some() || key.alt
            && (key.code == KeyCode::Left || key.code == KeyCode::Right) {
            self.global_key(key)
        } else {
            self.routed_key(key, themes)
        }
    }
}

} // verus!
