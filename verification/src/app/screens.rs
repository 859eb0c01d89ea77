//! How the screens other than the editor react to keys: the command
//! palette, popup menus, the go-to-line prompt, the file picker, the AI
//! sidebar and the informational screens.
use vstd::prelude::*;
use crate::app::{
    fresh_setup, go_to_line_opened, popup_opened, strings, App, AppFocus, AppScreen, EditMode,
    Effect, KeyCode, KeyEvent, PopupMenu, PopupMenuType, SetupState, WelcomeState, WriteRequest,
};
use crate::ai::AiMessage;
use crate::config::Config;
use crate::editor::cursor::Cursor;
use crate::app::lists::{passing_from, FilePickerState};
use crate::app::input::{
    editor_key_ok, editor_step, new_file_opened, reported, save_step, search_opened, tab_advanced,
    tab_closed, tree_toggled, quit_set,
};
use crate::app::lists::{all_indices, firsts, ranked, scored_from, CommandPaletteState};
use crate::editor::document::{doc_name, path_view, Document};
use crate::editor::buffer::join_lines;
use crate::text::{pop_char, push_char};
use crate::theme::Theme;

verus! {

/// The rows a list shows at once when it scrolls.
pub const VISIBLE_ROWS: usize = 10;

/// Selection and scroll offset after moving the selection up one row.
pub open spec fn sel_up(sel: usize, scroll: usize) -> (usize, usize) {
    if sel > 0 {
        let s = (sel - 1) as usize;
        (s, if s < scroll { s } else { scroll })
    } else {
        (sel, scroll)
    }
}

/// Selection and scroll offset after moving the selection down one row in a
/// list of `n` rows.
pub open spec fn sel_down(sel: usize, scroll: usize, n: nat) -> (usize, usize) {
    if sel + 1 < n {
        let s = (sel + 1) as usize;
        (s, if s >= scroll + VISIBLE_ROWS { (s + 1 - VISIBLE_ROWS) as usize } else { scroll })
    } else {
        (sel, scroll)
    }
}

/// `sel_up`.
pub fn select_up(sel: usize, scroll: usize) -> (r: (usize, usize))
    ensures
        r == sel_up(sel, scroll),
{
    if sel > 0 {
        let s = sel - 1;
        (s, if s < scroll { s } else { scroll })
    } else {
        (sel, scroll)
    }
}

/// `sel_down`.
pub fn select_down(sel: usize, scroll: usize, n: usize) -> (r: (usize, usize))
    ensures
        r == sel_down(sel, scroll, n as nat),
{
    if sel < n && n - sel > 1 {
        let s = sel + 1;
        (s, if s >= scroll && s - scroll >= VISIBLE_ROWS { s + 1 - VISIBLE_ROWS } else { scroll })
    } else {
        (sel, scroll)
    }
}

/// The palette's commands filtered by `query`: all of them in order for an
/// empty query, else those it fuzzily matches, best first.
pub open spec fn palette_filter(p: CommandPaletteState, query: Seq<char>) -> Seq<usize> {
    if query.len() == 0 {
        all_indices(p.commands@.len())
    } else {
        firsts(ranked(scored_from(p.names(), query, 0)))
    }
}

/// `p1` is `p0` with the query `query`, refiltered and the first entry selected.
pub open spec fn palette_requeried(p0: CommandPaletteState, p1: CommandPaletteState, query: Seq<char>) -> bool {
    &&& p1.query@ == query
    &&& p1.commands == p0.commands
    &&& p1.filtered@ == palette_filter(p0, query)
    &&& p1.selected == 0
    &&& p1.scroll == 0
}

/// `a1` is `a0` on the screen `s`.
#[verifier::opaque]
pub open spec fn screen_set(a0: App, a1: App, s: AppScreen) -> bool {
    a1 == (App { screen: s, ..a0 })
}

/// `a1` is `a0` with only its command palette changed.
#[verifier::opaque]
pub open spec fn palette_set(a0: App, a1: App) -> bool {
    a1 == (App { command_palette: a1.command_palette, ..a0 })
}

/// `a1` is `a0` with the palette's selection at `sel` and its scroll offset
/// at `scroll`.
#[verifier::opaque]
pub open spec fn palette_moved(a0: App, a1: App, sel: usize, scroll: usize) -> bool {
    a1 == (App {
        command_palette: CommandPaletteState { selected: sel, scroll: scroll, ..a0.command_palette },
        ..a0
    })
}

/// `a1` is `a0` with the AI sidebar shown or hidden the other way, focused
/// when shown.
#[verifier::opaque]
pub open spec fn sidebar_toggled(a0: App, a1: App) -> bool {
    a1 == (App {
        show_ai_sidebar: !a0.show_ai_sidebar,
        focus: if !a0.show_ai_sidebar {
            AppFocus::AiPrompt
        } else {
            AppFocus::Editor
        },
        ..a0
    })
}

/// `a1` is `a0` with line numbers shown or hidden the other way.
#[verifier::opaque]
pub open spec fn numbers_toggled(a0: App, a1: App) -> bool {
    a1 == (App { show_line_numbers: !a0.show_line_numbers, ..a0 })
}

/// `a1` is `a0` with word wrap switched the other way.
#[verifier::opaque]
pub open spec fn wrap_toggled(a0: App, a1: App) -> bool {
    a1 == (App { word_wrap: !a0.word_wrap, ..a0 })
}

/// `a1` is `a0` showing the file picker (whose directory the caller reads again).
#[verifier::opaque]
pub open spec fn picker_shown(a0: App, a1: App) -> bool {
    a1 == (App { file_picker_active: true, ..a0 })
}

/// `a1` is `a0` on the updater screen with the update just started.
#[verifier::opaque]
pub open spec fn updater_started(a0: App, a1: App) -> bool {
    &&& a1.updater_status@ == UPDATE_START@
    &&& a1 == (App {
        updater_status: a1.updater_status,
        updater_progress: 0,
        updater_completed: false,
        screen: AppScreen::Updater,
        ..a0
    })
}

pub const UPDATE_START: &'static str = "Starting update check...";

pub const PUSH_MISSING: &'static str = "Git Push not implemented yet - but integrated!";

pub const COPY_SAVED: &'static str = "Saved copy via save_as";

/// `a1` and `effects` after saving a copy of the open document, if any.
pub open spec fn copy_saved(a0: App, a1: App, effects: Seq<Effect>) -> bool {
    if a0.documents@.len() == 0 {
        a1 == a0 && effects.len() == 0
    } else {
        active_copy_saved(a0, a1, effects)
    }
}

/// `a1` and `effects` after saving a copy of the open document: the document
/// takes the path `NAME.copy` (its file name with `.copy` added), is written
/// there without a report on the status line, and the copy is reported.
#[verifier::opaque]
pub open spec fn active_copy_saved(a0: App, a1: App, effects: Seq<Effect>) -> bool {
    let t = a0.active_tab;
    let d0 = a0.active();
    let p = doc_name(d0) + ".copy"@;
    &&& a1.documents@.len() == a0.documents@.len()
    &&& a1.documents@ == a0.documents@.update(t as int, a1.active())
    &&& path_view(a1.active().file_path) == Some(p)
    &&& a1.active().file_type@ == crate::editor::document::file_type_of_path(p)
    &&& a1.active().buffer == d0.buffer
    &&& a1.active().cursor == d0.cursor
    &&& a1.active().modified == d0.modified
    &&& a1.status_message@ == COPY_SAVED@
    &&& a1 == (App {
        documents: a1.documents,
        status_message: a1.status_message,
        status_fresh: true,
        ..a0
    })
    &&& effects.len() == 1
    &&& effects[0] matches Effect::Write(r) && r.tab == Some(t) && r.path@ == p && r.contents@
        == join_lines(d0.buffer@.lines) && !r.report
}

/// `a1` and `effects` after running command `idx` of the palette (see
/// `CommandPaletteState::new` for the list).
pub open spec fn palette_command_done(
    a0: App,
    a1: App,
    idx: usize,
    effects: Seq<Effect>,
    themes: Seq<Theme>,
) -> bool {
    if idx == 14 {
        save_step(a0, a1, effects)
    } else if idx == 15 {
        copy_saved(a0, a1, effects)
    } else if idx == 13 {
        picker_shown(a0, a1) && effects == seq![Effect::RefreshFilePicker]
    } else if idx == 18 {
        updater_started(a0, a1) && effects == seq![Effect::StartUpdater]
    } else {
        &&& effects.len() == 0
        &&& if idx == 0 {
            sidebar_toggled(a0, a1)
        } else if idx == 1 {
            popup_opened(a0, a1, PopupMenuType::AiModel, themes)
        } else if idx == 2 {
            screen_set(a0, a1, AppScreen::GitStatus)
        } else if idx == 3 {
            screen_set(a0, a1, AppScreen::GitDiff)
        } else if idx == 4 {
            screen_set(a0, a1, AppScreen::GitCommit)
        } else if idx == 5 {
            reported(a0, a1, PUSH_MISSING@)
        } else if idx == 6 {
            popup_opened(a0, a1, PopupMenuType::Mode, themes)
        } else if idx == 7 {
            popup_opened(a0, a1, PopupMenuType::Theme, themes)
        } else if idx == 8 {
            numbers_toggled(a0, a1)
        } else if idx == 9 {
            wrap_toggled(a0, a1)
        } else if idx == 10 {
            search_opened(a0, a1)
        } else if idx == 11 {
            go_to_line_opened(a0, a1)
        } else if idx == 12 {
            new_file_opened(a0, a1)
        } else if idx == 16 {
            tab_closed(a0, a1)
        } else if idx == 17 {
            tree_toggled(a0, a1)
        } else if idx == 19 {
            quit_set(a0, a1)
        } else {
            a1 == a0
        }
    }
}

/// `a1` and `effects` after `k` on the command palette: Esc leaves it, the
/// arrows move the selection, Enter runs the selected command and leaves,
/// typing edits the query and filters again.
pub open spec fn palette_step(a0: App, a1: App, k: KeyCode, effects: Seq<Effect>, themes: Seq<Theme>) -> bool {
    let p0 = a0.command_palette;
    let p1 = a1.command_palette;
    match k {
        KeyCode::Esc => effects.len() == 0 && screen_set(a0, a1, AppScreen::Editor),
        KeyCode::Up => {
            let (s, sc) = sel_up(p0.selected, p0.scroll);
            effects.len() == 0 && palette_moved(a0, a1, s, sc)
        },
        KeyCode::Down => {
            let (s, sc) = sel_down(p0.selected, p0.scroll, p0.filtered@.len());
            effects.len() == 0 && palette_moved(a0, a1, s, sc)
        },
        KeyCode::Enter => if p0.selected < p0.filtered@.len() {
            exists|m: App|
                #[trigger] palette_command_done(a0, m, p0.filtered@[p0.selected as int], effects, themes)
                    && screen_set(m, a1, AppScreen::Editor)
        } else {
            effects.len() == 0 && screen_set(a0, a1, AppScreen::Editor)
        },
        KeyCode::Char(c) => {
            &&& effects.len() == 0
            &&& palette_set(a0, a1)
            &&& palette_requeried(p0, p1, p0.query@.push(c))
        },
        KeyCode::Backspace => {
            &&& effects.len() == 0
            &&& palette_set(a0, a1)
            &&& palette_requeried(
                p0,
                p1,
                if p0.query@.len() > 0 {
                    p0.query@.drop_last()
                } else {
                    p0.query@
                },
            )
        },
        _ => effects.len() == 0 && a1 == a0,
    }
}

impl App {
    /// Goes to the screen `s`.
    #[verifier::rlimit(30)]
    pub fn go_to_screen(&mut self, s: AppScreen)
        ensures
            final(self).wf() == old(self).wf(),
            screen_set(*old(self), *final(self), s),
    {
        self.screen = s;
        proof {
            reveal(screen_set);
        }
    }

    /// Puts the palette's selection at `sel` and its scroll offset at `scroll`.
    #[verifier::rlimit(30)]
    fn move_palette(&mut self, sel: usize, scroll: usize)
        ensures
            final(self).wf() == old(self).wf(),
            palette_moved(*old(self), *final(self), sel, scroll),
    {
        self.command_palette.selected = sel;
        self.command_palette.scroll = scroll;
        proof {
            reveal(palette_moved);
        }
    }

    /// Adds `c` to the palette's query and filters again.
    #[verifier::rlimit(30)]
    fn palette_type(&mut self, c: char)
        ensures
            final(self).wf() == old(self).wf(),
            palette_set(*old(self), *final(self)),
            palette_requeried(
                old(self).command_palette,
                final(self).command_palette,
                old(self).command_palette.query@.push(c),
            ),
    {
        push_char(&mut self.command_palette.query, c);
        self.command_palette.update_filter();
        proof {
            reveal(palette_set);
        }
    }

    /// Erases the last character of the palette's query and filters again.
    #[verifier::rlimit(30)]
    fn palette_erase(&mut self)
        ensures
            final(self).wf() == old(self).wf(),
            palette_set(*old(self), *final(self)),
            palette_requeried(
                old(self).command_palette,
                final(self).command_palette,
                if old(self).command_palette.query@.len() > 0 {
                    old(self).command_palette.query@.drop_last()
                } else {
                    old(self).command_palette.query@
                },
            ),
    {
        pop_char(&mut self.command_palette.query);
        self.command_palette.update_filter();
        proof {
            reveal(palette_set);
        }
    }

    /// Shows or hides the AI sidebar.
    #[verifier::rlimit(30)]
    fn toggle_sidebar(&mut self)
        ensures
            final(self).wf() == old(self).wf(),
            sidebar_toggled(*old(self), *final(self)),
    {
        self.show_ai_sidebar = !self.show_ai_sidebar;
        self.focus = if self.show_ai_sidebar {
            AppFocus::AiPrompt
        } else {
            AppFocus::Editor
        };
        proof {
            reveal(sidebar_toggled);
        }
    }

    /// Shows or hides line numbers.
    #[verifier::rlimit(30)]
    fn toggle_numbers(&mut self)
        ensures
            final(self).wf() == old(self).wf(),
            numbers_toggled(*old(self), *final(self)),
    {
        self.show_line_numbers = !self.show_line_numbers;
        proof {
            reveal(numbers_toggled);
        }
    }

    /// Switches word wrap.
    #[verifier::rlimit(30)]
    fn toggle_wrap(&mut self)
        ensures
            final(self).wf() == old(self).wf(),
            wrap_toggled(*old(self), *final(self)),
    {
        self.word_wrap = !self.word_wrap;
        proof {
            reveal(wrap_toggled);
        }
    }

    /// Shows the file picker; the caller reads its directory again.
    #[verifier::rlimit(30)]
    pub fn open_file_picker(&mut self) -> (e: Effect)
        ensures
            final(self).wf() == old(self).wf(),
            picker_shown(*old(self), *final(self)),
            e is RefreshFilePicker,
    {
        self.file_picker_active = true;
        proof {
            reveal(picker_shown);
        }
        Effect::RefreshFilePicker
    }

    /// Starts the self-updater and shows its screen.
    #[verifier::rlimit(30)]
    pub fn start_updater(&mut self) -> (e: Effect)
        ensures
            final(self).wf() == old(self).wf(),
            updater_started(*old(self), *final(self)),
            e is StartUpdater,
    {
        self.updater_status = UPDATE_START.to_owned();
        self.updater_progress = 0;
        self.updater_completed = false;
        self.screen = AppScreen::Updater;
        proof {
            reveal(updater_started);
        }
        Effect::StartUpdater
    }

    /// Saves a copy of the open document as `NAME.copy`.
    fn save_copy(&mut self) -> (effects: Vec<Effect>)
        requires
            old(self).wf(),
        ensures
            final(self).wf(),
            copy_saved(*old(self), *final(self), effects@),
    {
        if self.documents.len() > 0 {
            self.save_active_copy()
        } else {
            Vec::new()
        }
    }

    /// Saves a copy of the open document, which exists, as `NAME.copy`.
    #[verifier::rlimit(40)]
    fn save_active_copy(&mut self) -> (effects: Vec<Effect>)
        requires
            old(self).wf(),
            old(self).documents@.len() > 0,
        ensures
            final(self).wf(),
            active_copy_saved(*old(self), *final(self), effects@),
    {
        let ghost a0 = *self;
        let t = self.active_tab;
        let mut docs: Vec<Document> = Vec::new();
        std::mem::swap(&mut docs, &mut self.documents);
        let mut d = Document::new();
        docs.set_and_swap(t, &mut d);
        let mut p = d.file_name().to_owned();
        p.append(".copy");
        d.set_path(p.as_str());
        let contents = d.buffer.to_string();
        let name = d.file_name().to_owned();
        docs.set(t, d);
        self.documents = docs;
        self.status_message = COPY_SAVED.to_owned();
        self.status_fresh = true;
        let mut effects: Vec<Effect> = Vec::new();
        effects.push(Effect::Write(WriteRequest { tab: Some(t), path: p, contents, name, report: false }));
        proof {
            assert(self.documents@ == a0.documents@.update(t as int, self.active()));
            assert(*self == App {
                documents: self.documents,
                status_message: self.status_message,
                status_fresh: true,
                ..a0
            });
            reveal(active_copy_saved);
        }
        effects
    }

    /// Runs command `idx` of the command palette.
    pub fn execute_palette_command(&mut self, idx: usize, themes: &Vec<Theme>) -> (effects: Vec<Effect>)
        requires
            old(self).wf(),
        ensures
            final(self).wf(),
            palette_command_done(*old(self), *final(self), idx, effects@, themes@),
    {
        if idx == 14 {
            self.save_effects()
        } else if idx == 15 {
            self.save_copy()
        } else if idx == 13 {
            let e = self.open_file_picker();
            let mut effects: Vec<Effect> = Vec::new();
            effects.push(e);
            proof {
                assert(effects@ =~= seq![Effect::RefreshFilePicker]);
            }
            effects
        } else if idx == 18 {
            let e = self.start_updater();
            let mut effects: Vec<Effect> = Vec::new();
            effects.push(e);
            proof {
                assert(effects@ =~= seq![Effect::StartUpdater]);
            }
            effects
        } else {
            if idx == 0 {
                self.toggle_sidebar();
            } else if idx == 1 {
                self.open_popup_menu(PopupMenuType::AiModel, themes);
            } else if idx == 2 {
                self.go_to_screen(AppScreen::GitStatus);
            } else if idx == 3 {
                self.go_to_screen(AppScreen::GitDiff);
            } else if idx == 4 {
                self.go_to_screen(AppScreen::GitCommit);
            } else if idx == 5 {
                self.report(PUSH_MISSING);
            } else if idx == 6 {
                self.open_popup_menu(PopupMenuType::Mode, themes);
            } else if idx == 7 {
                self.open_popup_menu(PopupMenuType::Theme, themes);
            } else if idx == 8 {
                self.toggle_numbers();
            } else if idx == 9 {
                self.toggle_wrap();
            } else if idx == 10 {
                self.open_search();
            } else if idx == 11 {
                self.open_go_to_line();
            } else if idx == 12 {
                self.open_new_file();
            } else if idx == 16 {
                self.close_tab();
            } else if idx == 17 {
                self.toggle_tree();
            } else if idx == 19 {
                self.quit();
            }
            Vec::new()
        }
    }

    /// Handles a key on the command palette.
    pub fn handle_command_palette_input(&mut self, key: KeyEvent, themes: &Vec<Theme>) -> (effects: Vec<Effect>)
        requires
            old(self).wf(),
        ensures
            final(self).wf(),
            palette_step(*old(self), *final(self), key.code, effects@, themes@),
    {
        let ghost a0 = *self;
        match key.code {
            KeyCode::Esc => {
                self.go_to_screen(AppScreen::Editor);
                Vec::new()
            },
            KeyCode::Up => {
                let (s, sc) = select_up(self.command_palette.selected, self.command_palette.scroll);
                self.move_palette(s, sc);
                Vec::new()
            },
            KeyCode::Down => {
                let n = self.command_palette.filtered.len();
                let (s, sc) = select_down(self.command_palette.selected, self.command_palette.scroll, n);
                self.move_palette(s, sc);
                Vec::new()
            },
            KeyCode::Enter => {
                if self.command_palette.selected < self.command_palette.filtered.len() {
                    let idx = self.command_palette.filtered[self.command_palette.selected];
                    let effects = self.execute_palette_command(idx, themes);
                    let ghost m = *self;
                    self.go_to_screen(AppScreen::Editor);
                    proof {
                        assert(palette_command_done(a0, m, a0.command_palette.filtered@[a0.command_palette.selected as int], effects@, themes@));
                    }
                    effects
                } else {
                    self.go_to_screen(AppScreen::Editor);
                    Vec::new()
                }
            },
            KeyCode::Char(c) => {
                self.palette_type(c);
                Vec::new()
            },
            KeyCode::Backspace => {
                self.palette_erase();
                Vec::new()
            },
            _ => Vec::new(),
        }
    }
}

/// Selection and scroll offset of a popup menu of `n` options after moving
/// up (wrapping to the bottom); the menu shows at most 12 rows.
pub open spec fn popup_up(sel: usize, scroll: usize, n: nat) -> (usize, usize) {
    let s = if sel > 0 {
        (sel - 1) as usize
    } else {
        (n - 1) as usize
    };
    let vh = if n < 12 {
        n
    } else {
        12
    };
    (s, if s < scroll {
        s
    } else if s >= scroll + vh {
        (s + 1 - vh) as usize
    } else {
        scroll
    })
}

/// Selection and scroll offset of a popup menu of `n` options after moving
/// down (wrapping to the top).
pub open spec fn popup_down(sel: usize, scroll: usize, n: nat) -> (usize, usize) {
    let s = if sel + 1 < n {
        (sel + 1) as usize
    } else {
        0usize
    };
    let vh = if n < 12 {
        n
    } else {
        12
    };
    (s, if s >= scroll + vh {
        (s + 1 - vh) as usize
    } else if s < scroll {
        0
    } else {
        scroll
    })
}

/// `popup_up`.
fn popup_move_up(sel: usize, scroll: usize, n: usize) -> (r: (usize, usize))
    requires
        n > 0,
    ensures
        r == popup_up(sel, scroll, n as nat),
{
    let s = if sel > 0 {
        sel - 1
    } else {
        n - 1
    };
    let vh = if n < 12 {
        n
    } else {
        12
    };
    (s, if s < scroll {
        s
    } else if s - scroll >= vh {
        s + 1 - vh
    } else {
        scroll
    })
}

/// `popup_down`.
fn popup_move_down(sel: usize, scroll: usize, n: usize) -> (r: (usize, usize))
    ensures
        r == popup_down(sel, scroll, n as nat),
{
    let s = if sel < n && n - sel > 1 {
        sel + 1
    } else {
        0
    };
    let vh = if n < 12 {
        n
    } else {
        12
    };
    (s, if s >= scroll && s - scroll >= vh {
        s + 1 - vh
    } else if s < scroll {
        0
    } else {
        scroll
    })
}

/// The edit mode chosen at position `sel` of the mode menu (Emacs, not
/// available yet, falls back to Aether).
pub open spec fn mode_of_choice(sel: usize) -> EditMode {
    if sel == 0 {
        EditMode::Vim
    } else if sel == 1 {
        EditMode::Nano
    } else {
        EditMode::Aether
    }
}

/// The mode name stored in the settings for position `sel` of the mode menu.
pub open spec fn mode_name_of_choice(sel: usize) -> Seq<char> {
    if sel == 0 {
        "vim"@
    } else if sel == 1 {
        "nano"@
    } else if sel == 2 {
        "emacs"@
    } else {
        "aether"@
    }
}

/// The text of option `sel` of the popup menu `p`.
fn popup_option(p: &Option<PopupMenu>, sel: usize) -> (r: String)
    requires
        p matches Some(m) && sel < m.options@.len(),
    ensures
        r@ == p->0.options@[sel as int]@,
{
    match p {
        Some(m) => m.options[sel].clone(),
        None => String::new(),
    }
}

/// `mode_of_choice`.
fn mode_choice(sel: usize) -> (m: EditMode)
    ensures
        m == mode_of_choice(sel),
{
    if sel == 0 {
        EditMode::Vim
    } else if sel == 1 {
        EditMode::Nano
    } else {
        EditMode::Aether
    }
}

/// `mode_name_of_choice`.
fn mode_choice_name(sel: usize) -> (n: &'static str)
    ensures
        n@ == mode_name_of_choice(sel),
{
    proof {
        reveal_strlit("vim");
        reveal_strlit("nano");
        reveal_strlit("emacs");
        reveal_strlit("aether");
    }
    if sel == 0 {
        "vim"
    } else if sel == 1 {
        "nano"
    } else if sel == 2 {
        "emacs"
    } else {
        "aether"
    }
}

/// `a1` is `a0` without its popup menu.
#[verifier::opaque]
pub open spec fn popup_closed(a0: App, a1: App) -> bool {
    a1 == (App { active_popup: None, ..a0 })
}

/// `a1` is `a0` with the popup menu's selection at `sel` and its scroll
/// offset at `scroll`.
#[verifier::opaque]
pub open spec fn popup_moved(a0: App, a1: App, sel: usize, scroll: usize) -> bool {
    a1 == (App {
        active_popup: Some(PopupMenu { selected: sel, scroll: scroll, ..a0.active_popup->0 }),
        ..a0
    })
}

/// `a1` is `a0` in the edit mode of entry `sel` of the mode menu, whose
/// name the settings store.
#[verifier::opaque]
pub open spec fn mode_applied(a0: App, a1: App, sel: usize) -> bool {
    &&& a1.config.edit_mode@ == mode_name_of_choice(sel)
    &&& a1.config == (Config { edit_mode: a1.config.edit_mode, ..a0.config })
    &&& a1 == (App { edit_mode: mode_of_choice(sel), config: a1.config, ..a0 })
}

/// `a1` is `a0` with AI model entry `sel`, named `name`, chosen and stored.
#[verifier::opaque]
pub open spec fn model_applied(a0: App, a1: App, sel: usize, name: Seq<char>) -> bool {
    &&& a1.config.ai_model@ == name
    &&& a1.config == (Config { ai_model: a1.config.ai_model, ..a0.config })
    &&& a1.setup_state == (crate::app::SetupState { ai_model_choice: sel, ..a0.setup_state })
    &&& a1 == (App { setup_state: a1.setup_state, config: a1.config, ..a0 })
}

/// `a1` is `a0` with theme `sel` of `themes` chosen and stored.
#[verifier::opaque]
pub open spec fn theme_applied(a0: App, a1: App, sel: usize, themes: Seq<Theme>) -> bool {
    &&& a1.theme == themes[sel as int]
    &&& a1.config == (Config { theme_index: sel, ..a0.config })
    &&& a1 == (App { theme_index: sel, theme: a1.theme, config: a1.config, ..a0 })
}

/// `a1` is `a0` after choosing entry `sel` of the mode menu: the edit mode
/// and its name in the settings change, the switch is reported, the menu
/// closes.
pub open spec fn mode_chosen(a0: App, a1: App, sel: usize) -> bool {
    let opt = a0.active_popup->0.options@[sel as int]@;
    exists|m1: App, m2: App|
        #![trigger mode_applied(a0, m1, sel), popup_closed(m2, a1)]
        mode_applied(a0, m1, sel) && reported(m1, m2, "Switched to "@ + opt + " mode"@)
            && popup_closed(m2, a1)
}

/// `a1` is `a0` after choosing entry `sel` of the AI model menu: the choice
/// and the model's name are stored, reported, and the menu closes.
pub open spec fn model_chosen(a0: App, a1: App, sel: usize) -> bool {
    let opt = a0.active_popup->0.options@[sel as int]@;
    exists|m1: App, m2: App|
        #![trigger model_applied(a0, m1, sel, opt), popup_closed(m2, a1)]
        model_applied(a0, m1, sel, opt) && reported(m1, m2, "Using model: "@ + opt)
            && popup_closed(m2, a1)
}

/// `a1` is `a0` after choosing theme `sel` of `themes` in the theme menu: it
/// is applied and stored, reported, and the menu closes.
pub open spec fn theme_chosen(a0: App, a1: App, sel: usize, themes: Seq<Theme>) -> bool {
    exists|m1: App, m2: App|
        #![trigger theme_applied(a0, m1, sel, themes), popup_closed(m2, a1)]
        theme_applied(a0, m1, sel, themes) && reported(
            m1,
            m2,
            "Theme: "@ + themes[sel as int].name@,
        ) && popup_closed(m2, a1)
}

/// `a1` and `effects` after `k` on the open popup menu of `a0` (nothing
/// without one): Esc closes it, Up/Down/Tab move the selection round, Enter
/// applies the selected entry, stores the settings and closes it.
pub open spec fn popup_step(a0: App, a1: App, k: KeyCode, effects: Seq<Effect>, themes: Seq<Theme>) -> bool {
    match a0.active_popup {
        None => a1 == a0 && effects.len() == 0,
        Some(p) => match k {
            KeyCode::Esc => effects.len() == 0 && popup_closed(a0, a1),
            KeyCode::Up => {
                let (s, sc) = popup_up(p.selected, p.scroll, p.options@.len());
                effects.len() == 0 && popup_moved(a0, a1, s, sc)
            },
            KeyCode::Down | KeyCode::Tab => {
                let (s, sc) = popup_down(p.selected, p.scroll, p.options@.len());
                effects.len() == 0 && popup_moved(a0, a1, s, sc)
            },
            KeyCode::Enter => {
                &&& effects.len() == 1
                &&& effects[0] is SaveConfig
                &&& match p.menu_type {
                    PopupMenuType::Mode => mode_chosen(a0, a1, p.selected),
                    PopupMenuType::AiModel => model_chosen(a0, a1, p.selected),
                    PopupMenuType::Theme => theme_chosen(a0, a1, p.selected, themes),
                }
            },
            _ => a1 == a0 && effects.len() == 0,
        },
    }
}

/// `k` can be handled on the popup menu of `a` without failing: moving up
/// needs an option, choosing needs the selected option (and theme).
pub open spec fn popup_key_ok(a: App, k: KeyCode, themes: Seq<Theme>) -> bool {
    a.active_popup matches Some(p) ==> {
        &&& k == KeyCode::Up ==> p.options@.len() > 0
        &&& k == KeyCode::Enter ==> p.selected < p.options@.len() && (p.menu_type
            == PopupMenuType::Theme ==> p.selected < themes.len())
    }
}

/// Whether `c` is a decimal digit.
pub open spec fn is_decimal(c: char) -> bool {
    '0' <= c <= '9'
}

/// The value of a string of decimal digits.
pub open spec fn decimal_value(s: Seq<char>) -> int
    decreases s.len(),
{
    if s.len() == 0 {
        0
    } else {
        decimal_value(s.drop_last()) * 10 + (s.last() as int - '0' as int)
    }
}

/// `s` without a leading `+`.
pub open spec fn unsigned_digits(s: Seq<char>) -> Seq<char> {
    if s.len() > 0 && s[0] == '+' {
        s.drop_first()
    } else {
        s
    }
}

/// Every character of `d` is a decimal digit.
pub open spec fn all_decimal(d: Seq<char>) -> bool {
    forall|i: int| 0 <= i < d.len() ==> is_decimal(#[trigger] d[i])
}

/// The `usize` that `s` spells (what `str::parse::<usize>` accepts: an
/// optional `+`, then at least one digit, and a value that fits).
pub open spec fn parsed_usize(s: Seq<char>) -> Option<int> {
    let d = unsigned_digits(s);
    if d.len() > 0 && all_decimal(d) && decimal_value(d) <= usize::MAX {
        Some(decimal_value(d))
    } else {
        None
    }
}

/// Parses `s` as a `usize`.
pub fn parse_usize(s: &str) -> (r: Option<usize>)
    ensures
        match parsed_usize(s@) {
            Some(v) => r == Some(v as usize) && 0 <= v <= usize::MAX,
            None => r is None,
        },
{
    let cs = crate::text::chars_of(s);
    let start: usize = if cs.len() > 0 && cs[0] == '+' {
        1
    } else {
        0
    };
    let ghost d = unsigned_digits(s@);
    assert(d =~= s@.skip(start as int));
    if start >= cs.len() {
        return None;
    }
    let mut v: usize = 0;
    let mut i: usize = start;
    let mut ok: bool = true;
    while i < cs.len()
        invariant
            start <= i <= cs@.len(),
            cs@ == s@,
            d =~= s@.skip(start as int),
            d == unsigned_digits(s@),
            ok ==> all_decimal(d.take(i - start)),
            ok ==> v == decimal_value(d.take(i - start)),
            !ok ==> parsed_usize(s@) is None,
        decreases cs@.len() - i,
    {
        let c = cs[i];
        if ok {
            if '0' <= c && c <= '9' {
                let digit = (c as u32 - '0' as u32) as usize;
                assert(d.take(i + 1 - start).drop_last() =~= d.take(i - start));
                assert(d[i - start] == c);
                assert(decimal_value(d.take(i + 1 - start)) == v * 10 + digit);
                match v.checked_mul(10) {
                    Some(t) => match t.checked_add(digit) {
                        Some(u) => {
                            v = u;
                        },
                        None => {
                            proof {
                                assert(decimal_value(d.take(i + 1 - start)) > usize::MAX);
                                if all_decimal(d) {
                                    lemma_decimal_prefix_bound(d, (i + 1 - start) as int);
                                    assert(decimal_value(d) > usize::MAX);
                                }
                                lemma_parsed_none(s@, d);
                            }
                            ok = false;
                        },
                    },
                    None => {
                        proof {
                            assert(v * 10 > usize::MAX);
                            assert(decimal_value(d.take(i + 1 - start)) > usize::MAX);
                            if all_decimal(d) {
                                lemma_decimal_prefix_bound(d, (i + 1 - start) as int);
                                assert(decimal_value(d) > usize::MAX);
                            }
                            lemma_parsed_none(s@, d);
                        }
                        ok = false;
                    },
                }
            } else {
                assert(!is_decimal(d[i - start]));
                proof {
                    lemma_parsed_none(s@, d);
                }
                ok = false;
            }
        }
        i = i + 1;
    }
    if ok {
        assert(d.take(cs@.len() - start) =~= d);
        proof {
            lemma_decimal_nonneg(d);
        }
        Some(v)
    } else {
        None
    }
}

/// Digits whose value does not fit, or a non-digit, make the parse fail.
proof fn lemma_parsed_none(s: Seq<char>, d: Seq<char>)
    requires
        d == unsigned_digits(s),
        all_decimal(d) ==> decimal_value(d) > usize::MAX,
    ensures
        parsed_usize(s) is None,
{
}

/// A number's value is at least that of any of its prefixes.
proof fn lemma_decimal_prefix_bound(d: Seq<char>, k: int)
    requires
        0 <= k <= d.len(),
        all_decimal(d),
    ensures
        decimal_value(d.take(k)) <= decimal_value(d),
    decreases d.len() - k,
{
    if k < d.len() {
        lemma_decimal_prefix_bound(d, k + 1);
        assert(d.take(k + 1).drop_last() =~= d.take(k));
        assert(all_decimal(d.take(k)));
        assert(decimal_value(d.take(k)) >= 0) by {
            lemma_decimal_nonneg(d.take(k));
        }
    } else {
        assert(d.take(k) =~= d);
    }
}

/// Digits have a value of at least 0.
proof fn lemma_decimal_nonneg(d: Seq<char>)
    requires
        all_decimal(d),
    ensures
        decimal_value(d) >= 0,
    decreases d.len(),
{
    if d.len() > 0 {
        assert(all_decimal(d.drop_last()));
        lemma_decimal_nonneg(d.drop_last());
    }
}

/// `a1` is `a0` without the go-to-line prompt.
#[verifier::opaque]
pub open spec fn go_to_line_closed(a0: App, a1: App) -> bool {
    a1 == (App { go_to_line_active: false, ..a0 })
}

/// The row that line number `n` (counted from 1) names in a text of
/// `count` lines: the last line for numbers past the end.
pub open spec fn target_row(n: int, count: nat) -> usize {
    let last = if count > 0 {
        count - 1
    } else {
        0
    };
    (if n - 1 < last {
        n - 1
    } else {
        last
    }) as usize
}

/// `a1` is `a0` with the open document's cursor at the start of `row`
/// (remembered column 0).
#[verifier::opaque]
pub open spec fn cursor_placed(a0: App, a1: App, row: usize) -> bool {
    let d0 = a0.active();
    &&& a1.documents@ == a0.documents@.update(
        a0.active_tab as int,
        Document { cursor: Cursor { row: row, col: 0, desired_col: 0, ..d0.cursor }, ..d0 },
    )
    &&& a1 == (App { documents: a1.documents, ..a0 })
}

/// `a1` is `a0` after Enter on the go-to-line prompt: for a positive line
/// number and an open document, the cursor goes to the start of that line
/// (the last one past the end); the prompt closes either way.
pub open spec fn went_to_line(a0: App, a1: App) -> bool {
    let n = parsed_usize(a0.go_to_line_query@);
    if n is Some && n->0 > 0 && a0.documents@.len() > 0 {
        exists|m: App|
            #[trigger] cursor_placed(a0, m, target_row(n->0, a0.active().buffer@.lines.len()))
                && go_to_line_closed(m, a1)
    } else {
        go_to_line_closed(a0, a1)
    }
}

/// `a1` is `a0` with `c` added to the go-to-line query.
#[verifier::opaque]
pub open spec fn line_typed(a0: App, a1: App, c: char) -> bool {
    &&& a1.go_to_line_query@ == a0.go_to_line_query@.push(c)
    &&& a1 == (App { go_to_line_query: a1.go_to_line_query, ..a0 })
}

/// `a1` is `a0` with the last character of the go-to-line query erased.
#[verifier::opaque]
pub open spec fn line_erased(a0: App, a1: App) -> bool {
    let q = a0.go_to_line_query@;
    &&& a1.go_to_line_query@ == if q.len() > 0 {
        q.drop_last()
    } else {
        q
    }
    &&& a1 == (App { go_to_line_query: a1.go_to_line_query, ..a0 })
}

/// `a1` is `a0` after `k` on the go-to-line prompt: Esc closes it, Enter
/// jumps, digits and Backspace edit the query.
pub open spec fn go_to_line_step(a0: App, a1: App, k: KeyCode) -> bool {
    match k {
        KeyCode::Esc => go_to_line_closed(a0, a1),
        KeyCode::Enter => went_to_line(a0, a1),
        KeyCode::Char(c) => if is_decimal(c) {
            line_typed(a0, a1, c)
        } else {
            a1 == a0
        },
        KeyCode::Backspace => line_erased(a0, a1),
        _ => a1 == a0,
    }
}

/// `a1` is `a0` after a key on an informational screen that any key leaves
/// (about, updater, controls): back to the welcome screen.
pub open spec fn info_step(a0: App, a1: App) -> bool {
    screen_set(a0, a1, AppScreen::Welcome)
}

/// `a1` is `a0` after `k` on a git screen: Esc goes back to `back`.
pub open spec fn git_step(a0: App, a1: App, k: KeyCode, back: AppScreen) -> bool {
    if k == KeyCode::Esc {
        screen_set(a0, a1, back)
    } else {
        a1 == a0
    }
}

impl App {
    /// Closes the popup menu.
    #[verifier::rlimit(30)]
    fn close_popup(&mut self)
        ensures
            final(self).wf() == old(self).wf(),
            popup_closed(*old(self), *final(self)),
    {
        self.active_popup = None;
        proof {
            reveal(popup_closed);
        }
    }

    /// Puts the popup menu's selection at `sel` and its scroll offset at `scroll`.
    #[verifier::rlimit(30)]
    fn move_popup(&mut self, sel: usize, scroll: usize)
        requires
            old(self).active_popup is Some,
        ensures
            final(self).wf() == old(self).wf(),
            popup_moved(*old(self), *final(self), sel, scroll),
    {
        let ghost a0 = *self;
        let mut cur: Option<PopupMenu> = None;
        std::mem::swap(&mut cur, &mut self.active_popup);
        if let Some(mut p) = cur {
            p.selected = sel;
            p.scroll = scroll;
            self.active_popup = Some(p);
        }
        proof {
            reveal(popup_moved);
        }
    }

    /// Switches to the edit mode of entry `sel` of the mode menu.
    #[verifier::rlimit(30)]
    fn apply_mode(&mut self, sel: usize)
        ensures
            final(self).wf() == old(self).wf(),
            mode_applied(*old(self), *final(self), sel),
    {
        self.edit_mode = mode_choice(sel);
        self.config.edit_mode = mode_choice_name(sel).to_owned();
        proof {
            reveal(mode_applied);
        }
    }

    /// Chooses AI model entry `sel`, named `name`.
    #[verifier::rlimit(30)]
    fn apply_model(&mut self, sel: usize, name: String)
        ensures
            final(self).wf() == old(self).wf(),
            model_applied(*old(self), *final(self), sel, name@),
    {
        self.setup_state.ai_model_choice = sel;
        self.config.ai_model = name;
        proof {
            reveal(model_applied);
        }
    }

    /// Chooses theme `sel` of `themes`.
    #[verifier::rlimit(30)]
    fn apply_theme(&mut self, sel: usize, themes: &Vec<Theme>)
        requires
            sel < themes@.len(),
        ensures
            final(self).wf() == old(self).wf(),
            theme_applied(*old(self), *final(self), sel, themes@),
    {
        self.theme_index = sel;
        self.theme = themes[sel].duplicate();
        self.config.theme_index = sel;
        proof {
            reveal(theme_applied);
        }
    }

    /// Applies entry `sel` of the mode menu.
    fn choose_mode(&mut self, sel: usize)
        requires
            old(self).active_popup matches Some(p) && sel < p.options@.len(),
        ensures
            final(self).wf() == old(self).wf(),
            mode_chosen(*old(self), *final(self), sel),
    {
        let ghost a0 = *self;
        let opt = popup_option(&self.active_popup, sel);
        let mut m = "Switched to ".to_owned();
        m.append(opt.as_str());
        m.append(" mode");
        self.apply_mode(sel);
        let ghost m1 = *self;
        self.report(m.as_str());
        let ghost m2 = *self;
        self.close_popup();
        proof {
            assert(mode_applied(a0, m1, sel) && popup_closed(m2, *self));
        }
    }

    /// Applies entry `sel` of the AI model menu.
    fn choose_model(&mut self, sel: usize)
        requires
            old(self).active_popup matches Some(p) && sel < p.options@.len(),
        ensures
            final(self).wf() == old(self).wf(),
            model_chosen(*old(self), *final(self), sel),
    {
        let ghost a0 = *self;
        let opt = popup_option(&self.active_popup, sel);
        let mut m = "Using model: ".to_owned();
        m.append(opt.as_str());
        self.apply_model(sel, opt);
        let ghost m1 = *self;
        self.report(m.as_str());
        let ghost m2 = *self;
        self.close_popup();
        proof {
            assert(popup_closed(m2, *self));
        }
    }

    /// Applies theme `sel` of `themes`.
    fn choose_theme(&mut self, sel: usize, themes: &Vec<Theme>)
        requires
            sel < themes@.len(),
        ensures
            final(self).wf() == old(self).wf(),
            theme_chosen(*old(self), *final(self), sel, themes@),
    {
        let ghost a0 = *self;
        let mut m = "Theme: ".to_owned();
        m.append(themes[sel].name.as_str());
        self.apply_theme(sel, themes);
        let ghost m1 = *self;
        self.report(m.as_str());
        let ghost m2 = *self;
        self.close_popup();
        proof {
            assert(theme_applied(a0, m1, sel, themes@) && popup_closed(m2, *self));
        }
    }

    /// Handles a key on the open popup menu.
    pub fn handle_popup_input(&mut self, key: KeyEvent, themes: &Vec<Theme>) -> (effects: Vec<Effect>)
        requires
            old(self).wf(),
            popup_key_ok(*old(self), key.code, themes@),
        ensures
            final(self).wf(),
            popup_step(*old(self), *final(self), key.code, effects@, themes@),
    {
        let (sel, scroll, n, menu) = match &self.active_popup {
            Some(p) => (p.selected, p.scroll, p.options.len(), p.menu_type),
            None => {
                return Vec::new();
            },
        };
        match key.code {
            KeyCode::Esc => {
                self.close_popup();
                Vec::new()
            },
            KeyCode::Up => {
                let (s, sc) = popup_move_up(sel, scroll, n);
                self.move_popup(s, sc);
                Vec::new()
            },
            KeyCode::Down | KeyCode::Tab => {
                let (s, sc) = popup_move_down(sel, scroll, n);
                self.move_popup(s, sc);
                Vec::new()
            },
            KeyCode::Enter => {
                match menu {
                    PopupMenuType::Mode => self.choose_mode(sel),
                    PopupMenuType::AiModel => self.choose_model(sel),
                    PopupMenuType::Theme => self.choose_theme(sel, themes),
                }
                let mut effects: Vec<Effect> = Vec::new();
                effects.push(Effect::SaveConfig);
                effects
            },
            _ => Vec::new(),
        }
    }

    /// Closes the go-to-line prompt.
    #[verifier::rlimit(30)]
    fn close_go_to_line(&mut self)
        ensures
            final(self).wf() == old(self).wf(),
            go_to_line_closed(*old(self), *final(self)),
    {
        self.go_to_line_active = false;
        proof {
            reveal(go_to_line_closed);
        }
    }

    /// Puts the open document's cursor at the start of `row`.
    #[verifier::rlimit(30)]
    fn place_cursor(&mut self, row: usize)
        requires
            old(self).wf(),
            old(self).documents@.len() > 0,
        ensures
            final(self).wf(),
            cursor_placed(*old(self), *final(self), row),
    {
        let ghost a0 = *self;
        let t = self.active_tab;
        let mut docs: Vec<Document> = Vec::new();
        std::mem::swap(&mut docs, &mut self.documents);
        let mut d = Document::new();
        docs.set_and_swap(t, &mut d);
        d.cursor.row = row;
        d.cursor.col = 0;
        d.cursor.desired_col = 0;
        docs.set(t, d);
        self.documents = docs;
        proof {
            assert(self.documents@ =~= a0.documents@.update(t as int, d));
            reveal(cursor_placed);
        }
    }

    /// Jumps to the line the go-to-line query names, and closes the prompt.
    fn go_to_line(&mut self)
        requires
            old(self).wf(),
        ensures
            final(self).wf(),
            went_to_line(*old(self), *final(self)),
    {
        let ghost a0 = *self;
        let parsed = parse_usize(self.go_to_line_query.as_str());
        if parsed.is_some() && parsed.unwrap() > 0 && self.documents.len() > 0 {
            let n = parsed.unwrap();
            let count = self.documents[self.active_tab].line_count();
            let last = if count > 0 {
                count - 1
            } else {
                0
            };
            let row = if n - 1 < last {
                n - 1
            } else {
                last
            };
            self.place_cursor(row);
            let ghost m = *self;
            self.close_go_to_line();
            proof {
                let pn = parsed_usize(a0.go_to_line_query@);
                assert(pn->0 == n as int);
                assert(row == target_row(pn->0, a0.active().buffer@.lines.len()));
                assert(cursor_placed(a0, m, target_row(pn->0, a0.active().buffer@.lines.len())));
                assert(go_to_line_closed(m, *self));
            }
        } else {
            self.close_go_to_line();
        }
    }

    /// Adds `c` to the go-to-line query.
    #[verifier::rlimit(30)]
    fn type_line(&mut self, c: char)
        ensures
            final(self).wf() == old(self).wf(),
            line_typed(*old(self), *final(self), c),
    {
        push_char(&mut self.go_to_line_query, c);
        proof {
            reveal(line_typed);
        }
    }

    /// Erases the last character of the go-to-line query.
    #[verifier::rlimit(30)]
    fn erase_line(&mut self)
        ensures
            final(self).wf() == old(self).wf(),
            line_erased(*old(self), *final(self)),
    {
        pop_char(&mut self.go_to_line_query);
        proof {
            reveal(line_erased);
        }
    }

    /// Handles a key on the go-to-line prompt.
    pub fn handle_go_to_line_input(&mut self, key: KeyEvent)
        requires
            old(self).wf(),
        ensures
            final(self).wf(),
            go_to_line_step(*old(self), *final(self), key.code),
    {
        match key.code {
            KeyCode::Esc => self.close_go_to_line(),
            KeyCode::Enter => self.go_to_line(),
            KeyCode::Char(c) => {
                if '0' <= c && c <= '9' {
                    self.type_line(c);
                }
            },
            KeyCode::Backspace => self.erase_line(),
            _ => {},
        }
    }

    /// Any key on the about screen goes back to the welcome screen.
    pub fn handle_about_input(&mut self, key: KeyEvent)
        ensures
            final(self).wf() == old(self).wf(),
            info_step(*old(self), *final(self)),
    {
        self.go_to_screen(AppScreen::Welcome);
    }

    /// Any key on the updater screen goes back to the welcome screen.
    pub fn handle_updater_input(&mut self, key: KeyEvent)
        ensures
            final(self).wf() == old(self).wf(),
            info_step(*old(self), *final(self)),
    {
        self.go_to_screen(AppScreen::Welcome);
    }

    /// Any key on the controls screen goes back to the welcome screen.
    pub fn handle_controls_input(&mut self, key: KeyEvent)
        ensures
            final(self).wf() == old(self).wf(),
            info_step(*old(self), *final(self)),
    {
        self.go_to_screen(AppScreen::Welcome);
    }

    /// Esc on the git status screen goes back to the welcome screen.
    pub fn handle_git_status_input(&mut self, key: KeyEvent)
        ensures
            final(self).wf() == old(self).wf(),
            git_step(*old(self), *final(self), key.code, AppScreen::Welcome),
    {
        if key.code == KeyCode::Esc {
            self.go_to_screen(AppScreen::Welcome);
        }
    }

    /// Esc on the git diff screen goes back to the git status screen.
    pub fn handle_git_diff_input(&mut self, key: KeyEvent)
        ensures
            final(self).wf() == old(self).wf(),
            git_step(*old(self), *final(self), key.code, AppScreen::GitStatus),
    {
        if key.code == KeyCode::Esc {
            self.go_to_screen(AppScreen::GitStatus);
        }
    }

    /// Esc on the git commit screen goes back to the git status screen.
    pub fn handle_git_commit_input(&mut self, key: KeyEvent)
        ensures
            final(self).wf() == old(self).wf(),
            git_step(*old(self), *final(self), key.code, AppScreen::GitStatus),
    {
        if key.code == KeyCode::Esc {
            self.go_to_screen(AppScreen::GitStatus);
        }
    }
}

/// `a1` is `a0` without the file picker.
#[verifier::opaque]
pub open spec fn picker_closed(a0: App, a1: App) -> bool {
    a1 == (App { file_picker_active: false, ..a0 })
}

/// `a1` is `a0` with the picker's selection at `sel` and its scroll offset
/// at `scroll`.
#[verifier::opaque]
pub open spec fn picker_moved(a0: App, a1: App, sel: usize, scroll: usize) -> bool {
    &&& a1.file_picker_state == (FilePickerState {
        selected: sel,
        scroll: scroll,
        ..a0.file_picker_state
    })
    &&& a1 == (App { file_picker_state: a1.file_picker_state, ..a0 })
}

/// `a1` is `a0` with the picker in the directory `dir` (whose entries the
/// caller reads).
#[verifier::opaque]
pub open spec fn picker_dir_set(a0: App, a1: App, dir: Seq<char>) -> bool {
    &&& a1.file_picker_state.current_dir@ == dir
    &&& a1.file_picker_state == (FilePickerState {
        current_dir: a1.file_picker_state.current_dir,
        ..a0.file_picker_state
    })
    &&& a1 == (App { file_picker_state: a1.file_picker_state, ..a0 })
}

/// `a1` is `a0` with the picker's query `q`, filtered again with the first
/// entry selected.
#[verifier::opaque]
pub open spec fn picker_requeried(a0: App, a1: App, q: Seq<char>) -> bool {
    let f0 = a0.file_picker_state;
    let f1 = a1.file_picker_state;
    &&& f1.filter_query@ == q
    &&& f1.filtered_entries@ == passing_from(f0.names(), q, 0)
    &&& f1.selected == 0
    &&& f1.scroll == 0
    &&& f1.entries == f0.entries
    &&& f1.current_dir == f0.current_dir
    &&& a1 == (App { file_picker_state: f1, ..a0 })
}

/// `a1` and `effects` after `k` on the file picker: Esc closes it, the
/// arrows move the selection, Enter enters the selected directory or opens
/// the selected file, typing edits the filter, Backspace on an empty filter
/// goes to the parent directory.
pub open spec fn picker_step(a0: App, a1: App, k: KeyCode, effects: Seq<Effect>) -> bool {
    let fp = a0.file_picker_state;
    match k {
        KeyCode::Esc => effects.len() == 0 && picker_closed(a0, a1),
        KeyCode::Up => {
            let (s, sc) = sel_up(fp.selected, fp.scroll);
            effects.len() == 0 && picker_moved(a0, a1, s, sc)
        },
        KeyCode::Down => {
            let (s, sc) = sel_down(fp.selected, fp.scroll, fp.filtered_entries@.len());
            effects.len() == 0 && picker_moved(a0, a1, s, sc)
        },
        KeyCode::Enter => if fp.selected < fp.filtered_entries@.len() {
            let e = fp.entries@[fp.filtered_entries@[fp.selected as int] as int];
            if e.is_dir {
                effects == seq![Effect::RefreshFilePicker] && picker_dir_set(a0, a1, e._path@)
            } else {
                &&& effects.len() == 1
                &&& effects[0] matches Effect::OpenFile(f) && f@ == e._path@
                &&& picker_closed(a0, a1)
            }
        } else {
            effects.len() == 0 && a1 == a0
        },
        KeyCode::Backspace => if fp.filter_query@.len() > 0 {
            effects.len() == 0 && picker_requeried(a0, a1, fp.filter_query@.drop_last())
        } else {
            match crate::path::parent_path(fp.current_dir@) {
                Some(p) => effects == seq![Effect::RefreshFilePicker] && picker_dir_set(a0, a1, p),
                None => effects.len() == 0 && a1 == a0,
            }
        },
        KeyCode::Char(c) => effects.len() == 0 && picker_requeried(a0, a1, fp.filter_query@.push(c)),
        _ => effects.len() == 0 && a1 == a0,
    }
}

/// `k` can be handled on the file picker of `a`: the selected row names an
/// entry.
pub open spec fn picker_key_ok(a: App, k: KeyCode) -> bool {
    let fp = a.file_picker_state;
    k == KeyCode::Enter && fp.selected < fp.filtered_entries@.len() ==> fp.filtered_entries@[
        fp.selected as int
    ] < fp.entries@.len()
}

/// `a1` is `a0` after sending the prompt: the prompt is added to the chat as
/// the user's message with an empty answer after it, the input is emptied,
/// and the assistant starts.
#[verifier::opaque]
pub open spec fn prompt_sent(a0: App, a1: App) -> bool {
    let h0 = a0.ai_chat_history@;
    let h1 = a1.ai_chat_history@;
    let n = h0.len();
    &&& a1.ai_input_buffer@.len() == 0
    &&& h1.len() == n + 2
    &&& h1.take(n as int) == h0
    &&& h1[n as int].role@ == "user"@
    &&& h1[n as int].content@ == a0.ai_input_buffer@
    &&& h1[n + 1int].role@ == "assistant"@
    &&& h1[n + 1int].content@.len() == 0
    &&& a1 == (App {
        ai_input_buffer: a1.ai_input_buffer,
        ai_chat_history: a1.ai_chat_history,
        ai_generating: true,
        ..a0
    })
}

/// `a1` is `a0` with `c` added to the AI prompt.
#[verifier::opaque]
pub open spec fn prompt_typed(a0: App, a1: App, c: char) -> bool {
    &&& a1.ai_input_buffer@ == a0.ai_input_buffer@.push(c)
    &&& a1 == (App { ai_input_buffer: a1.ai_input_buffer, ..a0 })
}

/// `a1` is `a0` with the last character of the AI prompt erased.
#[verifier::opaque]
pub open spec fn prompt_erased(a0: App, a1: App) -> bool {
    let q = a0.ai_input_buffer@;
    &&& a1.ai_input_buffer@ == if q.len() > 0 {
        q.drop_last()
    } else {
        q
    }
    &&& a1 == (App { ai_input_buffer: a1.ai_input_buffer, ..a0 })
}

/// `a1` is `a0` with the AI sidebar hidden and the editor focused.
#[verifier::opaque]
pub open spec fn sidebar_closed(a0: App, a1: App) -> bool {
    a1 == (App { show_ai_sidebar: false, focus: AppFocus::Editor, ..a0 })
}

/// `a1` and `effects` after `k` in the AI sidebar: Enter sends a non-empty
/// prompt unless an answer is still coming, typing edits the prompt, Esc
/// hides the sidebar.
pub open spec fn ai_step(a0: App, a1: App, k: KeyCode, effects: Seq<Effect>) -> bool {
    match k {
        KeyCode::Enter => if a0.ai_input_buffer@.len() > 0 && !a0.ai_generating {
            effects == seq![Effect::StartAiChat] && prompt_sent(a0, a1)
        } else {
            effects.len() == 0 && a1 == a0
        },
        KeyCode::Char(c) => effects.len() == 0 && prompt_typed(a0, a1, c),
        KeyCode::Backspace => effects.len() == 0 && prompt_erased(a0, a1),
        KeyCode::Esc => effects.len() == 0 && sidebar_closed(a0, a1),
        _ => effects.len() == 0 && a1 == a0,
    }
}

impl App {
    /// Closes the file picker.
    #[verifier::rlimit(30)]
    fn close_picker(&mut self)
        ensures
            final(self).wf() == old(self).wf(),
            picker_closed(*old(self), *final(self)),
    {
        self.file_picker_active = false;
        proof {
            reveal(picker_closed);
        }
    }

    /// Puts the picker's selection at `sel` and its scroll offset at `scroll`.
    #[verifier::rlimit(30)]
    fn move_picker(&mut self, sel: usize, scroll: usize)
        ensures
            final(self).wf() == old(self).wf(),
            picker_moved(*old(self), *final(self), sel, scroll),
    {
        self.file_picker_state.selected = sel;
        self.file_picker_state.scroll = scroll;
        proof {
            reveal(picker_moved);
        }
    }

    /// Puts the picker in the directory `dir`.
    #[verifier::rlimit(30)]
    fn set_picker_dir(&mut self, dir: String)
        ensures
            final(self).wf() == old(self).wf(),
            picker_dir_set(*old(self), *final(self), dir@),
    {
        self.file_picker_state.current_dir = dir;
        proof {
            reveal(picker_dir_set);
        }
    }

    /// Adds `c` to the picker's filter and filters again.
    #[verifier::rlimit(30)]
    fn picker_type(&mut self, c: char)
        ensures
            final(self).wf() == old(self).wf(),
            picker_requeried(*old(self), *final(self), old(self).file_picker_state.filter_query@.push(c)),
    {
        push_char(&mut self.file_picker_state.filter_query, c);
        self.file_picker_state.update_filter();
        proof {
            reveal(picker_requeried);
        }
    }

    /// Erases the last character of the picker's filter and filters again.
    #[verifier::rlimit(30)]
    fn picker_erase(&mut self)
        requires
            old(self).file_picker_state.filter_query@.len() > 0,
        ensures
            final(self).wf() == old(self).wf(),
            picker_requeried(
                *old(self),
                *final(self),
                old(self).file_picker_state.filter_query@.drop_last(),
            ),
    {
        pop_char(&mut self.file_picker_state.filter_query);
        self.file_picker_state.update_filter();
        proof {
            reveal(picker_requeried);
        }
    }

    /// Enter on the file picker.
    fn picker_enter(&mut self) -> (effects: Vec<Effect>)
        requires
            picker_key_ok(*old(self), KeyCode::Enter),
        ensures
            final(self).wf() == old(self).wf(),
            picker_step(*old(self), *final(self), KeyCode::Enter, effects@),
    {
        let sel = self.file_picker_state.selected;
        if sel < self.file_picker_state.filtered_entries.len() {
            let idx = self.file_picker_state.filtered_entries[sel];
            let is_dir = self.file_picker_state.entries[idx].is_dir;
            let path = self.file_picker_state.entries[idx]._path.clone();
            let mut effects: Vec<Effect> = Vec::new();
            if is_dir {
                self.set_picker_dir(path);
                effects.push(Effect::RefreshFilePicker);
                proof {
                    assert(effects@ =~= seq![Effect::RefreshFilePicker]);
                }
            } else {
                effects.push(Effect::OpenFile(path));
                self.close_picker();
            }
            effects
        } else {
            Vec::new()
        }
    }

    /// Backspace on the file picker.
    fn picker_back(&mut self) -> (effects: Vec<Effect>)
        ensures
            final(self).wf() == old(self).wf(),
            picker_step(*old(self), *final(self), KeyCode::Backspace, effects@),
    {
        if self.file_picker_state.filter_query.as_str().unicode_len() > 0 {
            self.picker_erase();
            Vec::new()
        } else {
            match crate::path::path_parent(self.file_picker_state.current_dir.as_str()) {
                Some(p) => {
                    self.set_picker_dir(p);
                    let mut effects: Vec<Effect> = Vec::new();
                    effects.push(Effect::RefreshFilePicker);
                    proof {
                        assert(effects@ =~= seq![Effect::RefreshFilePicker]);
                    }
                    effects
                },
                None => Vec::new(),
            }
        }
    }

    /// Handles a key on the file picker.
    pub fn handle_file_picker_input(&mut self, key: KeyEvent) -> (effects: Vec<Effect>)
        requires
            picker_key_ok(*old(self), key.code),
        ensures
            final(self).wf() == old(self).wf(),
            picker_step(*old(self), *final(self), key.code, effects@),
    {
        match key.code {
            KeyCode::Esc => {
                self.close_picker();
                Vec::new()
            },
            KeyCode::Up => {
                let (s, sc) = select_up(self.file_picker_state.selected, self.file_picker_state.scroll);
                self.move_picker(s, sc);
                Vec::new()
            },
            KeyCode::Down => {
                let n = self.file_picker_state.filtered_entries.len();
                let (s, sc) = select_down(self.file_picker_state.selected, self.file_picker_state.scroll, n);
                self.move_picker(s, sc);
                Vec::new()
            },
            KeyCode::Enter => self.picker_enter(),
            KeyCode::Backspace => self.picker_back(),
            KeyCode::Char(c) => {
                self.picker_type(c);
                Vec::new()
            },
            _ => Vec::new(),
        }
    }

    /// Sends the AI prompt: it joins the chat with an empty answer after it.
    #[verifier::rlimit(30)]
    fn send_prompt(&mut self)
        ensures
            final(self).wf() == old(self).wf(),
            prompt_sent(*old(self), *final(self)),
    {
        let ghost h0 = self.ai_chat_history@;
        let mut prompt = String::new();
        std::mem::swap(&mut prompt, &mut self.ai_input_buffer);
        self.ai_chat_history.push(AiMessage { role: "user".to_owned(), content: prompt });
        self.ai_chat_history.push(AiMessage { role: "assistant".to_owned(), content: String::new() });
        self.ai_generating = true;
        proof {
            reveal_strlit("user");
            reveal_strlit("assistant");
            assert(self.ai_chat_history@.take(h0.len() as int) =~= h0);
            reveal(prompt_sent);
        }
    }

    /// Adds `c` to the AI prompt.
    #[verifier::rlimit(30)]
    fn type_prompt(&mut self, c: char)
        ensures
            final(self).wf() == old(self).wf(),
            prompt_typed(*old(self), *final(self), c),
    {
        push_char(&mut self.ai_input_buffer, c);
        proof {
            reveal(prompt_typed);
        }
    }

    /// Erases the last character of the AI prompt.
    #[verifier::rlimit(30)]
    fn erase_prompt(&mut self)
        ensures
            final(self).wf() == old(self).wf(),
            prompt_erased(*old(self), *final(self)),
    {
        pop_char(&mut self.ai_input_buffer);
        proof {
            reveal(prompt_erased);
        }
    }

    /// Hides the AI sidebar and focuses the editor.
    #[verifier::rlimit(30)]
    fn close_sidebar(&mut self)
        ensures
            final(self).wf() == old(self).wf(),
            sidebar_closed(*old(self), *final(self)),
    {
        self.show_ai_sidebar = false;
        self.focus = AppFocus::Editor;
        proof {
            reveal(sidebar_closed);
        }
    }

    /// Handles a key in the AI sidebar; the caller starts the assistant on
    /// the chat when asked to.
    pub fn handle_ai_input(&mut self, key: KeyEvent) -> (effects: Vec<Effect>)
        ensures
            final(self).wf() == old(self).wf(),
            ai_step(*old(self), *final(self), key.code, effects@),
    {
        match key.code {
            KeyCode::Enter => {
                if self.ai_input_buffer.as_str().unicode_len() > 0 && !self.ai_generating {
                    self.send_prompt();
                    let mut effects: Vec<Effect> = Vec::new();
                    effects.push(Effect::StartAiChat);
                    proof {
                        assert(effects@ =~= seq![Effect::StartAiChat]);
                    }
                    effects
                } else {
                    Vec::new()
                }
            },
            KeyCode::Char(c) => {
                self.type_prompt(c);
                Vec::new()
            },
            KeyCode::Backspace => {
                self.erase_prompt();
                Vec::new()
            },
            KeyCode::Esc => {
                self.close_sidebar();
                Vec::new()
            },
            _ => Vec::new(),
        }
    }
}

/// `s1` is the setup wizard `s0` after `k` (other than Enter and Esc), with
/// `n` themes to choose from: Tab/Down and BackTab/Up change the choice of
/// the current step (the theme, the edit mode among four, the AI model
/// among four; on the first step Tab/Down leave the name field), typing and
/// Backspace edit the name on the first step.
pub open spec fn setup_moved(s0: SetupState, s1: SetupState, k: KeyCode, n: nat) -> bool {
    match k {
        KeyCode::Tab | KeyCode::Down => s1 == if s0.step == 0 {
            SetupState { editing_field: false, ..s0 }
        } else if s0.step == 1 {
            SetupState { selected_theme: ((s0.selected_theme + 1) % (n as int)) as usize, ..s0 }
        } else if s0.step == 2 {
            SetupState { selected_mode: ((s0.selected_mode + 1) % 4) as usize, ..s0 }
        } else if s0.step == 3 {
            SetupState { ai_model_choice: ((s0.ai_model_choice + 1) % 4) as usize, ..s0 }
        } else {
            s0
        },
        KeyCode::BackTab | KeyCode::Up => s1 == if s0.step == 1 {
            SetupState {
                selected_theme: if s0.selected_theme == 0 {
                    (n - 1) as usize
                } else {
                    (s0.selected_theme - 1) as usize
                },
                ..s0
            }
        } else if s0.step == 2 {
            SetupState {
                selected_mode: if s0.selected_mode == 0 {
                    3
                } else {
                    (s0.selected_mode - 1) as usize
                },
                ..s0
            }
        } else if s0.step == 3 {
            SetupState {
                ai_model_choice: if s0.ai_model_choice == 0 {
                    3
                } else {
                    (s0.ai_model_choice - 1) as usize
                },
                ..s0
            }
        } else {
            s0
        },
        KeyCode::Char(c) => if s0.step == 0 && s0.editing_field {
            s1.username@ == s0.username@.push(c) && s1 == SetupState { username: s1.username, ..s0 }
        } else {
            s1 == s0
        },
        KeyCode::Backspace => if s0.step == 0 && s0.editing_field {
            &&& s1.username@ == if s0.username@.len() > 0 {
                s0.username@.drop_last()
            } else {
                s0.username@
            }
            &&& s1 == SetupState { username: s1.username, ..s0 }
        } else if s0.step == 0 {
            s1 == SetupState { editing_field: true, ..s0 }
        } else {
            s1 == s0
        },
        _ => s1 == s0,
    }
}

/// `k` can be handled by `setup_moved` without failing.
pub open spec fn setup_move_ok(s: SetupState, k: KeyCode, n: nat) -> bool {
    match k {
        KeyCode::Tab | KeyCode::Down => {
            &&& s.step == 1 ==> n > 0 && s.selected_theme < usize::MAX
            &&& s.step == 2 ==> s.selected_mode < usize::MAX
            &&& s.step == 3 ==> s.ai_model_choice < usize::MAX
        },
        KeyCode::BackTab | KeyCode::Up => s.step == 1 && s.selected_theme == 0 ==> n > 0,
        _ => true,
    }
}

/// Applies `k` to the setup wizard `s` (see `setup_moved`).
fn setup_key(s: &mut SetupState, k: KeyCode, n: usize)
    requires
        setup_move_ok(*old(s), k, n as nat),
    ensures
        setup_moved(*old(s), *final(s), k, n as nat),
{
    match k {
        KeyCode::Tab | KeyCode::Down => {
            if s.step == 0 {
                s.editing_field = false;
            } else if s.step == 1 {
                s.selected_theme = (s.selected_theme + 1) % n;
            } else if s.step == 2 {
                s.selected_mode = (s.selected_mode + 1) % 4;
            } else if s.step == 3 {
                s.ai_model_choice = (s.ai_model_choice + 1) % 4;
            }
        },
        KeyCode::BackTab | KeyCode::Up => {
            if s.step == 1 {
                s.selected_theme = if s.selected_theme == 0 {
                    n - 1
                } else {
                    s.selected_theme - 1
                };
            } else if s.step == 2 {
                s.selected_mode = if s.selected_mode == 0 {
                    3
                } else {
                    s.selected_mode - 1
                };
            } else if s.step == 3 {
                s.ai_model_choice = if s.ai_model_choice == 0 {
                    3
                } else {
                    s.ai_model_choice - 1
                };
            }
        },
        KeyCode::Char(c) => {
            if s.step == 0 && s.editing_field {
                push_char(&mut s.username, c);
            }
        },
        KeyCode::Backspace => {
            if s.step == 0 && s.editing_field {
                pop_char(&mut s.username);
            } else if s.step == 0 {
                s.editing_field = true;
            }
        },
        _ => {},
    }
}

/// The edit mode the setup wizard applies for its mode choice `m`.
pub open spec fn setup_mode(m: usize) -> EditMode {
    if m == 0 {
        EditMode::Vim
    } else if m == 1 {
        EditMode::Nano
    } else {
        EditMode::Aether
    }
}

/// The mode name the setup wizard stores for its mode choice `m`.
pub open spec fn setup_mode_name(m: usize) -> Seq<char> {
    if m == 0 {
        "vim"@
    } else if m == 1 {
        "nano"@
    } else {
        "aether"@
    }
}

/// `a1` is `a0` with the setup wizard moved by `k` (see `setup_moved`).
#[verifier::opaque]
pub open spec fn setup_updated(a0: App, a1: App, k: KeyCode, n: nat) -> bool {
    &&& setup_moved(a0.setup_state, a1.setup_state, k, n)
    &&& a1 == (App { setup_state: a1.setup_state, ..a0 })
}

/// `a1` is `a0` with the wizard one step further; leaving the first step
/// closes the name field and stores the name in the settings.
#[verifier::opaque]
pub open spec fn setup_advanced(a0: App, a1: App) -> bool {
    let ss = a0.setup_state;
    &&& a1.setup_state == (SetupState {
        step: (ss.step + 1) as usize,
        editing_field: if ss.step == 0 {
            false
        } else {
            ss.editing_field
        },
        ..ss
    })
    &&& a1.config == if ss.step == 0 {
        Config { username: ss.username, ..a0.config }
    } else {
        a0.config
    }
    &&& a1 == (App { setup_state: a1.setup_state, config: a1.config, ..a0 })
}

/// `a1` is `a0` with the wizard's choices stored in the settings: the name,
/// the theme, the edit mode's name, whether AI is on; the first run is over.
#[verifier::opaque]
pub open spec fn setup_stored(a0: App, a1: App) -> bool {
    let ss = a0.setup_state;
    &&& a1.config.edit_mode@ == setup_mode_name(ss.selected_mode)
    &&& a1.config == (Config {
        username: ss.username,
        theme_index: ss.selected_theme,
        edit_mode: a1.config.edit_mode,
        ai_enabled: ss.enable_ai,
        first_run: false,
        ..a0.config
    })
    &&& a1 == (App { config: a1.config, ..a0 })
}

/// `a1` is `a0` with the wizard's theme (of `themes`) and edit mode applied,
/// back on the welcome screen.
#[verifier::opaque]
pub open spec fn setup_applied(a0: App, a1: App, themes: Seq<Theme>) -> bool {
    let ss = a0.setup_state;
    &&& a1.theme == themes[ss.selected_theme as int]
    &&& a1 == (App {
        theme_index: ss.selected_theme,
        theme: a1.theme,
        edit_mode: setup_mode(ss.selected_mode),
        screen: AppScreen::Welcome,
        ..a0
    })
}

/// `a1` and `effects` after `k` on the setup wizard with `themes` to choose
/// from: Esc skips it (to the welcome screen, settings saved), Enter goes
/// to the next step or, on the last one, stores and applies the choices.
pub open spec fn setup_step(a0: App, a1: App, k: KeyCode, effects: Seq<Effect>, themes: Seq<Theme>) -> bool {
    let ss = a0.setup_state;
    match k {
        KeyCode::Esc => effects == seq![Effect::SaveConfig] && screen_set(a0, a1, AppScreen::Welcome),
        KeyCode::Enter => if ss.step + 1 < ss.total_steps {
            effects.len() == 0 && setup_advanced(a0, a1)
        } else {
            &&& effects == seq![Effect::SaveConfig]
            &&& exists|m: App| #[trigger] setup_stored(a0, m) && setup_applied(m, a1, themes)
        },
        _ => effects.len() == 0 && setup_updated(a0, a1, k, themes.len()),
    }
}

/// `k` can be handled on the setup wizard of `a` without failing.
pub open spec fn setup_key_ok(a: App, k: KeyCode, themes: Seq<Theme>) -> bool {
    let ss = a.setup_state;
    match k {
        KeyCode::Esc => true,
        KeyCode::Enter => ss.total_steps > 0 && (ss.step + 1 >= ss.total_steps
            ==> ss.selected_theme < themes.len()),
        _ => setup_move_ok(ss, k, themes.len()),
    }
}

impl App {
    /// Moves the setup wizard by `k`.
    #[verifier::rlimit(30)]
    fn update_setup(&mut self, k: KeyCode, n: usize)
        requires
            setup_move_ok(old(self).setup_state, k, n as nat),
        ensures
            final(self).wf() == old(self).wf(),
            setup_updated(*old(self), *final(self), k, n as nat),
    {
        setup_key(&mut self.setup_state, k, n);
        proof {
            reveal(setup_updated);
        }
    }

    /// Goes to the wizard's next step.
    #[verifier::rlimit(30)]
    fn advance_setup(&mut self)
        requires
            old(self).setup_state.step < usize::MAX,
        ensures
            final(self).wf() == old(self).wf(),
            setup_advanced(*old(self), *final(self)),
    {
        let first = self.setup_state.step == 0;
        let name = if first {
            self.setup_state.username.clone()
        } else {
            self.config.username.clone()
        };
        self.setup_state.editing_field = if first {
            false
        } else {
            self.setup_state.editing_field
        };
        self.config.username = name;
        self.setup_state.step = self.setup_state.step + 1;
        proof {
            reveal(setup_advanced);
        }
    }

    /// Stores the wizard's choices in the settings.
    #[verifier::rlimit(30)]
    fn store_setup(&mut self)
        ensures
            final(self).wf() == old(self).wf(),
            setup_stored(*old(self), *final(self)),
            final(self).setup_state == old(self).setup_state,
    {
        let m = self.setup_state.selected_mode;
        self.config.username = self.setup_state.username.clone();
        self.config.theme_index = self.setup_state.selected_theme;
        self.config.edit_mode = (if m == 0 {
            "vim"
        } else if m == 1 {
            "nano"
        } else {
            "aether"
        }).to_owned();
        self.config.ai_enabled = self.setup_state.enable_ai;
        self.config.first_run = false;
        proof {
            reveal_strlit("vim");
            reveal_strlit("nano");
            reveal_strlit("aether");
            reveal(setup_stored);
        }
    }

    /// Applies the wizard's theme and edit mode and shows the welcome screen.
    #[verifier::rlimit(30)]
    fn apply_setup(&mut self, themes: &Vec<Theme>)
        requires
            old(self).setup_state.selected_theme < themes@.len(),
        ensures
            final(self).wf() == old(self).wf(),
            setup_applied(*old(self), *final(self), themes@),
    {
        let t = self.setup_state.selected_theme;
        let m = self.setup_state.selected_mode;
        self.theme_index = t;
        self.theme = themes[t].duplicate();
        self.edit_mode = if m == 0 {
            EditMode::Vim
        } else if m == 1 {
            EditMode::Nano
        } else {
            EditMode::Aether
        };
        self.screen = AppScreen::Welcome;
        proof {
            reveal(setup_applied);
        }
    }

    /// Handles a key on the setup wizard.
    pub fn handle_setup_input(&mut self, key: KeyEvent, themes: &Vec<Theme>) -> (effects: Vec<Effect>)
        requires
            setup_key_ok(*old(self), key.code, themes@),
        ensures
            final(self).wf() == old(self).wf(),
            setup_step(*old(self), *final(self), key.code, effects@, themes@),
    {
        let ghost a0 = *self;
        match key.code {
            KeyCode::Esc => {
                self.go_to_screen(AppScreen::Welcome);
                let mut effects: Vec<Effect> = Vec::new();
                effects.push(Effect::SaveConfig);
                proof {
                    assert(effects@ =~= seq![Effect::SaveConfig]);
                }
                effects
            },
            KeyCode::Enter => {
                if self.setup_state.step < self.setup_state.total_steps - 1 {
                    self.advance_setup();
                    Vec::new()
                } else {
                    self.store_setup();
                    let ghost m = *self;
                    self.apply_setup(themes);
                    let mut effects: Vec<Effect> = Vec::new();
                    effects.push(Effect::SaveConfig);
                    proof {
                        assert(effects@ =~= seq![Effect::SaveConfig]);
                        assert(setup_stored(a0, m));
                    }
                    effects
                }
            },
            _ => {
                self.update_setup(key.code, themes.len());
                Vec::new()
            },
        }
    }
}

pub const OPEN_TIP: &'static str = "Tip: pass a filename as argument: aether <file>";

/// The welcome screen's entry at position `sel`, when it is one of the
/// actions: new file, open, controls, about, setup, update (only with
/// automatic updates on), quit.
pub open spec fn welcome_option(sel: usize, auto_update: bool) -> Option<char> {
    let opts = if auto_update {
        seq!['n', 'o', 'c', 'a', 's', 'u', 'q']
    } else {
        seq!['n', 'o', 'c', 'a', 's', 'q']
    };
    if sel < opts.len() {
        Some(opts[sel as int])
    } else {
        None
    }
}

/// The number of action entries of the welcome screen.
pub open spec fn welcome_count(auto_update: bool) -> nat {
    if auto_update {
        7
    } else {
        6
    }
}

/// `a1` is `a0` with the welcome screen's selection at `sel`.
#[verifier::opaque]
pub open spec fn welcome_moved(a0: App, a1: App, sel: usize) -> bool {
    &&& a1.welcome_state == (WelcomeState { selected_option: sel, ..a0.welcome_state })
    &&& a1 == (App { welcome_state: a1.welcome_state, ..a0 })
}

/// `a1` is `a0` on a fresh setup wizard for the configured user.
#[verifier::opaque]
pub open spec fn setup_restarted(a0: App, a1: App) -> bool {
    &&& fresh_setup(a1.setup_state, a0.config.username@)
    &&& a1 == (App { screen: AppScreen::Setup, setup_state: a1.setup_state, ..a0 })
}

/// `a1` is `a0` after the welcome action `opt`.
pub open spec fn welcome_action(a0: App, a1: App, opt: char) -> bool {
    if opt == 'n' {
        new_file_opened(a0, a1)
    } else if opt == 'o' {
        exists|m: App| #[trigger] new_file_opened(a0, m) && reported(m, a1, OPEN_TIP@)
    } else if opt == 'c' {
        screen_set(a0, a1, AppScreen::Controls)
    } else if opt == 'a' {
        screen_set(a0, a1, AppScreen::About)
    } else if opt == 's' {
        setup_restarted(a0, a1)
    } else if opt == 'u' {
        screen_set(a0, a1, AppScreen::Updater)
    } else {
        quit_set(a0, a1)
    }
}

/// `a1` and `effects` after `k` on the welcome screen: the letters `q n o s`
/// act directly, the arrows move the selection (one past the recent files
/// at most), Enter runs the selected action or opens the selected recent
/// file.
pub open spec fn welcome_step(a0: App, a1: App, k: KeyCode, effects: Seq<Effect>) -> bool {
    let ws = a0.welcome_state;
    let sel = ws.selected_option;
    let count = welcome_count(a0.config.auto_update);
    let recent = ws.recent_files@;
    if k == KeyCode::Enter && count <= sel && sel - count < recent.len() {
        &&& a1 == a0
        &&& effects.len() == 1
        &&& effects[0] matches Effect::OpenFile(f) && f@ == recent[sel - count]@
    } else {
        &&& effects.len() == 0
        &&& match k {
            KeyCode::Char(c) => if c == 'q' || c == 'Q' {
                quit_set(a0, a1)
            } else if c == 'n' || c == 'N' {
                welcome_action(a0, a1, 'n')
            } else if c == 'o' || c == 'O' {
                welcome_action(a0, a1, 'o')
            } else if c == 's' {
                setup_restarted(a0, a1)
            } else {
                a1 == a0
            },
            KeyCode::Up => welcome_moved(
                a0,
                a1,
                if sel > 0 {
                    (sel - 1) as usize
                } else {
                    sel
                },
            ),
            KeyCode::Down => welcome_moved(
                a0,
                a1,
                if sel < count + recent.len() {
                    (sel + 1) as usize
                } else {
                    sel
                },
            ),
            KeyCode::Enter => match welcome_option(sel, a0.config.auto_update) {
                Some(opt) => welcome_action(a0, a1, opt),
                None => a1 == a0,
            },
            _ => a1 == a0,
        }
    }
}

/// `welcome_option`.
fn welcome_option_at(sel: usize, auto_update: bool) -> (r: Option<char>)
    ensures
        r == welcome_option(sel, auto_update),
{
    let ghost opts = if auto_update {
        seq!['n', 'o', 'c', 'a', 's', 'u', 'q']
    } else {
        seq!['n', 'o', 'c', 'a', 's', 'q']
    };
    let r = if sel == 0 {
        Some('n')
    } else if sel == 1 {
        Some('o')
    } else if sel == 2 {
        Some('c')
    } else if sel == 3 {
        Some('a')
    } else if sel == 4 {
        Some('s')
    } else if sel == 5 {
        Some(if auto_update {
            'u'
        } else {
            'q'
        })
    } else if sel == 6 && auto_update {
        Some('q')
    } else {
        None
    };
    r
}

impl App {
    /// Puts the welcome screen's selection at `sel`.
    #[verifier::rlimit(30)]
    fn move_welcome(&mut self, sel: usize)
        ensures
            final(self).wf() == old(self).wf(),
            welcome_moved(*old(self), *final(self), sel),
    {
        self.welcome_state.selected_option = sel;
        proof {
            reveal(welcome_moved);
        }
    }

    /// Starts the setup wizard again for the configured user.
    #[verifier::rlimit(30)]
    fn restart_setup(&mut self)
        ensures
            final(self).wf() == old(self).wf(),
            setup_restarted(*old(self), *final(self)),
    {
        self.setup_state = SetupState::for_user(self.config.username.clone());
        self.screen = AppScreen::Setup;
        proof {
            reveal(setup_restarted);
        }
    }

    /// Runs the welcome action `opt`.
    fn run_welcome_action(&mut self, opt: char)
        requires
            old(self).wf(),
        ensures
            final(self).wf(),
            welcome_action(*old(self), *final(self), opt),
    {
        if opt == 'n' {
            self.open_new_file();
        } else if opt == 'o' {
            self.open_new_file();
            self.report(OPEN_TIP);
        } else if opt == 'c' {
            self.go_to_screen(AppScreen::Controls);
        } else if opt == 'a' {
            self.go_to_screen(AppScreen::About);
        } else if opt == 's' {
            self.restart_setup();
        } else if opt == 'u' {
            self.go_to_screen(AppScreen::Updater);
        } else {
            self.quit();
        }
    }

    /// Handles a key on the welcome screen.
    pub fn handle_welcome_input(&mut self, key: KeyEvent) -> (effects: Vec<Effect>)
        requires
            old(self).wf(),
            old(self).welcome_state.recent_files@.len() + 7 <= usize::MAX,
        ensures
            final(self).wf(),
            welcome_step(*old(self), *final(self), key.code, effects@),
    {
        let sel = self.welcome_state.selected_option;
        let count: usize = if self.config.auto_update {
            7
        } else {
            6
        };
        let n = self.welcome_state.recent_files.len();
        if key.code == KeyCode::Enter && count <= sel && sel - count < n {
            let f = self.welcome_state.recent_files[sel - count].clone();
            let mut effects: Vec<Effect> = Vec::new();
            effects.push(Effect::OpenFile(f));
            return effects;
        }
        match key.code {
            KeyCode::Char(c) => {
                if c == 'q' || c == 'Q' {
                    self.quit();
                } else if c == 'n' || c == 'N' {
                    self.run_welcome_action('n');
                } else if c == 'o' || c == 'O' {
                    self.run_welcome_action('o');
                } else if c == 's' {
                    self.restart_setup();
                }
            },
            KeyCode::Up => {
                self.move_welcome(if sel > 0 {
                    sel - 1
                } else {
                    sel
                });
            },
            KeyCode::Down => {
                self.move_welcome(if sel < count || sel - count < n {
                    sel + 1
                } else {
                    sel
                });
            },
            KeyCode::Enter => {
                if let Some(opt) = welcome_option_at(sel, self.config.auto_update) {
                    self.run_welcome_action(opt);
                }
            },
            _ => {},
        }
        Vec::new()
    }
}

} // verus!
