//! The editor's state and the decisions it takes on each key.
//!
//! Everything that touches the terminal, the disk or other processes is left
//! to the caller: the handlers return the `Effect`s to carry out.
pub mod lists;
pub mod listing;
pub mod display;
pub mod guard;
pub mod scripting;
pub mod chat_view;
pub mod input;
pub mod screens;
pub mod keys;
pub mod vim_motions;

use vstd::prelude::*;
use crate::ai::AiMessage;
use crate::config::{current_username, Config};
use crate::editor::buffer::join_lines;
use crate::editor::document::{doc_name, path_view, Document};
use crate::theme::Theme;
use crate::app::lists::{all_indices, command_pairs, palette_commands, CommandPaletteState, FilePickerState};
use crate::text::{lowercase, text_eq};

verus! {

#[derive(Debug, Clone, Copy, PartialEq, Eq, Structural)]
pub enum AppScreen {
    Setup,
    Welcome,
    Editor,
    CommandPalette,
    About,
    Updater,
    GitStatus,
    GitDiff,
    GitCommit,
    Controls,
}

#[derive(Debug, Clone, Copy, PartialEq, Eq, Structural)]
#[allow(dead_code)]
pub enum EditMode {
    Vim,
    Nano,
    Emacs,
    Aether,
}

#[derive(Debug, Clone, Copy, PartialEq, Eq, Structural)]
pub enum VimSubMode {
    Normal,
    Insert,
    Command,
    Visual,
}

#[derive(Debug, Clone, Copy, PartialEq, Eq, Structural)]
#[allow(dead_code)]
pub enum AppFocus {
    Editor,
    Sidebar,
    CommandPalette,
    AiPrompt,
}

#[derive(Debug, Clone)]
pub struct SetupState {
    pub step: usize,
    pub total_steps: usize,
    pub username: String,
    pub selected_theme: usize,
    pub selected_mode: usize,
    pub enable_ai: bool,
    pub ai_model_choice: usize,
    pub editing_field: bool,
    pub enable_auto_update: bool,
    pub enable_mouse: bool,
    pub options_focus: usize,
}

/// The setup wizard at its first step for the user `username`.
pub open spec fn fresh_setup(s: SetupState, username: Seq<char>) -> bool {
    &&& s.step == 0
    &&& s.total_steps == 5
    &&& s.username@ == username
    &&& s.selected_theme == 0
    &&& s.selected_mode == 3
    &&& !s.enable_ai
    &&& s.ai_model_choice == 0
    &&& s.editing_field
    &&& s.enable_auto_update
    &&& s.enable_mouse
    &&& s.options_focus == 0
}

impl SetupState {
    /// The wizard at its first step for the user `username` (Aether mode preselected).
    pub fn for_user(username: String) -> (s: Self)
        ensures
            fresh_setup(s, username@),
    {
        SetupState {
            step: 0,
            total_steps: 5,
            username,
            selected_theme: 0,
            selected_mode: 3,  // Aether mode by default
            enable_ai: false,
            ai_model_choice: 0,
            editing_field: true,
            enable_auto_update: true,
            enable_mouse: true,
            options_focus: 0,
        }
    }

    /// The wizard at its first step for the user running the program.
    pub fn new() -> (s: Self)
        ensures
            exists|u: Seq<char>| fresh_setup(s, u),
    {
        SetupState::for_user(current_username())
    }
}

#[derive(Debug, Clone)]
#[allow(dead_code)]
pub enum AgentCommand {
    Create { path: String, content: String },
    Append { path: String, content: String },
    Read { path: String },
    Delete { path: String },
    Rename { old: String, new: String },
    List { path: String },
    Grep { pattern: String, path: String },
    Shell { command: String },
    Test { command: String },
    Commit { message: String },
    WebFetch { url: String },
}

#[derive(Debug, Clone)]
pub struct WelcomeState {
    pub selected_option: usize,
    pub recent_files: Vec<String>,
}

impl WelcomeState {
    pub fn new(recent_files: Vec<String>) -> (s: Self)
        ensures
            s.selected_option == 0,
            s.recent_files == recent_files,
    {
        WelcomeState { selected_option: 0, recent_files }
    }
}

#[derive(Debug, Clone, Copy, PartialEq, Eq, Structural)]
pub enum PopupMenuType {
    Mode,
    AiModel,
    Theme,
}

#[derive(Debug, Clone)]
pub struct PopupMenu {
    pub title: String,
    pub options: Vec<String>,
    pub selected: usize,
    pub menu_type: PopupMenuType,
    pub scroll: usize,
}

#[derive(Debug, Clone)]
pub struct FileTreeEntry {
    pub name: String,
    pub _path: String,
    pub is_dir: bool,
    pub depth: usize,
    pub expanded: bool,
}

/// The keys the editor reacts to.
#[derive(Debug, Clone, Copy, PartialEq, Eq, Structural)]
pub enum KeyCode {
    Char(char),
    Enter,
    Esc,
    Backspace,
    Delete,
    Left,
    Right,
    Up,
    Down,
    Home,
    End,
    PageUp,
    PageDown,
    Tab,
    BackTab,
    F(u8),
    Other,
}

/// A key press with its Ctrl and Alt modifiers.
#[derive(Debug, Clone, Copy, PartialEq, Eq, Structural)]
pub struct KeyEvent {
    pub code: KeyCode,
    pub ctrl: bool,
    pub alt: bool,
}

/// A file write the caller performs for a save.
pub struct WriteRequest {
    /// The tab to mark unmodified when the write succeeds, if it stays open.
    pub tab: Option<usize>,
    pub path: String,
    pub contents: String,
    /// The file name a successful save reports.
    pub name: String,
    /// Whether the outcome goes to the status line.
    pub report: bool,
}

/// Work the caller carries out after a handler returns, in order.
pub enum Effect {
    /// Write a document's text to its file, then call `App::finish_save`.
    Write(WriteRequest),
    /// Open this file (`App::switch_to_open`, then read and `App::finish_open`).
    OpenFile(String),
    /// Store the configuration.
    SaveConfig,
    /// Re-read the file picker's directory.
    RefreshFilePicker,
    /// Start the self-updater.
    StartUpdater,
    /// Ask the assistant to answer the chat history.
    StartAiChat,
}

pub struct App {
    pub screen: AppScreen,
    pub should_quit: bool,
    pub config: Config,
    pub documents: Vec<Document>,
    pub active_tab: usize,
    pub edit_mode: EditMode,
    pub vim_mode: VimSubMode,
    pub vim_command_buffer: String,
    pub theme: Theme,
    pub theme_index: usize,
    pub show_file_tree: bool,
    pub file_tree_width: u16,
    pub show_line_numbers: bool,
    pub status_message: String,
    /// Set whenever the status message is set; the caller restarts the
    /// message's display time and clears it.
    pub status_fresh: bool,
    pub setup_state: SetupState,
    pub welcome_state: WelcomeState,
    pub command_palette: CommandPaletteState,
    pub search_query: String,
    pub searching: bool,
    pub file_tree_entries: Vec<FileTreeEntry>,
    pub file_tree_selected: usize,
    pub file_tree_scroll: usize,
    pub word_wrap: bool,
    pub active_popup: Option<PopupMenu>,
    pub go_to_line_active: bool,
    pub go_to_line_query: String,
    pub focus: AppFocus,
    pub file_picker_active: bool,
    pub file_picker_state: FilePickerState,
    pub show_ai_sidebar: bool,
    pub ai_sidebar_width: u16,
    pub ai_chat_history: Vec<AiMessage>,
    pub ai_generating: bool,
    pub ai_input_buffer: String,
    pub pending_ai_commands: Vec<AgentCommand>,
    pub save_prompt_active: bool,
    pub save_prompt_query: String,
    pub show_lua_info: bool,
    pub show_tab_switch_hint: bool,
    pub last_lua_key: String,
    pub updater_status: String,
    pub updater_progress: usize,
    pub updater_completed: bool,
    pub updater_logs: Vec<String>,
    pub git_unstaged: Vec<String>,
    pub git_staged: Vec<String>,
    pub git_focus: usize,
    pub git_selected: usize,
    pub git_diff_content: Vec<String>,
    pub git_commit_message: String,
}

/// The edit mode a configuration names: `"vim"`, `"nano"`, else Aether.
pub open spec fn mode_named(name: Seq<char>) -> EditMode {
    if name == "vim"@ {
        EditMode::Vim
    } else if name == "nano"@ {
        EditMode::Nano
    } else {
        EditMode::Aether
    }
}

/// The characters of each string.
pub open spec fn strings(v: Seq<String>) -> Seq<Seq<char>> {
    Seq::new(v.len(), |i: int| v[i]@)
}


/// The write that saves the open document of `a`: its text to its path,
/// reported on the status line.
pub open spec fn save_request_for(a: App, r: WriteRequest) -> bool {
    &&& path_view(a.active().file_path) == Some(r.path@)
    &&& r.contents@ == join_lines(a.active().buffer@.lines)
    &&& r.name@ == doc_name(a.active())
    &&& r.report
}

/// `a1` and the write `w` after `save_current` on `a0`: nothing without
/// documents, the write for a document with a path, an error otherwise.
#[verifier::opaque]
pub open spec fn saved(a0: App, a1: App, w: Option<WriteRequest>) -> bool {
    if a0.documents@.len() == 0 {
        a1 == a0 && w is None
    } else if path_view(a0.active().file_path) is Some {
        &&& a1 == a0
        &&& w matches Some(r) && r.tab == Some(a0.active_tab) && save_request_for(a0, r)
    } else {
        &&& w is None
        &&& a1.status_message@ == "Error saving: No file path set"@
        &&& a1 == (App { status_message: a1.status_message, status_fresh: true, ..a0 })
    }
}

/// `a1` differs from `a0` at most in its documents, open tab and screen.
pub open spec fn tabs_only_changed(a0: App, a1: App) -> bool {
    &&& a1.should_quit == a0.should_quit
    &&& a1.config == a0.config
    &&& a1.edit_mode == a0.edit_mode
    &&& a1.vim_mode == a0.vim_mode
    &&& a1.vim_command_buffer == a0.vim_command_buffer
    &&& a1.theme == a0.theme
    &&& a1.theme_index == a0.theme_index
    &&& a1.show_file_tree == a0.show_file_tree
    &&& a1.file_tree_width == a0.file_tree_width
    &&& a1.show_line_numbers == a0.show_line_numbers
    &&& a1.status_message == a0.status_message
    &&& a1.status_fresh == a0.status_fresh
    &&& a1.setup_state == a0.setup_state
    &&& a1.welcome_state == a0.welcome_state
    &&& a1.command_palette == a0.command_palette
    &&& a1.search_query == a0.search_query
    &&& a1.searching == a0.searching
    &&& a1.file_tree_entries == a0.file_tree_entries
    &&& a1.file_tree_selected == a0.file_tree_selected
    &&& a1.file_tree_scroll == a0.file_tree_scroll
    &&& a1.word_wrap == a0.word_wrap
    &&& a1.active_popup == a0.active_popup
    &&& a1.go_to_line_active == a0.go_to_line_active
    &&& a1.go_to_line_query == a0.go_to_line_query
    &&& a1.focus == a0.focus
    &&& a1.file_picker_active == a0.file_picker_active
    &&& a1.file_picker_state == a0.file_picker_state
    &&& a1.show_ai_sidebar == a0.show_ai_sidebar
    &&& a1.ai_sidebar_width == a0.ai_sidebar_width
    &&& a1.ai_chat_history == a0.ai_chat_history
    &&& a1.ai_generating == a0.ai_generating
    &&& a1.ai_input_buffer == a0.ai_input_buffer
    &&& a1.pending_ai_commands == a0.pending_ai_commands
    &&& a1.save_prompt_active == a0.save_prompt_active
    &&& a1.save_prompt_query == a0.save_prompt_query
    &&& a1.show_lua_info == a0.show_lua_info
    &&& a1.show_tab_switch_hint == a0.show_tab_switch_hint
    &&& a1.last_lua_key == a0.last_lua_key
    &&& a1.updater_status == a0.updater_status
    &&& a1.updater_progress == a0.updater_progress
    &&& a1.updater_completed == a0.updater_completed
    &&& a1.updater_logs == a0.updater_logs
    &&& a1.git_unstaged == a0.git_unstaged
    &&& a1.git_staged == a0.git_staged
    &&& a1.git_focus == a0.git_focus
    &&& a1.git_selected == a0.git_selected
    &&& a1.git_diff_content == a0.git_diff_content
    &&& a1.git_commit_message == a0.git_commit_message
}

/// The documents, open tab and screen after closing the open tab of `a0`:
/// the tab is removed, the next one (or the new last one) is opened, and the
/// welcome screen comes back after the last tab.
pub open spec fn closed_tab(a0: App, a1: App) -> bool {
    let n = a0.documents@.len();
    if n == 0 {
        a1 == a0
    } else {
        &&& a1.documents@ == a0.documents@.remove(a0.active_tab as int)
        &&& a1.active_tab == if n == 1 {
            0
        } else if a0.active_tab >= n - 1 {
            (n - 2) as usize
        } else {
            a0.active_tab
        }
        &&& a1.screen == if n == 1 {
            AppScreen::Welcome
        } else {
            a0.screen
        }
    }
}

/// `a` is the editor as it starts with `config`, the themes `themes` and
/// the file picker `picker`: on the welcome screen, nothing open, every
/// panel and prompt closed, the palette listing all its commands.
pub open spec fn fresh_app(a: App, config: Config, themes: Seq<Theme>, picker: FilePickerState) -> bool {
    &&& a.screen == AppScreen::Welcome
    &&& !a.should_quit
    &&& a.config == config
    &&& a.documents@.len() == 0
    &&& a.active_tab == 0
    &&& a.edit_mode == mode_named(config.edit_mode@)
    &&& a.vim_mode == VimSubMode::Normal
    &&& a.vim_command_buffer@.len() == 0
    &&& a.theme == themes[config.theme_index as int]
    &&& a.theme_index == config.theme_index
    &&& a.show_file_tree
    &&& a.file_tree_width == 25
    &&& a.show_line_numbers
    &&& a.status_message@.len() == 0
    &&& a.status_fresh
    &&& exists|u: Seq<char>| fresh_setup(a.setup_state, u)
    &&& a.welcome_state.selected_option == 0
    &&& strings(a.welcome_state.recent_files@) == strings(config.recent_files@)
    &&& a.command_palette.query@.len() == 0
    &&& a.command_palette.selected == 0
    &&& a.command_palette.scroll == 0
    &&& command_pairs(a.command_palette.commands@) == palette_commands()
    &&& a.command_palette.filtered@ == all_indices(20)
    &&& a.search_query@.len() == 0
    &&& !a.searching
    &&& a.file_tree_entries@.len() == 0
    &&& a.file_tree_selected == 0
    &&& a.file_tree_scroll == 0
    &&& !a.word_wrap
    &&& a.active_popup is None
    &&& !a.go_to_line_active
    &&& a.go_to_line_query@.len() == 0
    &&& a.focus == AppFocus::Editor
    &&& !a.file_picker_active
    &&& a.file_picker_state == picker
    &&& !a.show_ai_sidebar
    &&& a.ai_sidebar_width == 35
    &&& a.ai_chat_history@.len() == 0
    &&& !a.ai_generating
    &&& a.ai_input_buffer@.len() == 0
    &&& a.pending_ai_commands@.len() == 0
    &&& !a.save_prompt_active
    &&& a.save_prompt_query@.len() == 0
    &&& !a.show_lua_info
    &&& a.show_tab_switch_hint
    &&& a.last_lua_key@.len() == 0
    &&& a.updater_status@.len() == 0
    &&& a.updater_progress == 0
    &&& !a.updater_completed
    &&& a.updater_logs@.len() == 0
    &&& a.git_unstaged@.len() == 0
    &&& a.git_staged@.len() == 0
    &&& a.git_focus == 0
    &&& a.git_selected == 0
    &&& a.git_diff_content@.len() == 0
    &&& a.git_commit_message@.len() == 0
}

impl App {
    /// The open tab, when there is one, is a valid index.
    pub open spec fn wf(&self) -> bool {
        self.documents@.len() > 0 ==> self.active_tab < self.documents@.len()
    }

    /// The open document.
    pub open spec fn active(&self) -> Document {
        self.documents@[self.active_tab as int]
    }

    /// The editor on its welcome screen for `config`, themed after
    /// `themes[config.theme_index]`, with `picker` as the file picker.
    pub fn new(config: Config, themes: &Vec<Theme>, picker: FilePickerState) -> (a: Self)
        requires
            config.theme_index < themes@.len(),
        ensures
            a.wf(),
            fresh_app(a, config, themes@, picker),
            a.screen == AppScreen::Welcome,
            a.documents@.len() == 0,
            a.edit_mode == mode_named(config.edit_mode@),
            a.theme == themes@[config.theme_index as int],
            a.theme_index == config.theme_index,
            strings(a.welcome_state.recent_files@) == strings(config.recent_files@),
            a.config == config,
            a.focus == AppFocus::Editor,
            a.vim_mode == VimSubMode::Normal,
            !a.should_quit,
    {
        let theme_index = config.theme_index;
        let edit_mode = if text_eq(config.edit_mode.as_str(), "vim") {
            EditMode::Vim
        } else if text_eq(config.edit_mode.as_str(), "nano") {
            EditMode::Nano
        } else {
            EditMode::Aether
        };
        let recent = copy_strings(&config.recent_files);
        let mut app = App {
            screen: AppScreen::Welcome,
            should_quit: false,
            documents: Vec::new(),
            active_tab: 0,
            edit_mode,
            vim_mode: VimSubMode::Normal,
            vim_command_buffer: String::new(),
            theme: themes[theme_index].duplicate(),
            theme_index,
            show_file_tree: true,
            file_tree_width: 25,
            show_line_numbers: true,
            status_message: String::new(),
            status_fresh: true,
            setup_state: SetupState::new(),
            welcome_state: WelcomeState::new(recent),
            command_palette: CommandPaletteState::new(),
            search_query: String::new(),
            searching: false,
            file_tree_entries: Vec::new(),
            file_tree_selected: 0,
            file_tree_scroll: 0,
            word_wrap: false,
            active_popup: None,
            go_to_line_active: false,
            go_to_line_query: String::new(),
            focus: AppFocus::Editor,
            file_picker_active: false,
            file_picker_state: picker,
            show_ai_sidebar: false,
            ai_sidebar_width: 35,
            ai_chat_history: Vec::new(),
            ai_generating: false,
            ai_input_buffer: String::new(),
            pending_ai_commands: Vec::new(),
            save_prompt_active: false,
            save_prompt_query: String::new(),
            show_lua_info: false,
            show_tab_switch_hint: true,
            last_lua_key: String::new(),
            updater_status: String::new(),
            updater_progress: 0,
            updater_completed: false,
            updater_logs: Vec::new(),
            git_unstaged: Vec::new(),
            git_staged: Vec::new(),
            git_focus: 0,
            git_selected: 0,
            git_diff_content: Vec::new(),
            git_commit_message: String::new(),
            config,
        };
        app.focus_component(AppFocus::Editor);
        app
    }

    pub fn focus_component(&mut self, focus: AppFocus)
        ensures
            *final(self) == (App { focus: focus, ..*old(self) }),
    {
        self.focus = focus;
    }

    /// Closes the open tab; after the last one, goes back to the welcome screen.
    pub fn close_current_tab(&mut self)
        requires
            old(self).wf(),
        ensures
            final(self).wf(),
            tabs_only_changed(*old(self), *final(self)),
            closed_tab(*old(self), *final(self)),
    {
        if self.documents.len() > 0 {
            self.close_open_tab();
        }
    }

    /// `close_current_tab` when a tab is open.
    fn close_open_tab(&mut self)
        requires
            old(self).wf(),
            old(self).documents@.len() > 0,
        ensures
            final(self).wf(),
            tabs_only_changed(*old(self), *final(self)),
            closed_tab(*old(self), *final(self)),
    {
        let ghost a0 = *self;
        let t = self.active_tab;
        let n = self.documents.len() - 1;
        let new_tab = if t >= n && n > 0 {
            n - 1
        } else if n == 0 {
            0
        } else {
            t
        };
        let new_screen = if n == 0 {
            AppScreen::Welcome
        } else {
            self.screen
        };
        self.documents.remove(t);
        self.active_tab = new_tab;
        self.screen = new_screen;
        proof {
            assert(self.documents@ == a0.documents@.remove(t as int));
            assert(tabs_only_changed(a0, *self));
            assert(closed_tab(a0, *self));
            assert(self.wf());
        }
    }

    /// The next tab, wrapping around.
    pub fn next_tab(&mut self)
        requires
            old(self).wf(),
        ensures
            final(self).wf(),
            *final(self) == if old(self).documents@.len() == 0 {
                *old(self)
            } else {
                App {
                    active_tab: ((old(self).active_tab + 1) % (old(self).documents@.len() as int)) as usize,
                    ..*old(self)
                }
            },
    {
        if self.documents.len() == 0 {
            return;
        }
        self.active_tab = (self.active_tab + 1) % self.documents.len();
    }

    /// Tab `index`, when it exists.
    pub fn select_tab(&mut self, index: usize)
        requires
            old(self).wf(),
        ensures
            final(self).wf(),
            *final(self) == if index < old(self).documents@.len() {
                App { active_tab: index, ..*old(self) }
            } else {
                *old(self)
            },
    {
        if index < self.documents.len() {
            self.active_tab = index;
        }
    }

    /// Shows `msg` on the status line.
    pub fn set_status(&mut self, msg: &str)
        ensures
            final(self).status_message@ == msg@,
            *final(self) == (App {
                status_message: final(self).status_message,
                status_fresh: true,
                ..*old(self)
            }),
    {
        self.status_message = msg.to_owned();
        self.status_fresh = true;
    }

    /// Opens a new untitled document in a new tab.
    pub fn new_file(&mut self)
        requires
            old(self).wf(),
        ensures
            final(self).wf(),
            final(self).documents@.len() == old(self).documents@.len() + 1,
            final(self).documents@.drop_last() == old(self).documents@,
            final(self).active_tab == old(self).documents@.len(),
            final(self).status_message@ == "New file created"@,
            *final(self) == (App {
                documents: final(self).documents,
                active_tab: final(self).active_tab,
                screen: AppScreen::Editor,
                status_message: final(self).status_message,
                status_fresh: true,
                ..*old(self)
            }),
    {
        let ghost before = self.documents@;
        self.documents.push(Document::new());
        assert(self.documents@.drop_last() =~= before);
        self.active_tab = self.documents.len() - 1;
        self.screen = AppScreen::Editor;
        self.set_status("New file created");
    }

    /// The write that saves the open document, or the error shown when it
    /// has no path; nothing without documents.
    pub fn save_current(&mut self) -> (w: Option<WriteRequest>)
        requires
            old(self).wf(),
        ensures
            final(self).wf(),
            saved(*old(self), *final(self), w),
    {
        reveal(saved);
        if self.documents.len() == 0 {
            return None;
        }
        let tab = self.active_tab;
        let doc = &self.documents[tab];
        match &doc.file_path {
            Some(p) => {
                let path = p.clone();
                let contents = doc.buffer.to_string();
                let name = doc.file_name().to_owned();
                Some(WriteRequest { tab: Some(tab), path, contents, name, report: true })
            },
            None => {
                self.set_status("Error saving: No file path set");
                None
            },
        }
    }

    /// Records the outcome of a write: on success the tab it saved (if still
    /// open) is unmodified; reported writes put the outcome on the status line.
    pub fn finish_save(&mut self, request: &WriteRequest, error: Option<&str>)
        ensures
            final(self).documents@.len() == old(self).documents@.len(),
            final(self).active_tab == old(self).active_tab,
            final(self).screen == old(self).screen,
            forall|i: int|
                0 <= i < old(self).documents@.len() ==> {
                    let d0 = old(self).documents@[i];
                    let d1 = #[trigger] final(self).documents@[i];
                    if error is None && request.tab == Some(i as usize) {
                        d1 == Document { modified: false, ..d0 }
                    } else {
                        d1 == d0
                    }
                },
            request.report && error is None ==> final(self).status_message@ == "Saved "@
                + request.name@,
            request.report && error is Some ==> final(self).status_message@ == "Error saving: "@
                + error.unwrap()@,
            !request.report ==> final(self).status_message == old(self).status_message,
    {
        if error.is_none() {
            if let Some(tab) = request.tab {
                if tab < self.documents.len() {
                    let mut doc = Document::new();
                    self.documents.set_and_swap(tab, &mut doc);
                    doc.modified = false;
                    self.documents.set(tab, doc);
                }
            }
        }
        if request.report {
            match error {
                None => {
                    let mut m = "Saved ".to_owned();
                    m.append(request.name.as_str());
                    self.set_status(m.as_str());
                },
                Some(e) => {
                    let mut m = "Error saving: ".to_owned();
                    m.append(e);
                    self.set_status(m.as_str());
                },
            }
        }
    }
}

/// `files` without the entries equal to `path`, in order.
pub open spec fn without(files: Seq<Seq<char>>, path: Seq<char>) -> Seq<Seq<char>>
    decreases files.len(),
{
    if files.len() == 0 {
        Seq::empty()
    } else if files.last() == path {
        without(files.drop_last(), path)
    } else {
        without(files.drop_last(), path).push(files.last())
    }
}

/// The recent-files list after opening `path`: `path` first, no other copy
/// of it, at most ten entries.
pub open spec fn recent_after(files: Seq<Seq<char>>, path: Seq<char>) -> Seq<Seq<char>> {
    let all = seq![path] + without(files, path);
    if all.len() > 10 {
        all.take(10)
    } else {
        all
    }
}

proof fn lemma_without(files: Seq<Seq<char>>, path: Seq<char>)
    ensures
        without(files, path).len() <= files.len(),
        forall|j: int| 0 <= j < without(files, path).len() ==> {
            &&& #[trigger] without(files, path)[j] != path
            &&& files.contains(without(files, path)[j])
        },
    decreases files.len(),
{
    if files.len() > 0 {
        lemma_without(files.drop_last(), path);
        let w = without(files.drop_last(), path);
        assert forall|j: int| 0 <= j < w.len() implies files.contains(#[trigger] w[j]) by {
            let k = choose|k: int| 0 <= k < files.drop_last().len() && files.drop_last()[k] == w[j];
            assert(files[k] == w[j]);
        }
        assert(files[files.len() - 1] == files.last());
    }
}

/// Opening a file puts it first in the recent files, keeps no other copy of
/// it, keeps at most ten entries, and brings in no name but its own.
pub proof fn law_recent_files(files: Seq<Seq<char>>, path: Seq<char>)
    ensures
        recent_after(files, path).len() >= 1,
        recent_after(files, path).len() <= 10,
        recent_after(files, path)[0] == path,
        forall|j: int| 1 <= j < recent_after(files, path).len() ==> {
            &&& #[trigger] recent_after(files, path)[j] != path
            &&& files.contains(recent_after(files, path)[j])
        },
{
    lemma_without(files, path);
    let w = without(files, path);
    let all = seq![path] + w;
    assert forall|j: int| 1 <= j < all.len() implies #[trigger] all[j] != path && files.contains(
        all[j],
    ) by {
        assert(all[j] == w[j - 1]);
    }
}

/// The names of a list of themes.
pub open spec fn theme_names(themes: Seq<Theme>) -> Seq<Seq<char>> {
    Seq::new(themes.len(), |i: int| themes[i].name@)
}

/// The position of an edit mode in the mode menu.
pub open spec fn mode_index(m: EditMode) -> usize {
    match m {
        EditMode::Vim => 0,
        EditMode::Nano => 1,
        EditMode::Emacs => 2,
        EditMode::Aether => 3,
    }
}

/// The title, options and preselected entry of a popup menu, for the
/// current edit mode, AI model choice and theme.
pub open spec fn popup_of(
    menu_type: PopupMenuType,
    mode: EditMode,
    ai_choice: usize,
    theme_index: usize,
    themes: Seq<Theme>,
) -> (Seq<char>, Seq<Seq<char>>, usize) {
    match menu_type {
        PopupMenuType::Mode => (MODE_TITLE@, seq!["Vim"@, "Nano"@, "Emacs"@, "Aether"@], mode_index(mode)),
        PopupMenuType::AiModel => (
            AI_TITLE@,
            seq!["None"@, "Ollama (codellama)"@, "Ollama (llama3)"@, "Ollama (starcoder2)"@],
            ai_choice,
        ),
        PopupMenuType::Theme => (THEME_TITLE@, theme_names(themes), theme_index),
    }
}

/// The popup menu of `menu_type` as the editor `a` opens it.
pub open spec fn popup_for(a: App, menu_type: PopupMenuType, themes: Seq<Theme>) -> (Seq<char>, Seq<Seq<char>>, usize) {
    popup_of(menu_type, a.edit_mode, a.setup_state.ai_model_choice, a.theme_index, themes)
}

pub const MODE_TITLE: &'static str = " \u{f011a} Select Edit Mode ";
pub const AI_TITLE: &'static str = " \u{f06a9} Select AI Model ";
pub const THEME_TITLE: &'static str = " \u{e22b} Select Theme ";

/// The names of `themes`.
pub fn names_of(themes: &Vec<Theme>) -> (r: Vec<String>)
    ensures
        strings(r@) == theme_names(themes@),
{
    let mut r: Vec<String> = Vec::new();
    let mut i: usize = 0;
    while i < themes.len()
        invariant
            i <= themes@.len(),
            r@.len() == i,
            forall|j: int| 0 <= j < i ==> #[trigger] r@[j]@ == themes@[j].name@,
        decreases themes@.len() - i,
    {
        let name = themes[i].name.clone();
        r.push(name);
        i = i + 1;
    }
    assert(strings(r@) =~= theme_names(themes@));
    r
}

/// The title, options and preselected entry of the popup menu of `menu_type`.
fn popup_parts(
    menu_type: PopupMenuType,
    mode: EditMode,
    ai_choice: usize,
    theme_index: usize,
    themes: &Vec<Theme>,
) -> (r: (String, Vec<String>, usize))
    ensures
        ({
            let (title, options, selected) = popup_of(menu_type, mode, ai_choice, theme_index, themes@);
            r.0@ == title && strings(r.1@) == options && r.2 == selected
        }),
{
    match menu_type {
        PopupMenuType::Mode => {
            let mut options: Vec<String> = Vec::new();
            options.push("Vim".to_owned());
            options.push("Nano".to_owned());
            options.push("Emacs".to_owned());
            options.push("Aether".to_owned());
            assert(strings(options@) =~= seq!["Vim"@, "Nano"@, "Emacs"@, "Aether"@]);
            let selected: usize = match mode {
                EditMode::Vim => 0,
                EditMode::Nano => 1,
                EditMode::Emacs => 2,
                EditMode::Aether => 3,
            };
            (MODE_TITLE.to_owned(), options, selected)
        },
        PopupMenuType::AiModel => {
            let mut options: Vec<String> = Vec::new();
            options.push("None".to_owned());
            options.push("Ollama (codellama)".to_owned());
            options.push("Ollama (llama3)".to_owned());
            options.push("Ollama (starcoder2)".to_owned());
            assert(strings(options@) =~= seq![
                "None"@,
                "Ollama (codellama)"@,
                "Ollama (llama3)"@,
                "Ollama (starcoder2)"@,
            ]);
            (AI_TITLE.to_owned(), options, ai_choice)
        },
        PopupMenuType::Theme => (THEME_TITLE.to_owned(), names_of(themes), theme_index),
    }
}

/// `files` without the entries equal to `path`.
fn remove_all(files: &Vec<String>, path: &str) -> (r: Vec<String>)
    ensures
        strings(r@) == without(strings(files@), path@),
{
    let mut r: Vec<String> = Vec::new();
    let mut i: usize = 0;
    while i < files.len()
        invariant
            i <= files@.len(),
            strings(r@) == without(strings(files@).take(i as int), path@),
        decreases files@.len() - i,
    {
        let ghost before = strings(r@);
        assert(strings(files@).take(i + 1).drop_last() =~= strings(files@).take(i as int));
        if !text_eq(files[i].as_str(), path) {
            r.push(files[i].clone());
            assert(strings(r@) =~= before.push(files@[i as int]@));
        }
        i = i + 1;
    }
    assert(strings(files@).take(files@.len() as int) =~= strings(files@));
    r
}

/// The recent-files list after opening `path`.
pub fn recent_with(files: &Vec<String>, path: &str) -> (r: Vec<String>)
    ensures
        strings(r@) == recent_after(strings(files@), path@),
{
    let kept = remove_all(files, path);
    let mut r: Vec<String> = Vec::new();
    r.push(path.to_owned());
    let mut i: usize = 0;
    while i < kept.len()
        invariant
            i <= kept@.len(),
            r@.len() == i + 1,
            r@[0]@ == path@,
            forall|j: int| 0 <= j < i ==> #[trigger] r@[j + 1]@ == kept@[j]@,
        decreases kept@.len() - i,
    {
        let s = kept[i].clone();
        r.push(s);
        i = i + 1;
    }
    assert(strings(r@) =~= seq![path@] + strings(kept@)) by {
        assert forall|j: int| 0 <= j < r@.len() implies strings(r@)[j] == (seq![path@] + strings(kept@))[j] by {
            if j > 0 {
                assert(r@[(j - 1) + 1]@ == kept@[j - 1]@);
            }
        }
    }
    let ghost full = r@;
    if r.len() > 10 {
        r.truncate(10);
        assert(strings(r@) =~= strings(full).take(10));
    }
    r
}

/// `a1` is `a0` with the next theme of `themes` (wrapping around) chosen,
/// stored in the settings and reported.
#[verifier::opaque]
pub open spec fn theme_cycled(a0: App, a1: App, themes: Seq<Theme>) -> bool {
    let i = ((a0.theme_index + 1) % (themes.len() as int)) as usize;
    &&& a1.theme_index == i
    &&& a1.theme == themes[i as int]
    &&& a1.config == (Config { theme_index: i, ..a0.config })
    &&& a1.status_message@ == "Theme: "@ + themes[i as int].name@
    &&& a1 == (App {
        theme_index: i,
        theme: a1.theme,
        config: a1.config,
        status_message: a1.status_message,
        status_fresh: true,
        ..a0
    })
}

/// `a1` is `a0` showing the popup menu of `menu_type`, with the current
/// choice selected.
#[verifier::opaque]
pub open spec fn popup_opened(a0: App, a1: App, menu_type: PopupMenuType, themes: Seq<Theme>) -> bool {
    let (title, options, selected) = popup_for(a0, menu_type, themes);
    &&& a1.active_popup matches Some(p) && p.title@ == title && strings(p.options@) == options
        && p.selected == selected && p.menu_type == menu_type && p.scroll == 0
    &&& a1 == (App { active_popup: a1.active_popup, ..a0 })
}

/// `a1` is `a0` showing the go-to-line prompt with an empty query, when a
/// document is open.
#[verifier::opaque]
pub open spec fn go_to_line_opened(a0: App, a1: App) -> bool {
    if a0.documents@.len() == 0 {
        a1 == a0
    } else {
        &&& a1.go_to_line_query@.len() == 0
        &&& a1 == (App { go_to_line_active: true, go_to_line_query: a1.go_to_line_query, ..a0 })
    }
}

impl App {
    /// The next theme of `themes`, wrapping around; it is stored in the
    /// settings, which are then saved.
    pub fn cycle_theme(&mut self, themes: &Vec<Theme>) -> (e: Effect)
        requires
            themes@.len() > 0,
            old(self).theme_index < usize::MAX,
        ensures
            final(self).wf() == old(self).wf(),
            theme_cycled(*old(self), *final(self), themes@),
            e is SaveConfig,
    {
        let i = (self.theme_index + 1) % themes.len();
        self.theme_index = i;
        self.theme = themes[i].duplicate();
        self.config.theme_index = i;
        let mut m = "Theme: ".to_owned();
        m.append(self.theme.name.as_str());
        self.set_status(m.as_str());
        proof {
            reveal(theme_cycled);
        }
        Effect::SaveConfig
    }

    /// Opens the popup menu of `menu_type` with the current choice selected.
    pub fn open_popup_menu(&mut self, menu_type: PopupMenuType, themes: &Vec<Theme>)
        ensures
            final(self).wf() == old(self).wf(),
            popup_opened(*old(self), *final(self), menu_type, themes@),
    {
        let ghost a0 = *self;
        let (title, options, selected) = popup_parts(
            menu_type,
            self.edit_mode,
            self.setup_state.ai_model_choice,
            self.theme_index,
            themes,
        );
        self.active_popup = Some(PopupMenu { title, options, selected, menu_type, scroll: 0 });
        proof {
            assert(*self == App { active_popup: self.active_popup, ..a0 });
            reveal(popup_opened);
        }
    }

    /// Shows the go-to-line prompt with an empty query, when a document is open.
    pub fn open_go_to_line(&mut self)
        ensures
            final(self).wf() == old(self).wf(),
            go_to_line_opened(*old(self), *final(self)),
    {
        if self.documents.len() > 0 {
            self.go_to_line_active = true;
            self.go_to_line_query = String::new();
        }
        proof {
            reveal(go_to_line_opened);
        }
    }

    /// When `path` is already open, opens its tab, reports it and returns
    /// true; otherwise changes nothing and returns false.
    pub fn switch_to_open(&mut self, path: &str) -> (found: bool)
        requires
            old(self).wf(),
        ensures
            final(self).wf(),
            found == exists|i: int|
                0 <= i < old(self).documents@.len() && path_view(
                    #[trigger] old(self).documents@[i].file_path,
                ) == Some(path@),
            found ==> ({
                let i = final(self).active_tab as int;
                &&& 0 <= i < old(self).documents@.len()
                &&& path_view(old(self).documents@[i].file_path) == Some(path@)
                &&& forall|j: int|
                    0 <= j < i ==> path_view(#[trigger] old(self).documents@[j].file_path) != Some(
                        path@,
                    )
                &&& final(self).status_message@ == "Switched to "@ + path@
                &&& *final(self) == (App {
                    active_tab: final(self).active_tab,
                    status_message: final(self).status_message,
                    status_fresh: true,
                    ..*old(self)
                })
            }),
            !found ==> *final(self) == *old(self),
    {
        let ghost a0 = *self;
        let mut i: usize = 0;
        let mut hit: Option<usize> = None;
        while hit.is_none() && i < self.documents.len()
            invariant
                *self == a0,
                i <= self.documents@.len(),
                hit is None ==> forall|j: int|
                    0 <= j < i ==> path_view(#[trigger] self.documents@[j].file_path) != Some(
                        path@,
                    ),
                hit matches Some(t) ==> {
                    &&& t < self.documents@.len()
                    &&& path_view(self.documents@[t as int].file_path) == Some(path@)
                    &&& forall|j: int|
                        0 <= j < t ==> path_view(#[trigger] self.documents@[j].file_path) != Some(
                            path@,
                        )
                },
            decreases self.documents@.len() - i,
        {
            let same = match &self.documents[i].file_path {
                Some(p) => text_eq(p.as_str(), path),
                None => false,
            };
            if same {
                hit = Some(i);
            }
            i = i + 1;
        }
        match hit {
            Some(t) => {
                self.active_tab = t;
                let mut m = "Switched to ".to_owned();
                m.append(path);
                self.set_status(m.as_str());
                true
            },
            None => false,
        }
    }

    /// Opens the file at `path` read as `content`, or reports the read error:
    /// a new tab with the document, moved to the front of the recent files.
    /// Returns whether the settings changed (and are to be saved).
    pub fn finish_open(&mut self, path: &str, content: Result<&str, &str>) -> (save_config: bool)
        requires
            old(self).wf(),
        ensures
            final(self).wf(),
            save_config == content is Ok,
            match content {
                Ok(text) => {
                    &&& final(self).documents@.len() == old(self).documents@.len() + 1
                    &&& final(self).documents@.drop_last() == old(self).documents@
                    &&& final(self).documents@.last().buffer@.lines == crate::editor::buffer::buffer_lines_of(text@)
                    &&& path_view(final(self).documents@.last().file_path) == Some(path@)
                    &&& !final(self).documents@.last().modified
                    &&& final(self).documents@.last().cursor == crate::editor::cursor::Cursor::new_spec()
                    &&& final(self).documents@.last().file_type@ == crate::editor::document::file_type_of_path(path@)
                    &&& final(self).documents@.last().buffer@.undo.len() == 0
                    &&& final(self).documents@.last().buffer@.redo.len() == 0
                    &&& final(self).active_tab == old(self).documents@.len()
                    &&& final(self).screen == AppScreen::Editor
                    &&& strings(final(self).config.recent_files@) == recent_after(
                        strings(old(self).config.recent_files@),
                        path@,
                    )
                    &&& final(self).status_message@ == "Opened "@ + doc_name(
                        final(self).documents@.last(),
                    )
                    &&& final(self).config == (Config {
                        recent_files: final(self).config.recent_files,
                        ..old(self).config
                    })
                    &&& *final(self) == (App {
                        documents: final(self).documents,
                        active_tab: final(self).active_tab,
                        screen: AppScreen::Editor,
                        config: final(self).config,
                        status_message: final(self).status_message,
                        status_fresh: true,
                        ..*old(self)
                    })
                },
                Err(e) => {
                    &&& final(self).status_message@ == "Error opening file: "@ + e@
                    &&& *final(self) == (App {
                        status_message: final(self).status_message,
                        status_fresh: true,
                        ..*old(self)
                    })
                },
            },
    {
        match content {
            Ok(text) => {
                let doc = Document::opened(path, text);
                let mut m = "Opened ".to_owned();
                m.append(doc.file_name());
                let ghost before = self.documents@;
                self.documents.push(doc);
                assert(self.documents@.drop_last() =~= before);
                self.active_tab = self.documents.len() - 1;
                self.screen = AppScreen::Editor;
                self.set_status(m.as_str());
                let recent = recent_with(&self.config.recent_files, path);
                self.config.recent_files = recent;
                true
            },
            Err(e) => {
                let mut m = "Error opening file: ".to_owned();
                m.append(e);
                self.set_status(m.as_str());
                false
            },
        }
    }

    /// Applies a reply of the assistant: text is added to (or replaces) the
    /// last chat message; a full reply or an error ends the generation.
    pub fn apply_ai_response(&mut self, response: crate::ai::AiResponse)
        ensures
            ai_applied(*old(self), *final(self), response),
    {
        match response {
            crate::ai::AiResponse::Partial(text) => self.append_ai_text(text),
            crate::ai::AiResponse::Full(text) => self.finish_ai_text(text),
            crate::ai::AiResponse::Error(err) => {
                let mut m = "AI Error: ".to_owned();
                m.append(err.as_str());
                self.ai_generating = false;
                self.set_status(m.as_str());
            },
        }
    }

    fn append_ai_text(&mut self, text: String)
        ensures
            ai_applied(*old(self), *final(self), crate::ai::AiResponse::Partial(text)),
    {
        let ghost a0 = *self;
        let mut hist: Vec<AiMessage> = Vec::new();
        std::mem::swap(&mut hist, &mut self.ai_chat_history);
        append_to_last(&mut hist, text.as_str());
        self.ai_chat_history = hist;
        proof {
            assert(*self == App { ai_chat_history: self.ai_chat_history, ..a0 });
        }
    }

    fn finish_ai_text(&mut self, text: String)
        ensures
            ai_applied(*old(self), *final(self), crate::ai::AiResponse::Full(text)),
    {
        let ghost a0 = *self;
        let mut hist: Vec<AiMessage> = Vec::new();
        std::mem::swap(&mut hist, &mut self.ai_chat_history);
        set_last_content(&mut hist, text);
        self.ai_chat_history = hist;
        self.ai_generating = false;
        proof {
            assert(*self == App { ai_chat_history: self.ai_chat_history, ai_generating: false, ..a0 });
        }
    }

    /// Carries out an agent command (none has an action yet).
    pub fn execute_agent_command(&self, command: AgentCommand) {
        match command {
            AgentCommand::Create { .. } => {},
            AgentCommand::Append { .. } => {},
            AgentCommand::Read { .. } => {},
            AgentCommand::Delete { .. } => {},
            AgentCommand::Rename { .. } => {},
            AgentCommand::List { .. } => {},
            AgentCommand::Grep { .. } => {},
            AgentCommand::Shell { .. } => {},
            AgentCommand::Test { .. } => {},
            AgentCommand::Commit { .. } => {},
            AgentCommand::WebFetch { .. } => {},
        }
    }

    /// Runs the pending agent commands, last first, emptying the list.
    pub fn run_pending_commands(&mut self)
        ensures
            final(self).pending_ai_commands@.len() == 0,
            *final(self) == (App { pending_ai_commands: final(self).pending_ai_commands, ..*old(self) }),
    {
        let ghost a0 = *self;
        let mut pending = Vec::new();
        std::mem::swap(&mut pending, &mut self.pending_ai_commands);
        assert(*self == App { pending_ai_commands: self.pending_ai_commands, ..a0 });
        while pending.len() > 0
            decreases pending@.len(),
        {
            let cmd = pending.pop().unwrap();
            self.execute_agent_command(cmd);
        }
    }
}

/// `a1` is `a0` after the assistant's reply `r`: text is added to (or
/// replaces) the last chat message; a full reply or an error ends the
/// generation, and an error is reported.
pub open spec fn ai_applied(a0: App, a1: App, r: crate::ai::AiResponse) -> bool {
    match r {
        crate::ai::AiResponse::Partial(t) => {
            &&& last_content_set(
                a0.ai_chat_history@,
                a1.ai_chat_history@,
                a0.ai_chat_history@.last().content@ + t@,
            )
            &&& a1 == (App { ai_chat_history: a1.ai_chat_history, ..a0 })
        },
        crate::ai::AiResponse::Full(t) => {
            &&& last_content_set(a0.ai_chat_history@, a1.ai_chat_history@, t@)
            &&& a1 == (App { ai_chat_history: a1.ai_chat_history, ai_generating: false, ..a0 })
        },
        crate::ai::AiResponse::Error(e) => {
            &&& a1.status_message@ == "AI Error: "@ + e@
            &&& a1 == (App {
                status_message: a1.status_message,
                status_fresh: true,
                ai_generating: false,
                ..a0
            })
        },
    }
}

/// `h1` is `h0` with the content of its last message replaced by `content`
/// (and `h0` itself when it is empty).
pub open spec fn last_content_set(h0: Seq<AiMessage>, h1: Seq<AiMessage>, content: Seq<char>) -> bool {
    if h0.len() == 0 {
        h1 == h0
    } else {
        &&& h1.len() == h0.len()
        &&& h1.drop_last() == h0.drop_last()
        &&& h1.last().role == h0.last().role
        &&& h1.last().content@ == content
    }
}

/// Replaces the content of the last message, when there is one.
fn set_last_content(hist: &mut Vec<AiMessage>, content: String)
    ensures
        last_content_set(old(hist)@, final(hist)@, content@),
{
    let n = hist.len();
    if n > 0 {
        let role = hist[n - 1].role.clone();
        hist.set(n - 1, AiMessage { role, content });
        assert(hist@.drop_last() =~= old(hist)@.drop_last());
    }
}

/// Adds `text` to the content of the last message, when there is one.
fn append_to_last(hist: &mut Vec<AiMessage>, text: &str)
    ensures
        last_content_set(old(hist)@, final(hist)@, old(hist)@.last().content@ + text@),
{
    let n = hist.len();
    if n > 0 {
        let mut c = hist[n - 1].content.clone();
        c.append(text);
        set_last_content(hist, c);
    }
}

/// An equal copy of a list of strings.
pub fn copy_strings(v: &Vec<String>) -> (r: Vec<String>)
    ensures
        strings(r@) == strings(v@),
        r@ == v@,
{
    let mut r: Vec<String> = Vec::new();
    let mut i: usize = 0;
    while i < v.len()
        invariant
            i <= v@.len(),
            r@ == v@.take(i as int),
        decreases v@.len() - i,
    {
        r.push(v[i].clone());
        assert(r@ =~= v@.take(i + 1));
        i = i + 1;
    }
    assert(v@.take(v@.len() as int) =~= v@);
    r
}

impl App {
    /// The editor on the setup wizard (`new`, then the setup screen).
    pub fn new_with_setup(config: Config, themes: &Vec<Theme>, picker: FilePickerState) -> (a: Self)
        requires
            config.theme_index < themes@.len(),
        ensures
            a.wf(),
            a.screen == AppScreen::Setup,
            fresh_app(App { screen: AppScreen::Welcome, ..a }, config, themes@, picker),
            a.documents@.len() == 0,
            a.edit_mode == mode_named(config.edit_mode@),
            a.theme == themes@[config.theme_index as int],
            a.theme_index == config.theme_index,
            strings(a.welcome_state.recent_files@) == strings(config.recent_files@),
            a.config == config,
            a.focus == AppFocus::Editor,
            a.vim_mode == VimSubMode::Normal,
            !a.should_quit,
    {
        let mut app = App::new(config, themes, picker);
        app.screen = AppScreen::Setup;
        app
    }

    /// The editor with the file at `path`, read as `content`, open (or the
    /// read error reported), on the editor screen.
    pub fn new_with_file(
        config: Config,
        themes: &Vec<Theme>,
        picker: FilePickerState,
        path: &str,
        content: Result<&str, &str>,
    ) -> (a: Self)
        requires
            config.theme_index < themes@.len(),
        ensures
            a.wf(),
            a.screen == AppScreen::Editor,
            a.edit_mode == mode_named(config.edit_mode@),
            a.theme == themes@[config.theme_index as int],
            match content {
                Ok(text) => {
                    &&& a.documents@.len() == 1
                    &&& a.active_tab == 0
                    &&& a.documents@[0].buffer@.lines == crate::editor::buffer::buffer_lines_of(text@)
                    &&& path_view(a.documents@[0].file_path) == Some(path@)
                    &&& !a.documents@[0].modified
                    &&& a.documents@[0].cursor == crate::editor::cursor::Cursor::new_spec()
                    &&& a.documents@[0].file_type@ == crate::editor::document::file_type_of_path(path@)
                    &&& strings(a.config.recent_files@) == recent_after(strings(config.recent_files@), path@)
                    &&& a.status_message@ == "Opened "@ + doc_name(a.documents@[0])
                },
                Err(e) => {
                    &&& a.documents@.len() == 0
                    &&& a.config == config
                    &&& a.status_message@ == "Error opening file: "@ + e@
                },
            },
    {
        let mut app = App::new(config, themes, picker);
        let found = app.switch_to_open(path);
        if !found {
            app.finish_open(path, content);
        }
        app.screen = AppScreen::Editor;
        app
    }
}

} // verus!
