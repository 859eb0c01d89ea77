use aether::app::lists::{FilePickerEntry, FilePickerState};
use aether::app::{recent_with, App, AppFocus, AppScreen, EditMode, Effect, KeyCode, KeyEvent, PopupMenuType, VimSubMode};
use aether::ai::AiMessage;
use aether::app::chat_view::{wrap_text, ChatLineKind};
use aether::config::Config;
use aether::theme::Theme;

fn key(code: KeyCode) -> KeyEvent {
    KeyEvent { code, ctrl: false, alt: false }
}

fn ctrl(c: char) -> KeyEvent {
    KeyEvent { code: KeyCode::Char(c), ctrl: true, alt: false }
}

fn alt(c: char) -> KeyEvent {
    KeyEvent { code: KeyCode::Char(c), ctrl: false, alt: true }
}

fn app_in(mode: &str) -> (App, Vec<Theme>) {
    let mut config = Config::with_username("tester".to_string());
    config.edit_mode = mode.to_string();
    let themes = Theme::builtins();
    let picker = FilePickerState::with_entries("/tmp".to_string(), Vec::new());
    (App::new(config, &themes, picker), themes)
}

fn press(app: &mut App, themes: &Vec<Theme>, k: KeyEvent) -> Vec<Effect> {
    app.handle_key(k, themes)
}

fn type_text(app: &mut App, themes: &Vec<Theme>, s: &str) {
    for c in s.chars() {
        press(app, themes, key(KeyCode::Char(c)));
    }
}

fn text(app: &App) -> String {
    app.documents[app.active_tab].buffer.to_string()
}

#[test]
fn a_new_app_shows_the_welcome_screen() {
    let (app, _) = app_in("vim");
    assert_eq!(app.screen, AppScreen::Welcome);
    assert_eq!(app.edit_mode, EditMode::Vim);
    assert!(app.documents.is_empty());
}

#[test]
fn welcome_n_opens_a_new_file() {
    let (mut app, themes) = app_in("aether");
    press(&mut app, &themes, key(KeyCode::Char('n')));
    assert_eq!(app.screen, AppScreen::Editor);
    assert_eq!(app.documents.len(), 1);
    assert_eq!(app.status_message, "New file created");
}

#[test]
fn welcome_enter_runs_the_selected_entry() {
    let (mut app, themes) = app_in("aether");
    press(&mut app, &themes, key(KeyCode::Down));
    press(&mut app, &themes, key(KeyCode::Down));
    assert_eq!(app.welcome_state.selected_option, 2);
    press(&mut app, &themes, key(KeyCode::Enter));
    assert_eq!(app.screen, AppScreen::Controls);
    press(&mut app, &themes, key(KeyCode::Char('x')));
    assert_eq!(app.screen, AppScreen::Welcome);
}

#[test]
fn welcome_enter_on_a_recent_file_asks_to_open_it() {
    let mut config = Config::with_username("tester".to_string());
    config.auto_update = false;
    config.recent_files = vec!["/tmp/a.txt".to_string()];
    let themes = Theme::builtins();
    let picker = FilePickerState::with_entries("/tmp".to_string(), Vec::new());
    let mut app = App::new(config, &themes, picker);
    app.welcome_state.selected_option = 6;
    let effects = press(&mut app, &themes, key(KeyCode::Enter));
    assert_eq!(effects.len(), 1);
    assert!(matches!(&effects[0], Effect::OpenFile(p) if p == "/tmp/a.txt"));
    // Option 5 is quit when updates are off.
    app.welcome_state.selected_option = 5;
    press(&mut app, &themes, key(KeyCode::Enter));
    assert!(app.should_quit);
}

#[test]
fn vim_insert_mode_types_text() {
    let (mut app, themes) = app_in("vim");
    app.new_file();
    type_text(&mut app, &themes, "ihello");
    assert_eq!(app.vim_mode, VimSubMode::Insert);
    assert_eq!(text(&app), "hello");
    press(&mut app, &themes, key(KeyCode::Esc));
    assert_eq!(app.vim_mode, VimSubMode::Normal);
    press(&mut app, &themes, key(KeyCode::Char('0')));
    press(&mut app, &themes, key(KeyCode::Char('x')));
    assert_eq!(text(&app), "ello");
    press(&mut app, &themes, key(KeyCode::Char('u')));
    assert_eq!(text(&app), "hello");
}

#[test]
fn vim_tab_types_four_spaces() {
    let (mut app, themes) = app_in("vim");
    app.new_file();
    press(&mut app, &themes, key(KeyCode::Char('i')));
    press(&mut app, &themes, key(KeyCode::Tab));
    assert_eq!(text(&app), "    ");
    assert_eq!(app.documents[0].cursor.col, 4);
}

#[test]
fn vim_o_opens_a_line_below() {
    let (mut app, themes) = app_in("vim");
    app.new_file();
    type_text(&mut app, &themes, "iab");
    press(&mut app, &themes, key(KeyCode::Esc));
    press(&mut app, &themes, key(KeyCode::Char('o')));
    assert_eq!(app.vim_mode, VimSubMode::Insert);
    type_text(&mut app, &themes, "c");
    assert_eq!(text(&app), "ab\nc");
}

#[test]
fn vim_quit_refuses_unsaved_changes() {
    let (mut app, themes) = app_in("vim");
    app.new_file();
    type_text(&mut app, &themes, "ix");
    press(&mut app, &themes, key(KeyCode::Esc));
    type_text(&mut app, &themes, ":q");
    assert_eq!(app.vim_mode, VimSubMode::Command);
    press(&mut app, &themes, key(KeyCode::Enter));
    assert_eq!(app.documents.len(), 1);
    assert!(app.status_message.starts_with("Unsaved changes!"));
    assert_eq!(app.vim_mode, VimSubMode::Normal);
    assert!(app.vim_command_buffer.is_empty());
    type_text(&mut app, &themes, ":q!");
    press(&mut app, &themes, key(KeyCode::Enter));
    assert!(app.documents.is_empty());
    assert!(app.should_quit);
}

#[test]
fn vim_write_needs_a_path() {
    let (mut app, themes) = app_in("vim");
    app.new_file();
    type_text(&mut app, &themes, ":w");
    let effects = press(&mut app, &themes, key(KeyCode::Enter));
    assert!(effects.is_empty());
    assert_eq!(app.status_message, "Error saving: No file path set");
    type_text(&mut app, &themes, ":w  /tmp/out.txt ");
    let effects = press(&mut app, &themes, key(KeyCode::Enter));
    assert_eq!(effects.len(), 1);
    match &effects[0] {
        Effect::Write(r) => {
            assert_eq!(r.path, "/tmp/out.txt");
            assert_eq!(r.tab, Some(0));
            assert_eq!(r.contents, "");
            assert_eq!(r.name, "out.txt");
            assert!(r.report);
        }
        _ => panic!("expected a write"),
    }
    assert_eq!(app.documents[0].file_path.as_deref(), Some("/tmp/out.txt"));
}

#[test]
fn vim_write_quit_untied_from_the_closed_tab() {
    let (mut app, themes) = app_in("vim");
    app.new_file();
    app.documents[0].file_path = Some("/tmp/x.txt".to_string());
    type_text(&mut app, &themes, ":wq");
    let effects = press(&mut app, &themes, key(KeyCode::Enter));
    assert!(app.documents.is_empty());
    assert!(app.should_quit);
    assert!(matches!(&effects[0], Effect::Write(r) if r.tab.is_none() && r.path == "/tmp/x.txt"));
}

#[test]
fn vim_edit_command_asks_to_open() {
    let (mut app, themes) = app_in("vim");
    app.new_file();
    type_text(&mut app, &themes, ":e  notes.md ");
    let effects = press(&mut app, &themes, key(KeyCode::Enter));
    assert!(matches!(&effects[0], Effect::OpenFile(p) if p == "notes.md"));
    type_text(&mut app, &themes, ":zz");
    press(&mut app, &themes, key(KeyCode::Enter));
    assert_eq!(app.status_message, "Unknown command: :zz");
}

#[test]
fn vim_backspace_leaves_an_emptied_command_line() {
    let (mut app, themes) = app_in("vim");
    app.new_file();
    type_text(&mut app, &themes, ":wq");
    press(&mut app, &themes, key(KeyCode::Backspace));
    assert_eq!(app.vim_command_buffer, "w");
    assert_eq!(app.vim_mode, VimSubMode::Command);
    press(&mut app, &themes, key(KeyCode::Backspace));
    assert_eq!(app.vim_mode, VimSubMode::Normal);
}

#[test]
fn aether_mode_pairs_brackets_and_keeps_indentation() {
    let (mut app, themes) = app_in("aether");
    app.new_file();
    type_text(&mut app, &themes, "  f(");
    assert_eq!(text(&app), "  f()");
    assert_eq!(app.documents[0].cursor.col, 4);
    press(&mut app, &themes, key(KeyCode::Enter));
    assert_eq!(text(&app), "  f(\n  )");
    assert_eq!((app.documents[0].cursor.row, app.documents[0].cursor.col), (1, 2));
    press(&mut app, &themes, alt('d'));
    assert_eq!(text(&app), "  f(");
}

#[test]
fn nano_mode_types_plainly() {
    let (mut app, themes) = app_in("nano");
    app.new_file();
    type_text(&mut app, &themes, "(a");
    assert_eq!(text(&app), "(a");
    press(&mut app, &themes, key(KeyCode::Home));
    assert_eq!(app.documents[0].cursor.col, 0);
    press(&mut app, &themes, key(KeyCode::End));
    assert_eq!(app.documents[0].cursor.col, 2);
}

#[test]
fn search_mode_moves_to_the_match() {
    let (mut app, themes) = app_in("nano");
    app.new_file();
    type_text(&mut app, &themes, "one two");
    press(&mut app, &themes, key(KeyCode::Home));
    press(&mut app, &themes, ctrl('f'));
    assert!(app.searching);
    type_text(&mut app, &themes, "two");
    press(&mut app, &themes, key(KeyCode::Enter));
    assert_eq!(app.documents[0].cursor.col, 4);
    press(&mut app, &themes, key(KeyCode::Esc));
    assert!(!app.searching);
}

#[test]
fn ctrl_s_asks_to_write_and_finish_save_reports() {
    let (mut app, themes) = app_in("nano");
    app.new_file();
    app.documents[0].file_path = Some("/tmp/s.txt".to_string());
    type_text(&mut app, &themes, "z");
    let effects = press(&mut app, &themes, ctrl('s'));
    let req = match effects.into_iter().next() {
        Some(Effect::Write(r)) => r,
        _ => panic!("expected a write"),
    };
    assert_eq!(req.contents, "z");
    app.finish_save(&req, None);
    assert!(!app.documents[0].modified);
    assert_eq!(app.status_message, "Saved s.txt");
    app.finish_save(&req, Some("denied"));
    assert_eq!(app.status_message, "Error saving: denied");
}

#[test]
fn f5_cycles_the_theme() {
    let (mut app, themes) = app_in("aether");
    app.new_file();
    let effects = press(&mut app, &themes, key(KeyCode::F(5)));
    assert!(matches!(effects[0], Effect::SaveConfig));
    assert_eq!(app.theme_index, 1);
    assert_eq!(app.config.theme_index, 1);
    assert_eq!(app.status_message, format!("Theme: {}", themes[1].name));
}

#[test]
fn popup_menus_choose_and_store() {
    let (mut app, themes) = app_in("aether");
    app.new_file();
    press(&mut app, &themes, alt('m'));
    {
        let p = app.active_popup.as_ref().unwrap();
        assert_eq!(p.menu_type, PopupMenuType::Mode);
        assert_eq!(p.selected, 3);
    }
    press(&mut app, &themes, key(KeyCode::Down));
    assert_eq!(app.active_popup.as_ref().unwrap().selected, 0);
    press(&mut app, &themes, key(KeyCode::Up));
    press(&mut app, &themes, key(KeyCode::Up));
    assert_eq!(app.active_popup.as_ref().unwrap().selected, 2);
    let effects = press(&mut app, &themes, key(KeyCode::Enter));
    assert!(matches!(effects[0], Effect::SaveConfig));
    assert!(app.active_popup.is_none());
    assert_eq!(app.edit_mode, EditMode::Aether);
    assert_eq!(app.config.edit_mode, "emacs");
    assert_eq!(app.status_message, "Switched to Emacs mode");
}

#[test]
fn theme_popup_applies_the_theme() {
    let (mut app, themes) = app_in("aether");
    app.new_file();
    press(&mut app, &themes, alt('t'));
    press(&mut app, &themes, key(KeyCode::Down));
    press(&mut app, &themes, key(KeyCode::Enter));
    assert_eq!(app.theme_index, 1);
    assert_eq!(app.theme.name, themes[1].name);
    assert_eq!(app.status_message, format!("Theme: {}", themes[1].name));
}

#[test]
fn command_palette_filters_and_runs() {
    let (mut app, themes) = app_in("aether");
    app.new_file();
    app.open_palette();
    assert_eq!(app.screen, AppScreen::CommandPalette);
    assert_eq!(app.command_palette.filtered.len(), 20);
    type_text(&mut app, &themes, "wordwrap");
    assert!(!app.command_palette.filtered.is_empty());
    assert_eq!(app.command_palette.filtered[0], 9);
    let before = app.word_wrap;
    press(&mut app, &themes, key(KeyCode::Enter));
    assert_eq!(app.word_wrap, !before);
    assert_eq!(app.screen, AppScreen::Editor);
}

#[test]
fn palette_commands_by_number() {
    let (mut app, themes) = app_in("aether");
    app.new_file();
    app.execute_palette_command(0, &themes);
    assert!(app.show_ai_sidebar);
    assert_eq!(app.focus, AppFocus::AiPrompt);
    let effects = app.execute_palette_command(13, &themes);
    assert!(app.file_picker_active);
    assert!(matches!(effects[0], Effect::RefreshFilePicker));
    let effects = app.execute_palette_command(18, &themes);
    assert_eq!(app.screen, AppScreen::Updater);
    assert_eq!(app.updater_status, "Starting update check...");
    assert!(matches!(effects[0], Effect::StartUpdater));
    let effects = app.execute_palette_command(15, &themes);
    assert!(matches!(&effects[0], Effect::Write(r) if r.path == "[untitled].copy" && !r.report));
    assert_eq!(app.status_message, "Saved copy via save_as");
}

#[test]
fn go_to_line_moves_the_cursor() {
    let (mut app, themes) = app_in("nano");
    app.new_file();
    type_text(&mut app, &themes, "a");
    press(&mut app, &themes, key(KeyCode::Enter));
    type_text(&mut app, &themes, "b");
    press(&mut app, &themes, key(KeyCode::Enter));
    type_text(&mut app, &themes, "c");
    press(&mut app, &themes, ctrl('g'));
    assert!(app.go_to_line_active);
    type_text(&mut app, &themes, "2x");
    assert_eq!(app.go_to_line_query, "2");
    press(&mut app, &themes, key(KeyCode::Enter));
    assert!(!app.go_to_line_active);
    assert_eq!((app.documents[0].cursor.row, app.documents[0].cursor.col), (1, 0));
    press(&mut app, &themes, ctrl('g'));
    type_text(&mut app, &themes, "99");
    press(&mut app, &themes, key(KeyCode::Enter));
    assert_eq!(app.documents[0].cursor.row, 2);
}

#[test]
fn file_picker_enters_directories_and_opens_files() {
    let (mut app, themes) = app_in("aether");
    app.new_file();
    let entries = vec![
        FilePickerEntry { name: "src".to_string(), _path: "/tmp/p/src".to_string(), is_dir: true, size: 0 },
        FilePickerEntry { name: "main.rs".to_string(), _path: "/tmp/p/main.rs".to_string(), is_dir: false, size: 10 },
    ];
    app.file_picker_state = FilePickerState::with_entries("/tmp/p".to_string(), entries);
    app.file_picker_active = true;
    type_text(&mut app, &themes, "MAIN");
    assert_eq!(app.file_picker_state.filtered_entries, vec![1]);
    let effects = press(&mut app, &themes, key(KeyCode::Enter));
    assert!(matches!(&effects[0], Effect::OpenFile(p) if p == "/tmp/p/main.rs"));
    assert!(!app.file_picker_active);
    app.file_picker_active = true;
    for _ in 0..4 {
        press(&mut app, &themes, key(KeyCode::Backspace));
    }
    assert_eq!(app.file_picker_state.filtered_entries, vec![0, 1]);
    let effects = press(&mut app, &themes, key(KeyCode::Enter));
    assert!(matches!(effects[0], Effect::RefreshFilePicker));
    assert_eq!(app.file_picker_state.current_dir, "/tmp/p/src");
    let effects = press(&mut app, &themes, key(KeyCode::Backspace));
    assert!(matches!(effects[0], Effect::RefreshFilePicker));
    assert_eq!(app.file_picker_state.current_dir, "/tmp/p");
    app.file_picker_state = FilePickerState::with_entries("/".to_string(), Vec::new());
    let effects = press(&mut app, &themes, key(KeyCode::Backspace));
    assert!(effects.is_empty());
    assert_eq!(app.file_picker_state.current_dir, "/");
    app.file_picker_state = FilePickerState::with_entries("notes".to_string(), Vec::new());
    press(&mut app, &themes, key(KeyCode::Backspace));
    assert_eq!(app.file_picker_state.current_dir, "");
}

#[test]
fn ai_prompt_is_sent_once() {
    let (mut app, themes) = app_in("aether");
    app.new_file();
    app.show_ai_sidebar = true;
    app.focus = AppFocus::AiPrompt;
    type_text(&mut app, &themes, "hi");
    let effects = press(&mut app, &themes, key(KeyCode::Enter));
    assert!(matches!(effects[0], Effect::StartAiChat));
    assert_eq!(app.ai_chat_history.len(), 2);
    assert_eq!(app.ai_chat_history[0].content, "hi");
    assert_eq!(app.ai_chat_history[1].role, "assistant");
    assert!(app.ai_generating);
    type_text(&mut app, &themes, "again");
    assert!(press(&mut app, &themes, key(KeyCode::Enter)).is_empty());
    app.apply_ai_response(aether::ai::AiResponse::Partial("Hel".to_string()));
    app.apply_ai_response(aether::ai::AiResponse::Partial("lo".to_string()));
    assert_eq!(app.ai_chat_history[1].content, "Hello");
    app.apply_ai_response(aether::ai::AiResponse::Full("Done".to_string()));
    assert_eq!(app.ai_chat_history[1].content, "Done");
    assert!(!app.ai_generating);
    press(&mut app, &themes, key(KeyCode::Esc));
    assert!(!app.show_ai_sidebar);
    assert_eq!(app.focus, AppFocus::Editor);
}

#[test]
fn global_tab_shortcuts() {
    let (mut app, themes) = app_in("aether");
    app.new_file();
    app.new_file();
    app.new_file();
    assert_eq!(app.active_tab, 2);
    press(&mut app, &themes, alt('1'));
    assert_eq!(app.active_tab, 0);
    press(&mut app, &themes, KeyEvent { code: KeyCode::Left, ctrl: false, alt: true });
    assert_eq!(app.active_tab, 2);
    press(&mut app, &themes, KeyEvent { code: KeyCode::Tab, ctrl: true, alt: false });
    assert_eq!(app.active_tab, 0);
    press(&mut app, &themes, ctrl('9'));
    assert_eq!(app.active_tab, 0);
    press(&mut app, &themes, ctrl('x'));
    assert_eq!(app.documents.len(), 2);
    press(&mut app, &themes, ctrl('p'));
    assert_eq!(app.screen, AppScreen::CommandPalette);
}

#[test]
fn closing_the_last_tab_shows_the_welcome_screen() {
    let (mut app, _) = app_in("aether");
    app.new_file();
    app.close_current_tab();
    assert!(app.documents.is_empty());
    assert_eq!(app.screen, AppScreen::Welcome);
}

#[test]
fn setup_wizard_stores_the_choices() {
    let (mut app, themes) = app_in("aether");
    app.setup_state = aether::app::SetupState::for_user("me".to_string());
    app.screen = AppScreen::Setup;
    press(&mut app, &themes, key(KeyCode::Char('!')));
    assert_eq!(app.setup_state.username, "me!");
    press(&mut app, &themes, key(KeyCode::Enter));
    assert_eq!(app.setup_state.step, 1);
    assert_eq!(app.config.username, "me!");
    press(&mut app, &themes, key(KeyCode::Up));
    assert_eq!(app.setup_state.selected_theme, 10);
    press(&mut app, &themes, key(KeyCode::Enter));
    press(&mut app, &themes, key(KeyCode::Down));
    assert_eq!(app.setup_state.selected_mode, 0);
    press(&mut app, &themes, key(KeyCode::Enter));
    press(&mut app, &themes, key(KeyCode::Enter));
    let effects = press(&mut app, &themes, key(KeyCode::Enter));
    assert!(matches!(effects[0], Effect::SaveConfig));
    assert_eq!(app.screen, AppScreen::Welcome);
    assert_eq!(app.theme_index, 10);
    assert_eq!(app.edit_mode, EditMode::Vim);
    assert_eq!(app.config.edit_mode, "vim");
    assert!(!app.config.first_run);
}

#[test]
fn opening_a_file_updates_the_recent_list() {
    let (mut app, _) = app_in("aether");
    app.config.recent_files = vec!["/b".to_string(), "/a".to_string()];
    assert!(!app.switch_to_open("/a"));
    assert!(app.finish_open("/a", Ok("x\ny")));
    assert_eq!(app.config.recent_files, vec!["/a".to_string(), "/b".to_string()]);
    assert_eq!(app.screen, AppScreen::Editor);
    assert_eq!(app.documents[0].line_count(), 2);
    assert_eq!(app.status_message, "Opened a");
    app.new_file();
    assert!(app.switch_to_open("/a"));
    assert_eq!(app.active_tab, 0);
    assert_eq!(app.status_message, "Switched to /a");
    assert!(!app.finish_open("/c", Err("missing")));
    assert_eq!(app.status_message, "Error opening file: missing");
}

#[test]
fn recent_files_keep_ten_entries_with_the_newest_first() {
    let files: Vec<String> = (0..12).map(|i| format!("/f{}", i)).collect();
    let r = recent_with(&files, "/f5");
    assert_eq!(r.len(), 10);
    assert_eq!(r[0], "/f5");
    assert_eq!(r.iter().filter(|f| f.as_str() == "/f5").count(), 1);
    assert_eq!(r[1], "/f0");
    assert_eq!(r[5], "/f4");
    assert_eq!(r[6], "/f6");
    assert_eq!(r[9], "/f9");
    let r = recent_with(&Vec::new(), "/x");
    assert_eq!(r, vec!["/x".to_string()]);
}

#[test]
fn the_status_bar_shows_mode_file_and_position() {
    let (mut app, themes) = app_in("vim");
    let bar = app.status_bar(80);
    assert_eq!(bar.mode, " NORMAL ");
    assert_eq!(bar.middle, " No file ");
    assert!(!bar.shows_message);
    assert_eq!(bar.right, "");
    assert_eq!(bar.padding, 80 - 8 - 9);
    press(&mut app, &themes, key(KeyCode::Char('n')));
    app.status_message.clear();
    press(&mut app, &themes, key(KeyCode::Char('i')));
    type_text(&mut app, &themes, "hello");
    press(&mut app, &themes, key(KeyCode::Enter));
    type_text(&mut app, &themes, "world and more words here");
    app.status_message.clear();
    let bar = app.status_bar(20);
    assert_eq!(bar.mode, " INSERT ");
    assert_eq!(bar.middle, " [untitled] [+] ");
    assert_eq!(bar.right, " Ln 2, Col 26 │ Plain Text │ UTF-8 ");
    assert_eq!(bar.padding, 0);
    press(&mut app, &themes, key(KeyCode::Esc));
    type_text(&mut app, &themes, ":wq");
    let bar = app.status_bar(200);
    assert_eq!(bar.mode, " COMMAND ");
    assert_eq!(bar.command, " :wq");
    let used = bar.mode.len() + bar.command.len() + bar.middle.len() + bar.right.len();
    assert_eq!(bar.padding, 200 - used);
    app.status_message = "Saved".to_string();
    let bar = app.status_bar(200);
    assert!(bar.shows_message);
    assert_eq!(bar.middle, " Saved ");
}

#[test]
fn keys_that_would_cut_a_character_are_refused() {
    let (mut app, themes) = app_in("nano");
    press(&mut app, &themes, key(KeyCode::Char('n')));
    assert!(app.key_allowed(key(KeyCode::Char('a')), &themes));
    press(&mut app, &themes, key(KeyCode::Char('é')));
    assert_eq!(app.documents[0].cursor.col, 1);
    assert!(!app.key_allowed(key(KeyCode::Char('a')), &themes));
    assert!(!app.key_allowed(key(KeyCode::Enter), &themes));
    assert!(app.key_allowed(key(KeyCode::Backspace), &themes));
    assert!(!app.key_allowed(key(KeyCode::Delete), &themes));
    assert!(app.key_allowed(key(KeyCode::Left), &themes));
    assert!(app.key_allowed(ctrl('s'), &themes));
    press(&mut app, &themes, key(KeyCode::Left));
    assert!(app.key_allowed(key(KeyCode::Char('a')), &themes));
    assert!(app.key_allowed(key(KeyCode::Delete), &themes));
}

#[test]
fn tab_labels_mark_unsaved_documents() {
    let (mut app, themes) = app_in("nano");
    assert!(app.tab_labels().is_empty());
    press(&mut app, &themes, key(KeyCode::Char('n')));
    assert!(app.finish_open("/tmp/a.rs", Ok("fn main() {}")));
    assert_eq!(app.tab_labels(), vec![" [untitled] ".to_string(), " a.rs ".to_string()]);
    type_text(&mut app, &themes, "x");
    assert_eq!(app.tab_labels()[1], " a.rs ● ");
}

#[test]
fn starting_on_setup_or_with_a_file() {
    let mut config = Config::with_username("tester".to_string());
    config.edit_mode = "vim".to_string();
    let themes = Theme::builtins();
    let picker = FilePickerState::with_entries("/tmp".to_string(), Vec::new());
    let app = App::new_with_setup(config.clone(), &themes, picker.clone());
    assert_eq!(app.screen, AppScreen::Setup);
    assert_eq!(app.edit_mode, EditMode::Vim);
    let app = App::new_with_file(config.clone(), &themes, picker.clone(), "/w/notes.txt", Ok("a\nb"));
    assert_eq!(app.screen, AppScreen::Editor);
    assert_eq!(app.documents.len(), 1);
    assert_eq!(app.documents[0].line_count(), 2);
    assert_eq!(app.status_message, "Opened notes.txt");
    assert_eq!(app.config.recent_files, vec!["/w/notes.txt".to_string()]);
    let app = App::new_with_file(config, &themes, picker, "/w/gone.txt", Err("not found"));
    assert_eq!(app.screen, AppScreen::Editor);
    assert!(app.documents.is_empty());
    assert_eq!(app.status_message, "Error opening file: not found");
}

#[test]
fn an_opened_file_starts_unmodified_at_the_top() {
    let (mut app, themes) = app_in("nano");
    press(&mut app, &themes, key(KeyCode::Char('n')));
    type_text(&mut app, &themes, "x");
    assert!(app.finish_open("/w/main.rs", Ok("fn main() {}\n")));
    let d = &app.documents[1];
    assert!(!d.modified);
    assert_eq!((d.cursor.row, d.cursor.col), (0, 0));
    assert_eq!(d.file_type, "Rust");
    assert!(app.documents[0].modified);
}

#[test]
fn scripts_read_lines_and_insert_text() {
    let (mut app, themes) = app_in("nano");
    assert_eq!(app.line_for_script(None), "");
    assert!(app.text_fits("anything é"));
    app.insert_text("ignored");
    assert!(app.documents.is_empty());
    press(&mut app, &themes, key(KeyCode::Char('n')));
    type_text(&mut app, &themes, "ab");
    press(&mut app, &themes, key(KeyCode::Enter));
    type_text(&mut app, &themes, "cd");
    assert_eq!(app.line_for_script(None), "cd");
    assert_eq!(app.line_for_script(Some(0)), "ab");
    assert_eq!(app.line_for_script(Some(7)), "");
    assert!(app.text_fits("xy"));
    app.insert_text("xy");
    assert_eq!(app.line_for_script(None), "cdxy");
    assert!(app.text_fits("zé"));
    assert!(!app.text_fits("éz"));
    app.insert_text("zé");
    assert_eq!(app.line_for_script(None), "cdxyzé");
    assert!(!app.text_fits("q"));
}

#[test]
fn scripts_type_past_the_end_of_a_line() {
    let (mut app, themes) = app_in("nano");
    press(&mut app, &themes, key(KeyCode::Char('n')));
    type_text(&mut app, &themes, "cdé");
    let t = app.active_tab;
    app.documents[t].cursor.col = 5;
    assert!(app.text_fits("éz"));
    assert!(!app.text_fits("ééz"));
    assert!(app.text_fits("éé"));
    app.documents[t].cursor.col = 20;
    assert!(app.text_fits("ééz"));
    app.insert_text("ééz");
    assert_eq!(app.line_for_script(None), "cdéééz");
    assert_eq!(app.documents[t].cursor.col, 23);
    app.documents[t].cursor.col = usize::MAX - 1;
    assert!(app.text_fits("a"));
    assert!(!app.text_fits("ab"));
}

#[test]
fn the_chat_is_wrapped_to_the_sidebar() {
    let (mut app, _) = app_in("nano");
    assert!(app.chat_lines(30).is_empty());
    app.ai_chat_history = vec![
        AiMessage { role: "user".to_string(), content: "hello there  world".to_string() },
        AiMessage { role: "assistant".to_string(), content: String::new() },
    ];
    app.ai_generating = true;
    let lines = app.chat_lines(18);
    let texts: Vec<&str> = lines.iter().map(|l| l.text.as_str()).collect();
    assert_eq!(texts, vec![" You ", "  hello there", "  world", "", " AI ", "", "  Thinking..."]);
    assert_eq!(lines[0].kind, ChatLineKind::UserTitle);
    assert_eq!(lines[4].kind, ChatLineKind::AiTitle);
    assert_eq!(lines[6].kind, ChatLineKind::Thinking);
    app.ai_chat_history[1].content = "ok".to_string();
    assert_eq!(app.chat_lines(18).len(), 7);
    assert_eq!(wrap_text("a b", 0), vec!["  a b".to_string()]);
    assert_eq!(wrap_text("a\nb", 0), vec!["  a".to_string(), "  b".to_string()]);
    assert_eq!(wrap_text("toolongword x", 5), vec!["  ".to_string(), "  toolongword".to_string(), "  x".to_string()]);
}
