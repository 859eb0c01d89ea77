//! Whether a key can be handled: the handlers cut no character in two and
//! let no counter overflow, and these checks tell beforehand which keys
//! they are defined for.
use vstd::prelude::*;
use crate::app::input::{
    aether_op, alt_popup, closing, ctrl_shortcut, four_spaces, nano_op, op_ok, seq_ok_at,
    vim_insert_op, vim_normal_op, DocOp,
};
use crate::app::keys::{digit_tab_of, key_ok};
use crate::app::{App, AppFocus, AppScreen, EditMode, KeyCode, KeyEvent, PopupMenuType, VimSubMode};
use crate::editor::buffer::{lines_split, insert_char_ok};
use crate::editor::cursor::line_at;
use crate::editor::document::{can_search, indent_of, Document};
use crate::text::{chars_of, text_is_boundary, text_len};
use crate::theme::Theme;

verus! {

/// Whether typing at the cursor of `d` cuts no character in two.
pub(crate) fn insert_fits(d: &Document) -> (r: bool)
    ensures
        r == insert_char_ok(d.buffer@.lines, d.cursor.row as int, d.cursor.col as int),
{
    let row = d.cursor.row;
    if row < d.buffer.line_count() {
        let l = d.buffer.get_line(row);
        let n = text_len(l);
        let c = if d.cursor.col < n {
            d.cursor.col
        } else {
            n
        };
        text_is_boundary(l, c)
    } else {
        true
    }
}

/// Whether the indentation that a smart line break repeats can be typed
/// after the break.
fn indent_fits(d: &Document) -> (r: bool)
    ensures
        r == seq_ok_at(
            lines_split(d.buffer@.lines, d.cursor.row as int, d.cursor.col as int),
            d.cursor.row + 1,
            0,
            indent_of(line_at(d.buffer@.lines, d.cursor.row as int)),
        ),
{
    let ghost ls = d.buffer@.lines;
    let ghost row = d.cursor.row as int;
    let ghost split = lines_split(ls, row, d.cursor.col as int);
    let indent = d.get_current_indent();
    let cs = chars_of(indent.as_str());
    proof {
        if row < ls.len() {
            let x = split[row + 1];
            vstd::utf8::encode_utf8_valid_utf8(x);
            vstd::utf8::is_char_boundary_start_end_of_seq(vstd::utf8::encode_utf8(x));
            assert(insert_char_ok(split, row + 1, 0));
        }
    }
    let n = cs.len();
    let mut i: usize = 0;
    while i < n && i + 1 < n
        invariant
            n == cs@.len(),
            cs@ == indent@,
            ls == d.buffer@.lines,
            row == d.cursor.row as int,
            split == lines_split(ls, row, d.cursor.col as int),
            indent@ == indent_of(line_at(ls, row)),
            row < ls.len() ==> insert_char_ok(split, row + 1, 0),
            i <= n,
            forall|j: int| 0 <= j < i ==> (#[trigger] cs@[j] as u32) < 0x80,
        decreases n - i,
    {
        if cs[i] as u32 >= 0x80 {
            proof {
                if row >= ls.len() {
                    assert(line_at(ls, row) =~= Seq::<char>::empty());
                    assert(indent_of(line_at(ls, row)) =~= Seq::<char>::empty());
                }
                assert(row < ls.len());
                assert(split.len() == ls.len() + 1);
                assert(indent@[i as int] as u32 >= 0x80);
            }
            return false;
        }
        i = i + 1;
    }
    true
}

/// Whether backspacing at the cursor of `d` cuts no character in two.
fn backspace_fits(d: &Document) -> (r: bool)
    ensures
        r == crate::editor::document::can_backspace(*d),
{
    let row = d.cursor.row;
    let col = d.cursor.col;
    let n = d.buffer.line_count();
    if col > 0 && row < n {
        let l = d.buffer.get_line(row);
        col - 1 < text_len(l) && text_is_boundary(l, col - 1)
    } else if row > 0 {
        row < n
    } else {
        true
    }
}

/// Whether deleting at the cursor of `d` cuts no character in two.
fn delete_fits(d: &Document) -> (r: bool)
    ensures
        r == crate::editor::document::can_delete(*d),
{
    let row = d.cursor.row;
    if row < d.buffer.line_count() {
        let l = d.buffer.get_line(row);
        if d.cursor.col < text_len(l) {
            text_is_boundary(l, d.cursor.col)
        } else {
            true
        }
    } else {
        true
    }
}

/// Whether `c` opens a bracket or quote that gets its partner.
fn opens_pair(c: char) -> (r: bool)
    ensures
        r == closing(c) is Some,
{
    c == '(' || c == '[' || c == '{' || c == '"' || c == '\''
}

/// Whether `op` can be carried out on `d`.
pub fn op_fits(d: &Document, op: DocOp) -> (r: bool)
    ensures
        r == op_ok(*d, op),
{
    let row = d.cursor.row;
    let col = d.cursor.col;
    match op {
        DocOp::Type(_) => insert_fits(d) && col < usize::MAX,
        DocOp::TypePaired(c) => insert_fits(d) && col < usize::MAX && (!opens_pair(c) || (c as u32)
            < 0x80),
        DocOp::Indent => {
            assert(forall|i: int| 0 <= i < 4 ==> (#[trigger] four_spaces()[i] as u32) < 0x80);
            col <= usize::MAX - 4 && (row >= d.buffer.line_count() || insert_fits(d))
        },
        DocOp::Newline => insert_fits(d) && row < usize::MAX,
        DocOp::SmartNewline => insert_fits(d) && row < usize::MAX && indent_fits(d),
        DocOp::Backspace => backspace_fits(d),
        DocOp::Delete => delete_fits(d),
        DocOp::LineBelow => row < usize::MAX,
        _ => true,
    }
}

/// Whether searching from the cursor of `d` starts on a character boundary.
fn search_fits(d: &Document) -> (r: bool)
    ensures
        r == can_search(*d),
{
    let row = d.cursor.row;
    let col = d.cursor.col;
    if col == usize::MAX {
        return false;
    }
    if row < d.buffer.line_count() {
        let l = d.buffer.get_line(row);
        if col + 1 < text_len(l) {
            text_is_boundary(l, col + 1)
        } else {
            true
        }
    } else {
        true
    }
}

impl App {
    /// Whether `op`, if any, can be carried out on the open document.
    fn doc_op_fits(&self, op: Option<DocOp>) -> (r: bool)
        requires
            self.wf(),
        ensures
            r == crate::app::input::op_allowed(*self, op),
    {
        match op {
            Some(o) => if self.documents.len() > 0 {
                op_fits(&self.documents[self.active_tab], o)
            } else {
                true
            },
            None => true,
        }
    }

    /// Whether `key` can be handled in the editor's edit mode.
    fn edit_key_fits(&self, key: KeyEvent) -> (r: bool)
        requires
            self.wf(),
        ensures
            r == crate::app::input::mode_key_ok(*self, key),
    {
        match self.edit_mode {
            EditMode::Vim => match self.vim_mode {
                VimSubMode::Normal => self.doc_op_fits(vim_normal_op(key.code)),
                VimSubMode::Insert => self.doc_op_fits(vim_insert_op(key.code)),
                _ => true,
            },
            EditMode::Nano => self.doc_op_fits(nano_op(key)),
            EditMode::Emacs => true,
            EditMode::Aether => self.doc_op_fits(aether_op(key)),
        }
    }

    /// Whether `key` can be handled on the editor screen.
    fn editor_key_fits(&self, key: KeyEvent, themes: &Vec<Theme>) -> (r: bool)
        requires
            self.wf(),
        ensures
            r == crate::app::input::editor_key_ok(*self, key, themes@),
    {
        if key.ctrl && ctrl_shortcut(key.code) {
            true
        } else if key.alt && alt_popup(key.code).is_some() {
            true
        } else if key.code == KeyCode::F(5) {
            themes.len() > 0 && self.theme_index < usize::MAX
        } else if self.searching {
            if key.code == KeyCode::Enter && self.documents.len() > 0
                && !self.search_query.as_str().is_empty() {
                search_fits(&self.documents[self.active_tab])
            } else {
                true
            }
        } else {
            self.edit_key_fits(key)
        }
    }

    /// Whether the handlers are defined for `key` in this state, with the
    /// themes `themes` to choose from: `handle_key` may be called exactly
    /// when this holds.
    pub fn key_allowed(&self, key: KeyEvent, themes: &Vec<Theme>) -> (r: bool)
        requires
            self.wf(),
        ensures
            r == key_ok(*self, key, themes@),
    {
        let k = key.code;
        if key.ctrl && (k == KeyCode::Char('x') || k == KeyCode::Char('o') || k == KeyCode::Char('n')
            || k == KeyCode::Char('p') || k == KeyCode::Tab) || (key.ctrl || key.alt)
            && digit_tab_of(k).is_some() || key.alt && (k == KeyCode::Left || k == KeyCode::Right) {
            return true;
        }
        match &self.active_popup {
            Some(p) => {
                return (k != KeyCode::Up || p.options.len() > 0) && (k != KeyCode::Enter || (
                p.selected < p.options.len() && (p.menu_type != PopupMenuType::Theme || p.selected
                    < themes.len())));
            },
            None => {},
        }
        if self.go_to_line_active {
            return true;
        }
        match self.screen {
            AppScreen::Setup => {
                let ss = &self.setup_state;
                let n = themes.len();
                match k {
                    KeyCode::Esc => true,
                    KeyCode::Enter => ss.total_steps > 0 && (ss.step < ss.total_steps - 1
                        || ss.selected_theme < n),
                    KeyCode::Tab | KeyCode::Down => (ss.step != 1 || (n > 0 && ss.selected_theme
                        < usize::MAX)) && (ss.step != 2 || ss.selected_mode < usize::MAX) && (
                    ss.step != 3 || ss.ai_model_choice < usize::MAX),
                    KeyCode::BackTab | KeyCode::Up => !(ss.step == 1 && ss.selected_theme == 0)
                        || n > 0,
                    _ => true,
                }
            },
            AppScreen::Welcome => self.welcome_state.recent_files.len() <= usize::MAX - 7,
            AppScreen::Editor => if self.show_ai_sidebar && self.focus == AppFocus::AiPrompt {
                true
            } else if self.file_picker_active {
                let fp = &self.file_picker_state;
                if k == KeyCode::Enter && fp.selected < fp.filtered_entries.len() {
                    fp.filtered_entries[fp.selected] < fp.entries.len()
                } else {
                    true
                }
            } else {
                self.editor_key_fits(key, themes)
            },
            _ => true,
        }
    }
}

} // verus!
