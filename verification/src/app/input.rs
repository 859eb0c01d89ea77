//! How the editor reacts to keys.
//!
//! Each key that edits or moves within the open document is first mapped to
//! a `DocOp`; `apply_doc_op` then carries it out on the document.
use vstd::prelude::*;
use crate::editor::buffer::{clamp_col, insert_char_ok, lines_insert_char, lines_split};
use crate::editor::cursor::{
    bottom, down, left, line_at, line_end, right, up, word_backward, word_forward, Cursor,
};
use crate::editor::document::{
    backspaced, broke_line, can_backspace, can_break_line, can_delete, can_type, deleted_char,
    deleted_line, indent_of, opened_above, opened_below, path_view, typed, typed_in_place, undid,
    Document,
};
use crate::text::{byte_len, byte_offset, char_index, chars_of, is_boundary, text_eq, trim, trimmed};
use crate::app::{
    closed_tab, go_to_line_opened, popup_opened, save_request_for, saved, tabs_only_changed,
    theme_cycled, App, AppScreen, EditMode, Effect, KeyCode, KeyEvent, PopupMenuType, VimSubMode,
    WriteRequest,
};
use crate::app::lists::{all_indices, CommandPaletteState};
use crate::editor::document::{can_search, searched};
use crate::theme::Theme;

verus! {

/// What a key does to the open document.
#[derive(Debug, Clone, Copy, PartialEq, Eq, Structural)]
pub enum DocOp {
    /// Type a character.
    Type(char),
    /// Type a character and, for an opening bracket or quote, its closing
    /// partner after the cursor.
    TypePaired(char),
    /// Type four spaces.
    Indent,
    /// Break the line.
    Newline,
    /// Break the line and repeat the indentation of the line broken.
    SmartNewline,
    Backspace,
    Delete,
    DeleteLine,
    /// Open a line below the cursor's.
    LineBelow,
    /// Open a line above the cursor's.
    LineAbove,
    Undo,
    Left,
    Right,
    Up,
    Down,
    WordForward,
    WordBackward,
    /// To column 0 (the remembered column stays).
    LineStart,
    LineEnd,
    /// To the start of the first line (the remembered column stays).
    Top,
    Bottom,
    /// Twenty lines up.
    PageUp,
    /// Twenty lines down.
    PageDown,
}

/// The character typed after `c` by `TypePaired`, if any.
pub open spec fn closing(c: char) -> Option<char> {
    if c == '(' {
        Some(')')
    } else if c == '[' {
        Some(']')
    } else if c == '{' {
        Some('}')
    } else if c == '"' {
        Some('"')
    } else if c == '\'' {
        Some('\'')
    } else {
        None
    }
}

/// The cursor after `n` moves up.
pub open spec fn ups(c: Cursor, n: nat) -> Cursor
    decreases n,
{
    if n == 0 {
        c
    } else {
        up(ups(c, (n - 1) as nat))
    }
}

/// The cursor after `n` moves down in `ls`.
pub open spec fn downs(c: Cursor, ls: Seq<Seq<char>>, n: nat) -> Cursor
    decreases n,
{
    if n == 0 {
        c
    } else {
        down(downs(c, ls, (n - 1) as nat), ls)
    }
}

/// `d` with its cursor replaced by `c`.
pub open spec fn with_cursor(d: Document, c: Cursor) -> Document {
    Document { cursor: c, ..d }
}

/// `ds` lists the documents met while typing the characters of `s` one
/// after the other: each step is a `typed` one from a document that allows it.
pub open spec fn typing_chain(ds: Seq<Document>, s: Seq<char>) -> bool {
    &&& ds.len() == s.len() + 1
    &&& forall|i: int|
        0 <= i < s.len() ==> can_type(#[trigger] ds[i]) && typed(ds[i], ds[i + 1], s[i])
}

/// `d1` is `d0` after typing the characters of `s` one after the other.
pub open spec fn typed_seq(d0: Document, d1: Document, s: Seq<char>) -> bool {
    exists|ds: Seq<Document>| #[trigger] typing_chain(ds, s) && ds[0] == d0 && ds.last() == d1
}

/// Typing `s` from (`row`, `col`) of `ls` never inserts inside a character:
/// the row does not exist, or the start is a boundary and every character
/// but the last is one byte wide; and the columns stay machine integers.
pub open spec fn seq_ok_at(ls: Seq<Seq<char>>, row: int, col: int, s: Seq<char>) -> bool {
    &&& col + s.len() <= usize::MAX
    &&& row >= ls.len() || (insert_char_ok(ls, row, col) && forall|i: int|
        0 <= i < s.len() - 1 ==> (#[trigger] s[i] as u32) < 0x80)
}

/// Typing the characters of `s` one after the other from byte `col` of line
/// `l` never inserts inside a character, and the cursor's column stays a
/// machine integer: at each step `insert_char` is allowed.
pub open spec fn line_steps_ok(l: Seq<char>, col: int, s: Seq<char>) -> bool
    decreases s.len(),
{
    if s.len() == 0 {
        true
    } else {
        let at = clamp_col(l, col);
        &&& col < usize::MAX
        &&& is_boundary(l, at)
        &&& line_steps_ok(l.insert(char_index(l, at), s[0]), col + 1, s.drop_first())
    }
}

/// Typing `s` from (`row`, `col`) of `ls` is allowed at every step; where
/// the row does not exist, only the column moves.
pub open spec fn steps_ok(ls: Seq<Seq<char>>, row: int, col: int, s: Seq<char>) -> bool {
    if 0 <= row < ls.len() {
        line_steps_ok(ls[row], col, s)
    } else {
        col + s.len() <= usize::MAX
    }
}

/// Where only the last character may be wider than a byte, typing from a
/// boundary is allowed at every step.
proof fn lemma_line_steps_from_boundary(l: Seq<char>, col: int, s: Seq<char>)
    requires
        0 <= col,
        col + s.len() <= usize::MAX,
        is_boundary(l, clamp_col(l, col)),
        forall|i: int| 0 <= i < s.len() - 1 ==> (#[trigger] s[i] as u32) < 0x80,
    ensures
        line_steps_ok(l, col, s),
    decreases s.len(),
{
    if s.len() > 0 {
        let l2 = l.insert(char_index(l, clamp_col(l, col)), s[0]);
        let rest = s.drop_first();
        if s.len() > 1 {
            assert((s[0] as u32) < 0x80);
            lemma_ascii_keeps_insert_ok(seq![l], 0, col, s[0]);
            assert(lines_insert_char(seq![l], 0, col, s[0])[0] == l2);
            assert forall|i: int| 0 <= i < rest.len() - 1 implies (#[trigger] rest[i] as u32) < 0x80 by {
                assert(rest[i] == s[i + 1]);
            }
            lemma_line_steps_from_boundary(l2, col + 1, rest);
        } else {
            assert(rest.len() == 0);
        }
    }
}

/// `seq_ok_at` is one way of knowing that every step is allowed.
proof fn lemma_seq_ok_steps(ls: Seq<Seq<char>>, row: int, col: int, s: Seq<char>)
    requires
        0 <= row,
        0 <= col,
        seq_ok_at(ls, row, col, s),
    ensures
        steps_ok(ls, row, col, s),
{
    if row < ls.len() {
        lemma_line_steps_from_boundary(ls[row], col, s);
    }
}

/// The four spaces that `Indent` types.
pub open spec fn four_spaces() -> Seq<char> {
    seq![' ', ' ', ' ', ' ']
}

/// `op` can be carried out on `d` (where `DocOp` would panic otherwise, it
/// is excluded here).
pub open spec fn op_ok(d: Document, op: DocOp) -> bool {
    let ls = d.buffer@.lines;
    let row = d.cursor.row as int;
    let col = d.cursor.col as int;
    match op {
        DocOp::Type(_) => can_type(d),
        DocOp::TypePaired(c) => can_type(d) && (closing(c) is Some ==> (c as u32) < 0x80),
        DocOp::Indent => seq_ok_at(ls, row, col, four_spaces()),
        DocOp::Newline => can_break_line(d),
        DocOp::SmartNewline => can_break_line(d) && seq_ok_at(
            lines_split(ls, row, col),
            row + 1,
            0,
            indent_of(line_at(ls, row)),
        ),
        DocOp::Backspace => can_backspace(d),
        DocOp::Delete => can_delete(d),
        DocOp::LineBelow => d.cursor.row < usize::MAX,
        _ => true,
    }
}

/// `d1` is `d0` after `op`.
pub open spec fn op_done(d0: Document, d1: Document, op: DocOp) -> bool {
    let ls = d0.buffer@.lines;
    let c = d0.cursor;
    match op {
        DocOp::Type(ch) => typed(d0, d1, ch),
        DocOp::TypePaired(ch) => exists|m: Document|
            #[trigger] typed(d0, m, ch) && match closing(ch) {
                Some(p) => typed_in_place(m, d1, p),
                None => d1 == m,
            },
        DocOp::Indent => typed_seq(d0, d1, four_spaces()),
        DocOp::Newline => broke_line(d0, d1),
        DocOp::SmartNewline => exists|m: Document|
            #[trigger] broke_line(d0, m) && typed_seq(
                m,
                d1,
                indent_of(line_at(ls, c.row as int)),
            ),
        DocOp::Backspace => backspaced(d0, d1),
        DocOp::Delete => deleted_char(d0, d1),
        DocOp::DeleteLine => deleted_line(d0, d1),
        DocOp::LineBelow => opened_below(d0, d1),
        DocOp::LineAbove => opened_above(d0, d1),
        DocOp::Undo => undid(d0, d1),
        DocOp::Left => d1 == with_cursor(d0, left(c)),
        DocOp::Right => d1 == with_cursor(d0, right(c, ls)),
        DocOp::Up => d1 == with_cursor(d0, up(c)),
        DocOp::Down => d1 == with_cursor(d0, down(c, ls)),
        DocOp::WordForward => d1 == with_cursor(d0, word_forward(c, ls)),
        DocOp::WordBackward => d1 == with_cursor(d0, word_backward(c, ls)),
        DocOp::LineStart => d1 == with_cursor(d0, Cursor { col: 0, ..c }),
        DocOp::LineEnd => d1 == with_cursor(d0, line_end(c, ls)),
        DocOp::Top => d1 == with_cursor(d0, Cursor { row: 0, col: 0, ..c }),
        DocOp::Bottom => d1 == with_cursor(d0, bottom(c, ls)),
        DocOp::PageUp => d1 == with_cursor(d0, ups(c, 20)),
        DocOp::PageDown => d1 == with_cursor(d0, downs(c, ls, 20)),
    }
}

/// Typing a one-byte character keeps the next column a place to type at.
proof fn lemma_ascii_keeps_insert_ok(ls: Seq<Seq<char>>, row: int, col: int, c: char)
    requires
        0 <= row,
        0 <= col,
        insert_char_ok(ls, row, col),
        (c as u32) < 0x80,
    ensures
        lines_insert_char(ls, row, col, c).len() == ls.len(),
        insert_char_ok(lines_insert_char(ls, row, col, c), row, col + 1),
{
    if row < ls.len() {
        let l = ls[row];
        let cc = clamp_col(l, col);
        crate::text::lemma_split_at_boundary(l, cc);
        let k = char_index(l, cc);
        let l2 = l.insert(k, c);
        crate::text::lemma_char_width(c);
        assert(l2.take(k + 1) =~= l.take(k) + seq![c]);
        crate::text::lemma_utf8_concat(l.take(k), seq![c]);
        assert(byte_offset(l2, k + 1) == cc + 1);
        crate::text::lemma_offset_is_boundary(l2, k + 1);
        assert(l2 =~= (l.take(k) + seq![c]) + l.skip(k));
        crate::text::lemma_utf8_concat(l.take(k) + seq![c], l.skip(k));
        crate::text::lemma_utf8_concat(l.take(k), l.skip(k));
        assert(l =~= l.take(k) + l.skip(k));
        assert(byte_len(l2) == byte_len(l) + 1);
        let ls2 = lines_insert_char(ls, row, col, c);
        assert(ls2[row] == l2);
        assert(clamp_col(l2, col + 1) == cc + 1);
    }
}

/// Types the characters of `s` at the cursor, one after the other.
pub(crate) fn type_chars(doc: &mut Document, s: &Vec<char>)
    requires
        steps_ok(old(doc).buffer@.lines, old(doc).cursor.row as int, old(doc).cursor.col as int, s@),
    ensures
        typed_seq(*old(doc), *final(doc), s@),
{
    let ghost d0 = *doc;
    let ghost row = d0.cursor.row as int;
    let ghost mut ds: Seq<Document> = seq![d0];
    let mut i: usize = 0;
    assert(s@.skip(0) =~= s@);
    while i < s.len()
        invariant
            i <= s@.len(),
            ds.len() == i + 1,
            ds[0] == d0,
            ds.last() == *doc,
            forall|j: int|
                0 <= j < i ==> can_type(#[trigger] ds[j]) && typed(ds[j], ds[j + 1], s@[j]),
            doc.cursor.row as int == row,
            steps_ok(doc.buffer@.lines, row, doc.cursor.col as int, s@.skip(i as int)),
        decreases s@.len() - i,
    {
        let ghost prev = *doc;
        let ghost rest = s@.skip(i as int);
        assert(rest[0] == s@[i as int]);
        assert(rest.drop_first() =~= s@.skip(i + 1));
        let c = s[i];
        doc.insert_char(c);
        proof {
            ds = ds.push(*doc);
            let ls = prev.buffer@.lines;
            assert(doc.buffer@.lines == lines_insert_char(ls, row, prev.cursor.col as int, c));
            if row < ls.len() {
                assert(doc.buffer@.lines[row] == ls[row].insert(
                    char_index(ls[row], clamp_col(ls[row], prev.cursor.col as int)),
                    c,
                ));
            }
        }
        i = i + 1;
    }
    assert(typing_chain(ds, s@));
}

/// Carries out `op` on `doc`.
pub fn apply_doc_op(doc: &mut Document, op: DocOp)
    requires
        op_ok(*old(doc), op),
    ensures
        op_done(*old(doc), *final(doc), op),
{
    match op {
        DocOp::Type(c) => doc.insert_char(c),
        DocOp::TypePaired(c) => {
            let ghost d0 = *doc;
            doc.insert_char(c);
            let ghost m = *doc;
            let p: Option<char> = if c == '(' {
                Some(')')
            } else if c == '[' {
                Some(']')
            } else if c == '{' {
                Some('}')
            } else if c == '"' {
                Some('"')
            } else if c == '\'' {
                Some('\'')
            } else {
                None
            };
            if let Some(q) = p {
                proof {
                    lemma_ascii_keeps_insert_ok(
                        d0.buffer@.lines,
                        d0.cursor.row as int,
                        d0.cursor.col as int,
                        c,
                    );
                }
                doc.insert_char_no_move(q);
            }
            assert(typed(d0, m, c));
        },
        DocOp::Indent => {
            let mut s: Vec<char> = Vec::new();
            s.push(' ');
            s.push(' ');
            s.push(' ');
            s.push(' ');
            assert(s@ =~= four_spaces());
            proof {
                lemma_seq_ok_steps(doc.buffer@.lines, doc.cursor.row as int, doc.cursor.col as int, s@);
            }
            type_chars(doc, &s);
        },
        DocOp::Newline => doc.insert_newline(),
        DocOp::SmartNewline => {
            let ghost d0 = *doc;
            let indent = doc.get_current_indent();
            doc.insert_newline();
            let ghost m = *doc;
            let s = chars_of(indent.as_str());
            proof {
                lemma_seq_ok_steps(doc.buffer@.lines, doc.cursor.row as int, doc.cursor.col as int, s@);
            }
            type_chars(doc, &s);
            assert(broke_line(d0, m));
        },
        DocOp::Backspace => doc.backspace(),
        DocOp::Delete => doc.delete_char(),
        DocOp::DeleteLine => doc.delete_line(),
        DocOp::LineBelow => doc.insert_line_below(),
        DocOp::LineAbove => doc.insert_line_above(),
        DocOp::Undo => doc.undo(),
        DocOp::Left => doc.cursor.move_left(),
        DocOp::Right => doc.cursor.move_right(&doc.buffer),
        DocOp::Up => doc.cursor.move_up(),
        DocOp::Down => doc.cursor.move_down(&doc.buffer),
        DocOp::WordForward => doc.cursor.move_word_forward(&doc.buffer),
        DocOp::WordBackward => doc.cursor.move_word_backward(&doc.buffer),
        DocOp::LineStart => doc.cursor.col = 0,
        DocOp::LineEnd => doc.cursor.move_to_end_of_line(&doc.buffer),
        DocOp::Top => {
            doc.cursor.row = 0;
            doc.cursor.col = 0;
        },
        DocOp::Bottom => doc.cursor.move_to_bottom(&doc.buffer),
        DocOp::PageUp => {
            let ghost c0 = doc.cursor;
            let mut k: usize = 0;
            while k < 20
                invariant
                    k <= 20,
                    *doc == with_cursor(*old(doc), ups(c0, k as nat)),
                decreases 20 - k,
            {
                doc.cursor.move_up();
                k = k + 1;
            }
        },
        DocOp::PageDown => {
            let ghost c0 = doc.cursor;
            let mut k: usize = 0;
            while k < 20
                invariant
                    k <= 20,
                    *doc == with_cursor(*old(doc), downs(c0, old(doc).buffer@.lines, k as nat)),
                decreases 20 - k,
            {
                doc.cursor.move_down(&doc.buffer);
                k = k + 1;
            }
        },
    }
}

/// `a1` is `a0` with `op` carried out on the open document.
#[verifier::opaque]
pub open spec fn doc_applied(a0: App, a1: App, op: DocOp) -> bool {
    &&& a0.documents@.len() > 0
    &&& a1.documents@.len() == a0.documents@.len()
    &&& op_done(a0.active(), a1.active(), op)
    &&& a1.documents@ == a0.documents@.update(a0.active_tab as int, a1.active())
    &&& a1 == (App { documents: a1.documents, ..a0 })
}

/// `a1` is `a0` after the document operation `op`, if any (nothing happens
/// without an open document).
pub open spec fn op_step(a0: App, a1: App, op: Option<DocOp>) -> bool {
    if a0.documents@.len() > 0 && op is Some {
        doc_applied(a0, a1, op->0)
    } else {
        a1 == a0
    }
}

/// The operation `op`, if any, can be carried out on the open document.
pub open spec fn op_allowed(a: App, op: Option<DocOp>) -> bool {
    a.documents@.len() > 0 && op is Some ==> op_ok(a.active(), op->0)
}

/// The write requested by a list of effects that starts with one.
pub open spec fn write_in(effects: Seq<Effect>) -> Option<WriteRequest> {
    if effects.len() > 0 {
        match effects[0] {
            Effect::Write(r) => Some(r),
            _ => None,
        }
    } else {
        None
    }
}

/// The effects that carry out the write `w`, if any.
pub open spec fn effects_of_write(w: Option<WriteRequest>) -> Seq<Effect> {
    match w {
        Some(r) => seq![Effect::Write(r)],
        None => seq![],
    }
}

/// `a1` and `effects` after saving the open document of `a0`.
#[verifier::opaque]
pub open spec fn save_step(a0: App, a1: App, effects: Seq<Effect>) -> bool {
    &&& saved(a0, a1, write_in(effects))
    &&& effects == effects_of_write(write_in(effects))
}

/// `a1` is `a0` after closing the open tab, quitting once no tab is left.
#[verifier::opaque]
pub open spec fn closed_and_quit(a0: App, a1: App) -> bool {
    let m = App { should_quit: a0.should_quit, ..a1 };
    &&& closed_tab(a0, m)
    &&& tabs_only_changed(a0, m)
    &&& a1.should_quit == (a0.should_quit || a1.documents@.len() == 0)
}

/// The write `w` tied to tab `t` again.
pub open spec fn tab_kept(w: Option<WriteRequest>, t: usize) -> Option<WriteRequest> {
    match w {
        Some(r) => Some(WriteRequest { tab: Some(t), ..r }),
        None => None,
    }
}

/// `a1` and `effects` after saving and then closing the open tab (`:wq`):
/// the write is no longer tied to the tab, which is gone.
pub open spec fn saved_and_closed(a0: App, a1: App, effects: Seq<Effect>) -> bool {
    let w = write_in(effects);
    &&& effects == effects_of_write(w)
    &&& (w matches Some(r) ==> r.tab is None)
    &&& exists|m: App|
        #[trigger] saved(a0, m, tab_kept(w, a0.active_tab)) && closed_and_quit(m, a1)
}

/// `a1` is `a0` with the open document's path set to `p` (nothing else of
/// the document changes).
#[verifier::opaque]
pub open spec fn path_set(a0: App, a1: App, p: Seq<char>) -> bool {
    &&& a0.documents@.len() > 0
    &&& a1.documents@ == a0.documents@.update(
        a0.active_tab as int,
        Document { file_path: a1.active().file_path, ..a0.active() },
    )
    &&& path_view(a1.active().file_path) == Some(p)
    &&& a1 == (App { documents: a1.documents, ..a0 })
}

/// `a1` is `a0` after `:q`: the tab is closed unless its document has
/// unsaved changes, which are reported instead.
#[verifier::opaque]
pub open spec fn quit_step(a0: App, a1: App) -> bool {
    if a0.documents@.len() == 0 || !a0.active().modified {
        closed_and_quit(a0, a1)
    } else {
        reported(a0, a1, UNSAVED@)
    }
}

/// `a1` is `a0` with `msg` on the status line.
#[verifier::opaque]
pub open spec fn reported(a0: App, a1: App, msg: Seq<char>) -> bool {
    &&& a1.status_message@ == msg
    &&& a1 == (App { status_message: a1.status_message, status_fresh: true, ..a0 })
}

/// `a1` and `effects` after saving the open document of `a0` under the path `p`.
#[verifier::opaque]
pub open spec fn saved_as(a0: App, a1: App, p: Seq<char>, effects: Seq<Effect>) -> bool {
    &&& path_set(a0, a1, p)
    &&& effects.len() == 1
    &&& effects[0] matches Effect::Write(r) && r.tab == Some(a0.active_tab) && save_request_for(a1, r)
}

/// The rest of `cmd` after `c` and a space, when it starts so.
pub open spec fn after_word(cmd: Seq<char>, c: char) -> Option<Seq<char>> {
    if cmd.len() >= 2 && cmd[0] == c && cmd[1] == ' ' {
        Some(cmd.skip(2))
    } else {
        None
    }
}

pub const UNSAVED: &'static str = "Unsaved changes! Use :q! to force quit or :wq to save and quit";

pub const UNKNOWN_COMMAND: &'static str = "Unknown command: :";

/// `a1` and `effects` after the vim command `cmd` on `a0`: `w` saves, `q`
/// closes the tab unless it has unsaved changes, `q!` closes it anyway, `wq`
/// and `x` save and close (quitting after the last tab); `e FILE` opens a
/// file, `w FILE` saves under a new path; anything else is reported.
#[verifier::opaque]
pub open spec fn vim_command_done(a0: App, a1: App, cmd: Seq<char>, effects: Seq<Effect>) -> bool {
    let t = trimmed(cmd);
    if t == "w"@ {
        save_step(a0, a1, effects)
    } else if t == "q"@ {
        effects.len() == 0 && quit_step(a0, a1)
    } else if t == "q!"@ {
        effects.len() == 0 && closed_and_quit(a0, a1)
    } else if t == "wq"@ || t == "x"@ {
        saved_and_closed(a0, a1, effects)
    } else if after_word(cmd, 'e') is Some {
        &&& a1 == a0
        &&& effects.len() == 1
        &&& effects[0] matches Effect::OpenFile(f) && f@ == trimmed(after_word(cmd, 'e')->0)
    } else if after_word(cmd, 'w') is Some {
        if a0.documents@.len() == 0 {
            a1 == a0 && effects.len() == 0
        } else {
            saved_as(a0, a1, trimmed(after_word(cmd, 'w')->0), effects)
        }
    } else {
        effects.len() == 0 && reported(a0, a1, UNKNOWN_COMMAND@ + cmd)
    }
}

/// What a key does to the document in vim's normal mode.
pub open spec fn normal_op_of(k: KeyCode) -> Option<DocOp> {
    match k {
        KeyCode::Char(c) => if c == 'a' || c == 'l' {
            Some(DocOp::Right)
        } else if c == 'o' {
            Some(DocOp::LineBelow)
        } else if c == 'O' {
            Some(DocOp::LineAbove)
        } else if c == 'h' {
            Some(DocOp::Left)
        } else if c == 'j' {
            Some(DocOp::Down)
        } else if c == 'k' {
            Some(DocOp::Up)
        } else if c == 'w' {
            Some(DocOp::WordForward)
        } else if c == 'b' {
            Some(DocOp::WordBackward)
        } else if c == '0' {
            Some(DocOp::LineStart)
        } else if c == '$' {
            Some(DocOp::LineEnd)
        } else if c == 'G' {
            Some(DocOp::Bottom)
        } else if c == 'g' {
            Some(DocOp::Top)
        } else if c == 'x' {
            Some(DocOp::Delete)
        } else if c == 'd' {
            Some(DocOp::DeleteLine)
        } else if c == 'u' {
            Some(DocOp::Undo)
        } else {
            None
        },
        KeyCode::Left => Some(DocOp::Left),
        KeyCode::Down => Some(DocOp::Down),
        KeyCode::Up => Some(DocOp::Up),
        KeyCode::Right => Some(DocOp::Right),
        KeyCode::Home => Some(DocOp::LineStart),
        KeyCode::End => Some(DocOp::LineEnd),
        _ => None,
    }
}

/// The vim mode after a key in normal mode.
pub open spec fn normal_mode_after(k: KeyCode) -> VimSubMode {
    match k {
        KeyCode::Char(c) => if c == 'i' || c == 'a' || c == 'o' || c == 'O' {
            VimSubMode::Insert
        } else if c == 'v' {
            VimSubMode::Visual
        } else if c == ':' {
            VimSubMode::Command
        } else {
            VimSubMode::Normal
        },
        _ => VimSubMode::Normal,
    }
}

/// What a key does to the document in vim's insert mode.
pub open spec fn insert_op_of(k: KeyCode) -> Option<DocOp> {
    match k {
        KeyCode::Char(c) => Some(DocOp::Type(c)),
        KeyCode::Enter => Some(DocOp::Newline),
        KeyCode::Backspace => Some(DocOp::Backspace),
        KeyCode::Delete => Some(DocOp::Delete),
        KeyCode::Left => Some(DocOp::Left),
        KeyCode::Right => Some(DocOp::Right),
        KeyCode::Up => Some(DocOp::Up),
        KeyCode::Down => Some(DocOp::Down),
        KeyCode::Tab => Some(DocOp::Indent),
        _ => None,
    }
}

/// `a1` is `a0` in the vim mode `mode`.
#[verifier::opaque]
pub open spec fn mode_set(a0: App, a1: App, mode: VimSubMode) -> bool {
    a1 == (App { vim_mode: mode, ..a0 })
}

/// `a1` is `a0` after the document operation `op` (if any), then in the vim
/// mode `mode`.
pub open spec fn op_then_mode(a0: App, a1: App, op: Option<DocOp>, mode: VimSubMode) -> bool {
    exists|m: App| #[trigger] op_step(a0, m, op) && mode_set(m, a1, mode)
}

/// `a1` is `a0` in command mode with an empty command line.
#[verifier::opaque]
pub open spec fn command_opened(a0: App, a1: App) -> bool {
    &&& a1.vim_command_buffer@.len() == 0
    &&& a1 == (App {
        vim_mode: VimSubMode::Command,
        vim_command_buffer: a1.vim_command_buffer,
        ..a0
    })
}

/// `a1` is `a0` searching, with an empty query.
#[verifier::opaque]
pub open spec fn search_opened(a0: App, a1: App) -> bool {
    &&& a1.search_query@.len() == 0
    &&& a1 == (App { searching: true, search_query: a1.search_query, ..a0 })
}

/// `a1` is `a0` back in normal mode with an empty command line.
#[verifier::opaque]
pub open spec fn command_closed(a0: App, a1: App) -> bool {
    &&& a1.vim_command_buffer@.len() == 0
    &&& a1 == (App {
        vim_mode: VimSubMode::Normal,
        vim_command_buffer: a1.vim_command_buffer,
        ..a0
    })
}

/// `a1` is `a0` with an empty command line.
#[verifier::opaque]
pub open spec fn command_cleared(a0: App, a1: App) -> bool {
    &&& a1.vim_command_buffer@.len() == 0
    &&& a1 == (App { vim_command_buffer: a1.vim_command_buffer, ..a0 })
}

/// `a1` and `effects` after running the command line of `a0`: back in normal
/// mode, the command runs, then the command line is emptied.
pub open spec fn command_run(a0: App, a1: App, effects: Seq<Effect>) -> bool {
    exists|m: App, x: App|
        #![trigger mode_set(a0, m, VimSubMode::Normal), command_cleared(x, a1)]
        mode_set(a0, m, VimSubMode::Normal) && vim_command_done(
            m,
            x,
            a0.vim_command_buffer@,
            effects,
        ) && command_cleared(x, a1)
}

/// `a1` is `a0` with `c` added to the command line.
#[verifier::opaque]
pub open spec fn command_typed(a0: App, a1: App, c: char) -> bool {
    &&& a1.vim_command_buffer@ == a0.vim_command_buffer@.push(c)
    &&& a1 == (App { vim_command_buffer: a1.vim_command_buffer, ..a0 })
}

/// `a1` is `a0` with the last character of the command line erased, back in
/// normal mode once the line is empty.
#[verifier::opaque]
pub open spec fn command_erased(a0: App, a1: App) -> bool {
    let buf = a0.vim_command_buffer@;
    let rest = if buf.len() > 0 {
        buf.drop_last()
    } else {
        buf
    };
    &&& a1.vim_command_buffer@ == rest
    &&& a1 == (App {
        vim_command_buffer: a1.vim_command_buffer,
        vim_mode: if rest.len() == 0 {
            VimSubMode::Normal
        } else {
            a0.vim_mode
        },
        ..a0
    })
}

/// `a1` is `a0` after `k` in vim's normal mode: `:` opens the command line,
/// `/` starts a search, `i`, `a`, `o`, `O` enter insert mode (`a` one to the
/// right, `o`/`O` on a new line), `v` visual mode; motions and edits act on
/// the document.
pub open spec fn vim_normal_step(a0: App, a1: App, k: KeyCode) -> bool {
    if k == KeyCode::Char(':') {
        command_opened(a0, a1)
    } else if k == KeyCode::Char('/') {
        search_opened(a0, a1)
    } else {
        op_then_mode(a0, a1, normal_op_of(k), normal_mode_after(k))
    }
}

/// `a1` is `a0` after `k` in vim's insert mode: Esc leaves it, other keys
/// edit or move.
pub open spec fn vim_insert_step(a0: App, a1: App, k: KeyCode) -> bool {
    if k == KeyCode::Esc {
        mode_set(a0, a1, VimSubMode::Normal)
    } else {
        op_step(a0, a1, insert_op_of(k))
    }
}

/// `a1` and `effects` after `k` in vim's command mode: typing edits the
/// command line, Enter runs the command, Esc or erasing it all leaves.
pub open spec fn vim_command_step(a0: App, a1: App, k: KeyCode, effects: Seq<Effect>) -> bool {
    match k {
        KeyCode::Esc => effects.len() == 0 && command_closed(a0, a1),
        KeyCode::Enter => command_run(a0, a1, effects),
        KeyCode::Char(c) => effects.len() == 0 && command_typed(a0, a1, c),
        KeyCode::Backspace => effects.len() == 0 && command_erased(a0, a1),
        _ => effects.len() == 0 && a1 == a0,
    }
}

/// The key `k` can be handled in vim mode without failing.
pub open spec fn vim_key_ok(a: App, k: KeyCode) -> bool {
    match a.vim_mode {
        VimSubMode::Normal => op_allowed(a, normal_op_of(k)),
        VimSubMode::Insert => op_allowed(a, insert_op_of(k)),
        _ => true,
    }
}

/// `a1` and `effects` after `k` in vim mode (nothing happens without an open
/// document).
pub open spec fn vim_step(a0: App, a1: App, k: KeyCode, effects: Seq<Effect>) -> bool {
    if a0.documents@.len() == 0 {
        a1 == a0 && effects.len() == 0
    } else {
        match a0.vim_mode {
            VimSubMode::Normal => effects.len() == 0 && vim_normal_step(a0, a1, k),
            VimSubMode::Insert => effects.len() == 0 && vim_insert_step(a0, a1, k),
            VimSubMode::Command => vim_command_step(a0, a1, k, effects),
            VimSubMode::Visual => effects.len() == 0 && if k == KeyCode::Esc {
                mode_set(a0, a1, VimSubMode::Normal)
            } else {
                a1 == a0
            },
        }
    }
}

/// `normal_op_of`.
pub fn vim_normal_op(k: KeyCode) -> (r: Option<DocOp>)
    ensures
        r == normal_op_of(k),
{
    match k {
        KeyCode::Char(c) => if c == 'a' || c == 'l' {
            Some(DocOp::Right)
        } else if c == 'o' {
            Some(DocOp::LineBelow)
        } else if c == 'O' {
            Some(DocOp::LineAbove)
        } else if c == 'h' {
            Some(DocOp::Left)
        } else if c == 'j' {
            Some(DocOp::Down)
        } else if c == 'k' {
            Some(DocOp::Up)
        } else if c == 'w' {
            Some(DocOp::WordForward)
        } else if c == 'b' {
            Some(DocOp::WordBackward)
        } else if c == '0' {
            Some(DocOp::LineStart)
        } else if c == '$' {
            Some(DocOp::LineEnd)
        } else if c == 'G' {
            Some(DocOp::Bottom)
        } else if c == 'g' {
            Some(DocOp::Top)
        } else if c == 'x' {
            Some(DocOp::Delete)
        } else if c == 'd' {
            Some(DocOp::DeleteLine)
        } else if c == 'u' {
            Some(DocOp::Undo)
        } else {
            None
        },
        KeyCode::Left => Some(DocOp::Left),
        KeyCode::Down => Some(DocOp::Down),
        KeyCode::Up => Some(DocOp::Up),
        KeyCode::Right => Some(DocOp::Right),
        KeyCode::Home => Some(DocOp::LineStart),
        KeyCode::End => Some(DocOp::LineEnd),
        _ => None,
    }
}

/// `insert_op_of`.
pub fn vim_insert_op(k: KeyCode) -> (r: Option<DocOp>)
    ensures
        r == insert_op_of(k),
{
    match k {
        KeyCode::Char(c) => Some(DocOp::Type(c)),
        KeyCode::Enter => Some(DocOp::Newline),
        KeyCode::Backspace => Some(DocOp::Backspace),
        KeyCode::Delete => Some(DocOp::Delete),
        KeyCode::Left => Some(DocOp::Left),
        KeyCode::Right => Some(DocOp::Right),
        KeyCode::Up => Some(DocOp::Up),
        KeyCode::Down => Some(DocOp::Down),
        KeyCode::Tab => Some(DocOp::Indent),
        _ => None,
    }
}

/// The rest of `cmd` after `c` and a space, when it starts so.
fn strip_word(cmd: &str, c: char) -> (r: Option<&str>)
    ensures
        match after_word(cmd@, c) {
            Some(rest) => r matches Some(x) && x@ == rest,
            None => r is None,
        },
{
    let cs = chars_of(cmd);
    if cs.len() >= 2 && cs[0] == c && cs[1] == ' ' {
        Some(cmd.substring_char(2, cs.len()))
    } else {
        None
    }
}

/// The write `w`, if any, no longer tied to a tab.
pub open spec fn untie(w: Option<WriteRequest>) -> Option<WriteRequest> {
    match w {
        Some(r) => Some(WriteRequest { tab: None, ..r }),
        None => None,
    }
}

/// A save ties its write to the open tab.
proof fn lemma_saved_tab(a0: App, a1: App, w: Option<WriteRequest>)
    requires
        saved(a0, a1, w),
    ensures
        w matches Some(r) ==> r.tab == Some(a0.active_tab),
{
    reveal(saved);
}

/// Saving a document that has a path changes nothing and writes it.
proof fn lemma_saved_with_path(a0: App, a1: App, w: Option<WriteRequest>)
    requires
        saved(a0, a1, w),
        a0.documents@.len() > 0,
        path_view(a0.active().file_path) is Some,
    ensures
        a1 == a0,
        w matches Some(r) && r.tab == Some(a0.active_tab) && save_request_for(a0, r),
{
    reveal(saved);
}

/// The effects that carry out the write `w`, if any.
fn write_effects(w: Option<WriteRequest>) -> (effects: Vec<Effect>)
    ensures
        effects@ == effects_of_write(w),
        write_in(effects@) == w,
{
    let mut effects: Vec<Effect> = Vec::new();
    if let Some(r) = w {
        effects.push(Effect::Write(r));
    }
    effects
}

/// The effects that carry out `w` untied from its tab.
fn untied_write(w: Option<WriteRequest>) -> (effects: Vec<Effect>)
    ensures
        effects@ == effects_of_write(untie(w)),
        write_in(effects@) == untie(w),
        w matches Some(r) ==> tab_kept(write_in(effects@), r.tab->0) == w || r.tab is None,
{
    let mut effects: Vec<Effect> = Vec::new();
    if let Some(r) = w {
        effects.push(Effect::Write(WriteRequest { tab: None, ..r }));
    }
    effects
}

impl App {
    /// Carries out `op` on the open document.
    pub fn apply_to_active(&mut self, op: DocOp)
        requires
            old(self).wf(),
            old(self).documents@.len() > 0,
            op_ok(old(self).active(), op),
        ensures
            final(self).wf(),
            doc_applied(*old(self), *final(self), op),
            final(self).vim_mode == old(self).vim_mode,
    {
        let ghost a0 = *self;
        let t = self.active_tab;
        let mut docs: Vec<Document> = Vec::new();
        std::mem::swap(&mut docs, &mut self.documents);
        let mut d = Document::new();
        docs.set_and_swap(t, &mut d);
        apply_doc_op(&mut d, op);
        docs.set(t, d);
        self.documents = docs;
        proof {
            assert(self.documents@ == a0.documents@.update(t as int, self.active()));
            assert(*self == App { documents: self.documents, ..a0 });
            reveal(doc_applied);
        }
    }

    /// Carries out `op`, if any, on the open document, if any.
    pub fn apply_op(&mut self, op: Option<DocOp>)
        requires
            old(self).wf(),
            op_allowed(*old(self), op),
        ensures
            final(self).wf(),
            op_step(*old(self), *final(self), op),
            final(self).vim_mode == old(self).vim_mode,
    {
        if self.documents.len() > 0 {
            if let Some(o) = op {
                self.apply_to_active(o);
            }
        }
    }

    /// Closes the open tab, and quits once no tab is left.
    #[verifier::rlimit(80)]
    fn close_and_quit(&mut self)
        requires
            old(self).wf(),
        ensures
            final(self).wf(),
            closed_and_quit(*old(self), *final(self)),
    {
        self.close_current_tab();
        let ghost m = *self;
        self.should_quit = self.should_quit || self.documents.len() == 0;
        proof {
            assert(App { should_quit: m.should_quit, ..*self } == m);
            reveal(closed_and_quit);
        }
    }

    /// Saves the open document, then closes its tab (`:wq`).
    #[verifier::rlimit(40)]
    fn save_and_close(&mut self) -> (effects: Vec<Effect>)
        requires
            old(self).wf(),
        ensures
            final(self).wf(),
            saved_and_closed(*old(self), *final(self), effects@),
    {
        let ghost a0 = *self;
        let w = self.save_current();
        let ghost m = *self;
        proof {
            lemma_saved_tab(a0, m, w);
        }
        self.close_and_quit();
        let effects = untied_write(w);
        proof {
            assert(tab_kept(write_in(effects@), a0.active_tab) == w);
            assert(saved(a0, m, tab_kept(write_in(effects@), a0.active_tab)));
        }
        effects
    }

    /// Saves the open document as `path` (`:w FILE`).
    fn save_as_path(&mut self, path: &str) -> (effects: Vec<Effect>)
        requires
            old(self).wf(),
            old(self).documents@.len() > 0,
        ensures
            final(self).wf(),
            saved_as(*old(self), *final(self), path@, effects@),
    {
        let ghost a0 = *self;
        let t = self.active_tab;
        let mut docs: Vec<Document> = Vec::new();
        std::mem::swap(&mut docs, &mut self.documents);
        let mut d = Document::new();
        docs.set_and_swap(t, &mut d);
        let ghost d0 = d;
        d.file_path = Some(path.to_owned());
        assert(d == Document { file_path: d.file_path, ..d0 });
        docs.set(t, d);
        self.documents = docs;
        proof {
            assert(self.documents@ =~= a0.documents@.update(t as int, d));
            assert(self.active() == d);
            assert(path_view(d.file_path) == Some(path@));
            assert(*self == App { documents: self.documents, ..a0 });
            reveal(path_set);
        }
        let ghost m = *self;
        let w = self.save_current();
        proof {
            lemma_saved_with_path(m, *self, w);
        }
        let effects = write_effects(w);
        proof {
            reveal(saved_as);
        }
        effects
    }

    /// `:q`: closes the tab unless its document has unsaved changes.
    fn quit_unless_modified(&mut self)
        requires
            old(self).wf(),
        ensures
            final(self).wf(),
            quit_step(*old(self), *final(self)),
    {
        if self.documents.len() == 0 || !self.documents[self.active_tab].modified {
            self.close_and_quit();
        } else {
            self.report(UNSAVED);
        }
        proof {
            reveal(quit_step);
        }
    }

    /// Saves the open document (`:w`, Ctrl+S).
    pub fn save_effects(&mut self) -> (effects: Vec<Effect>)
        requires
            old(self).wf(),
        ensures
            final(self).wf(),
            save_step(*old(self), *final(self), effects@),
    {
        let w = self.save_current();
        let effects = write_effects(w);
        proof {
            reveal(save_step);
        }
        effects
    }

    /// Runs the vim command `cmd`.
    pub fn execute_vim_command(&mut self, cmd: &str) -> (effects: Vec<Effect>)
        requires
            old(self).wf(),
        ensures
            final(self).wf(),
            vim_command_done(*old(self), *final(self), cmd@, effects@),
    {
        let t = trim(cmd);
        let effects = if text_eq(t, "w") {
            self.save_effects()
        } else if text_eq(t, "q") {
            self.quit_unless_modified();
            Vec::new()
        } else if text_eq(t, "q!") {
            self.close_and_quit();
            Vec::new()
        } else if text_eq(t, "wq") || text_eq(t, "x") {
            self.save_and_close()
        } else if let Some(rest) = strip_word(cmd, 'e') {
            let mut effects: Vec<Effect> = Vec::new();
            effects.push(Effect::OpenFile(trim(rest).to_owned()));
            effects
        } else if let Some(rest) = strip_word(cmd, 'w') {
            if self.documents.len() > 0 {
                self.save_as_path(trim(rest))
            } else {
                Vec::new()
            }
        } else {
            let mut m = UNKNOWN_COMMAND.to_owned();
            m.append(cmd);
            self.report(m.as_str());
            Vec::new()
        };
        proof {
            reveal(vim_command_done);
        }
        effects
    }
}

/// The vim mode after a key in normal mode (`normal_mode_after`).
fn vim_mode_after(k: KeyCode) -> (m: VimSubMode)
    ensures
        m == normal_mode_after(k),
{
    match k {
        KeyCode::Char(c) => if c == 'i' || c == 'a' || c == 'o' || c == 'O' {
            VimSubMode::Insert
        } else if c == 'v' {
            VimSubMode::Visual
        } else if c == ':' {
            VimSubMode::Command
        } else {
            VimSubMode::Normal
        },
        _ => VimSubMode::Normal,
    }
}

impl App {
    /// Shows `msg` on the status line.
    #[verifier::rlimit(50)]
    pub fn report(&mut self, msg: &str)
        ensures
            reported(*old(self), *final(self), msg@),
            final(self).documents == old(self).documents,
            final(self).active_tab == old(self).active_tab,
    {
        self.set_status(msg);
        proof {
            reveal(reported);
        }
    }

    /// Switches to the vim mode `mode`.
    #[verifier::rlimit(50)]
    fn set_vim_mode(&mut self, mode: VimSubMode)
        ensures
            final(self).wf() == old(self).wf(),
            mode_set(*old(self), *final(self), mode),
    {
        self.vim_mode = mode;
        proof {
            reveal(mode_set);
        }
    }

    /// Carries out `op`, if any, then switches to the vim mode `mode`.
    fn op_then_set_mode(&mut self, op: Option<DocOp>, mode: VimSubMode)
        requires
            old(self).wf(),
            op_allowed(*old(self), op),
        ensures
            final(self).wf(),
            op_then_mode(*old(self), *final(self), op, mode),
    {
        self.apply_op(op);
        self.set_vim_mode(mode);
    }

    /// Opens the vim command line.
    #[verifier::rlimit(50)]
    fn open_command_line(&mut self)
        ensures
            final(self).wf() == old(self).wf(),
            command_opened(*old(self), *final(self)),
    {
        self.vim_mode = VimSubMode::Command;
        self.vim_command_buffer = String::new();
        proof {
            reveal(command_opened);
        }
    }

    /// Starts a search with an empty query.
    #[verifier::rlimit(50)]
    pub fn open_search(&mut self)
        ensures
            final(self).wf() == old(self).wf(),
            search_opened(*old(self), *final(self)),
    {
        self.searching = true;
        self.search_query = String::new();
        proof {
            reveal(search_opened);
        }
    }

    /// A key in vim's normal mode.
    fn vim_normal_key(&mut self, k: KeyCode)
        requires
            old(self).wf(),
            old(self).vim_mode == VimSubMode::Normal,
            op_allowed(*old(self), normal_op_of(k)),
        ensures
            final(self).wf(),
            vim_normal_step(*old(self), *final(self), k),
    {
        if k == KeyCode::Char(':') {
            self.open_command_line();
        } else if k == KeyCode::Char('/') {
            self.open_search();
        } else {
            let op = vim_normal_op(k);
            let mode = vim_mode_after(k);
            self.op_then_set_mode(op, mode);
        }
    }

    /// A key in vim's insert mode.
    fn vim_insert_key(&mut self, k: KeyCode)
        requires
            old(self).wf(),
            op_allowed(*old(self), insert_op_of(k)),
        ensures
            final(self).wf(),
            vim_insert_step(*old(self), *final(self), k),
    {
        if k == KeyCode::Esc {
            self.set_vim_mode(VimSubMode::Normal);
        } else {
            let op = vim_insert_op(k);
            self.apply_op(op);
        }
    }

    /// Enter in vim's command mode: runs the command line.
    fn run_command_line(&mut self) -> (effects: Vec<Effect>)
        requires
            old(self).wf(),
        ensures
            final(self).wf(),
            command_run(*old(self), *final(self), effects@),
    {
        let ghost a0 = *self;
        let cmd = self.vim_command_buffer.clone();
        self.set_vim_mode(VimSubMode::Normal);
        let ghost m = *self;
        let e = self.execute_vim_command(cmd.as_str());
        let ghost x = *self;
        self.clear_command_line();
        proof {
            assert(mode_set(a0, m, VimSubMode::Normal));
            assert(command_cleared(x, *self));
        }
        e
    }

    /// Empties the vim command line.
    fn clear_command_line(&mut self)
        ensures
            final(self).wf() == old(self).wf(),
            command_cleared(*old(self), *final(self)),
    {
        self.vim_command_buffer = String::new();
        proof {
            reveal(command_cleared);
        }
    }

    /// Esc in vim's command mode.
    #[verifier::rlimit(90)]
    fn close_command_line(&mut self)
        ensures
            final(self).wf() == old(self).wf(),
            command_closed(*old(self), *final(self)),
    {
        self.vim_mode = VimSubMode::Normal;
        self.vim_command_buffer = String::new();
        proof {
            reveal(command_closed);
        }
    }

    /// Types `c` on the vim command line.
    #[verifier::rlimit(50)]
    fn type_command(&mut self, c: char)
        ensures
            final(self).wf() == old(self).wf(),
            command_typed(*old(self), *final(self), c),
    {
        crate::text::push_char(&mut self.vim_command_buffer, c);
        proof {
            reveal(command_typed);
        }
    }

    /// Erases the last character of the vim command line.
    #[verifier::rlimit(50)]
    fn erase_command(&mut self)
        ensures
            final(self).wf() == old(self).wf(),
            command_erased(*old(self), *final(self)),
    {
        crate::text::pop_char(&mut self.vim_command_buffer);
        let empty = self.vim_command_buffer.as_str().unicode_len() == 0;
        self.vim_mode = if empty {
            VimSubMode::Normal
        } else {
            self.vim_mode
        };
        proof {
            reveal(command_erased);
        }
    }

    /// A key in vim's command mode.
    fn vim_command_key(&mut self, k: KeyCode) -> (effects: Vec<Effect>)
        requires
            old(self).wf(),
        ensures
            final(self).wf(),
            vim_command_step(*old(self), *final(self), k, effects@),
    {
        match k {
            KeyCode::Esc => {
                self.close_command_line();
                Vec::new()
            },
            KeyCode::Enter => self.run_command_line(),
            KeyCode::Char(c) => {
                self.type_command(c);
                Vec::new()
            },
            KeyCode::Backspace => {
                self.erase_command();
                Vec::new()
            },
            _ => Vec::new(),
        }
    }

    /// Handles a key in vim mode.
    pub fn handle_vim_input(&mut self, key: KeyEvent) -> (effects: Vec<Effect>)
        requires
            old(self).wf(),
            vim_key_ok(*old(self), key.code),
        ensures
            final(self).wf(),
            vim_step(*old(self), *final(self), key.code, effects@),
    {
        if self.documents.len() == 0 {
            Vec::new()
        } else {
            match self.vim_mode {
                VimSubMode::Normal => {
                    self.vim_normal_key(key.code);
                    Vec::new()
                },
                VimSubMode::Insert => {
                    self.vim_insert_key(key.code);
                    Vec::new()
                },
                VimSubMode::Command => self.vim_command_key(key.code),
                VimSubMode::Visual => {
                    if key.code == KeyCode::Esc {
                        self.set_vim_mode(VimSubMode::Normal);
                    }
                    Vec::new()
                },
            }
        }
    }
}

/// What a key does to the document in nano mode: characters are typed
/// (unless Ctrl is held), the other keys edit or move.
pub open spec fn nano_op_of(key: KeyEvent) -> Option<DocOp> {
    match key.code {
        KeyCode::Char(c) => if key.ctrl {
            None
        } else {
            Some(DocOp::Type(c))
        },
        KeyCode::Enter => Some(DocOp::Newline),
        _ => plain_op_of(key.code),
    }
}

/// The editing and moving keys that nano and Aether modes share.
pub open spec fn plain_op_of(k: KeyCode) -> Option<DocOp> {
    match k {
        KeyCode::Backspace => Some(DocOp::Backspace),
        KeyCode::Delete => Some(DocOp::Delete),
        KeyCode::Left => Some(DocOp::Left),
        KeyCode::Right => Some(DocOp::Right),
        KeyCode::Up => Some(DocOp::Up),
        KeyCode::Down => Some(DocOp::Down),
        KeyCode::Home => Some(DocOp::LineStart),
        KeyCode::End => Some(DocOp::LineEnd),
        KeyCode::PageUp => Some(DocOp::PageUp),
        KeyCode::PageDown => Some(DocOp::PageDown),
        KeyCode::Tab => Some(DocOp::Indent),
        _ => None,
    }
}

/// What a key does to the document in Aether mode: Alt with `h j k l w b`
/// moves, `d` deletes the line, `u` undoes, `0` and `$` go to the line's
/// ends; without Alt, characters are typed with their closing partner,
/// Enter keeps the indentation, and the other keys act as in nano mode.
pub open spec fn aether_op_of(key: KeyEvent) -> Option<DocOp> {
    if key.alt {
        match key.code {
            KeyCode::Char(c) => if c == 'h' {
                Some(DocOp::Left)
            } else if c == 'j' {
                Some(DocOp::Down)
            } else if c == 'k' {
                Some(DocOp::Up)
            } else if c == 'l' {
                Some(DocOp::Right)
            } else if c == 'w' {
                Some(DocOp::WordForward)
            } else if c == 'b' {
                Some(DocOp::WordBackward)
            } else if c == 'd' {
                Some(DocOp::DeleteLine)
            } else if c == 'u' {
                Some(DocOp::Undo)
            } else if c == '0' {
                Some(DocOp::LineStart)
            } else if c == '$' {
                Some(DocOp::LineEnd)
            } else {
                None
            },
            _ => None,
        }
    } else {
        match key.code {
            KeyCode::Char(c) => if key.ctrl {
                None
            } else {
                Some(DocOp::TypePaired(c))
            },
            KeyCode::Enter => Some(DocOp::SmartNewline),
            _ => plain_op_of(key.code),
        }
    }
}

/// `plain_op_of`.
fn plain_op(k: KeyCode) -> (r: Option<DocOp>)
    ensures
        r == plain_op_of(k),
{
    match k {
        KeyCode::Backspace => Some(DocOp::Backspace),
        KeyCode::Delete => Some(DocOp::Delete),
        KeyCode::Left => Some(DocOp::Left),
        KeyCode::Right => Some(DocOp::Right),
        KeyCode::Up => Some(DocOp::Up),
        KeyCode::Down => Some(DocOp::Down),
        KeyCode::Home => Some(DocOp::LineStart),
        KeyCode::End => Some(DocOp::LineEnd),
        KeyCode::PageUp => Some(DocOp::PageUp),
        KeyCode::PageDown => Some(DocOp::PageDown),
        KeyCode::Tab => Some(DocOp::Indent),
        _ => None,
    }
}

/// `nano_op_of`.
pub fn nano_op(key: KeyEvent) -> (r: Option<DocOp>)
    ensures
        r == nano_op_of(key),
{
    match key.code {
        KeyCode::Char(c) => if key.ctrl {
            None
        } else {
            Some(DocOp::Type(c))
        },
        KeyCode::Enter => Some(DocOp::Newline),
        _ => plain_op(key.code),
    }
}

/// `aether_op_of`.
pub fn aether_op(key: KeyEvent) -> (r: Option<DocOp>)
    ensures
        r == aether_op_of(key),
{
    if key.alt {
        match key.code {
            KeyCode::Char(c) => if c == 'h' {
                Some(DocOp::Left)
            } else if c == 'j' {
                Some(DocOp::Down)
            } else if c == 'k' {
                Some(DocOp::Up)
            } else if c == 'l' {
                Some(DocOp::Right)
            } else if c == 'w' {
                Some(DocOp::WordForward)
            } else if c == 'b' {
                Some(DocOp::WordBackward)
            } else if c == 'd' {
                Some(DocOp::DeleteLine)
            } else if c == 'u' {
                Some(DocOp::Undo)
            } else if c == '0' {
                Some(DocOp::LineStart)
            } else if c == '$' {
                Some(DocOp::LineEnd)
            } else {
                None
            },
            _ => None,
        }
    } else {
        match key.code {
            KeyCode::Char(c) => if key.ctrl {
                None
            } else {
                Some(DocOp::TypePaired(c))
            },
            KeyCode::Enter => Some(DocOp::SmartNewline),
            _ => plain_op(key.code),
        }
    }
}

/// The Ctrl shortcuts of the editor: `p t s w q n f g` and Tab.
pub open spec fn is_ctrl_shortcut(k: KeyCode) -> bool {
    match k {
        KeyCode::Char(c) => c == 'p' || c == 't' || c == 's' || c == 'w' || c == 'q' || c == 'n'
            || c == 'f' || c == 'g',
        KeyCode::Tab => true,
        _ => false,
    }
}

/// The popup menu an Alt shortcut opens: `m` the edit modes, `a` the AI
/// models, `t` the themes.
pub open spec fn alt_popup_of(k: KeyCode) -> Option<PopupMenuType> {
    if k == KeyCode::Char('m') {
        Some(PopupMenuType::Mode)
    } else if k == KeyCode::Char('a') {
        Some(PopupMenuType::AiModel)
    } else if k == KeyCode::Char('t') {
        Some(PopupMenuType::Theme)
    } else {
        None
    }
}

/// `a1` is `a0` showing a fresh command palette.
#[verifier::opaque]
pub open spec fn palette_opened(a0: App, a1: App) -> bool {
    let p = a1.command_palette;
    &&& p.query@.len() == 0
    &&& p.selected == 0
    &&& p.scroll == 0
    &&& p.commands@.len() == 20
    &&& p.filtered@ == all_indices(20)
    &&& a1 == (App { command_palette: p, screen: AppScreen::CommandPalette, ..a0 })
}

/// `a1` is `a0` with the file tree shown or hidden the other way.
#[verifier::opaque]
pub open spec fn tree_toggled(a0: App, a1: App) -> bool {
    a1 == (App { show_file_tree: !a0.show_file_tree, ..a0 })
}

/// `a1` is `a0` after closing the open tab.
#[verifier::opaque]
pub open spec fn tab_closed(a0: App, a1: App) -> bool {
    closed_tab(a0, a1) && tabs_only_changed(a0, a1)
}

/// `a1` is `a0` about to quit.
#[verifier::opaque]
pub open spec fn quit_set(a0: App, a1: App) -> bool {
    a1 == (App { should_quit: true, ..a0 })
}

/// `a1` is `a0` with a new untitled document opened in a new tab.
#[verifier::opaque]
pub open spec fn new_file_opened(a0: App, a1: App) -> bool {
    &&& a1.documents@.len() == a0.documents@.len() + 1
    &&& a1.documents@.drop_last() == a0.documents@
    &&& a1.active_tab == a0.documents@.len()
    &&& a1.status_message@ == "New file created"@
    &&& a1 == (App {
        documents: a1.documents,
        active_tab: a1.active_tab,
        screen: AppScreen::Editor,
        status_message: a1.status_message,
        status_fresh: true,
        ..a0
    })
}

/// `a1` is `a0` no longer searching.
#[verifier::opaque]
pub open spec fn search_closed(a0: App, a1: App) -> bool {
    a1 == (App { searching: false, ..a0 })
}

/// `a1` is `a0` on the next tab (wrapping around), if any.
#[verifier::opaque]
pub open spec fn tab_advanced(a0: App, a1: App) -> bool {
    if a0.documents@.len() == 0 {
        a1 == a0
    } else {
        a1 == (App {
            active_tab: ((a0.active_tab + 1) % (a0.documents@.len() as int)) as usize,
            ..a0
        })
    }
}

/// `a1` is `a0` after moving the open document's cursor to the next match of
/// the search query (when a document is open and the query is not empty).
#[verifier::opaque]
pub open spec fn search_advanced(a0: App, a1: App) -> bool {
    if a0.documents@.len() > 0 && a0.search_query@.len() > 0 {
        &&& a1.documents@.len() == a0.documents@.len()
        &&& searched(a0.active(), a1.active(), a0.search_query@)
        &&& a1.documents@ == a0.documents@.update(a0.active_tab as int, a1.active())
        &&& a1 == (App { documents: a1.documents, ..a0 })
    } else {
        a1 == a0
    }
}

/// `a1` is `a0` with `c` added to the search query.
#[verifier::opaque]
pub open spec fn query_typed(a0: App, a1: App, c: char) -> bool {
    &&& a1.search_query@ == a0.search_query@.push(c)
    &&& a1 == (App { search_query: a1.search_query, ..a0 })
}

/// `a1` is `a0` with the last character of the search query erased.
#[verifier::opaque]
pub open spec fn query_erased(a0: App, a1: App) -> bool {
    let q = a0.search_query@;
    &&& a1.search_query@ == if q.len() > 0 {
        q.drop_last()
    } else {
        q
    }
    &&& a1 == (App { search_query: a1.search_query, ..a0 })
}

/// `a1` and `effects` after a Ctrl shortcut: `p` the command palette, `t`
/// the file tree, `s` save, `w` close the tab, `q` quit, `n` new file, `f`
/// search on or off, `g` go to line, Tab the next tab.
pub open spec fn ctrl_step(a0: App, a1: App, k: KeyCode, effects: Seq<Effect>) -> bool {
    if k == KeyCode::Char('s') {
        save_step(a0, a1, effects)
    } else {
        &&& effects.len() == 0
        &&& if k == KeyCode::Char('p') {
            palette_opened(a0, a1)
        } else if k == KeyCode::Char('t') {
            tree_toggled(a0, a1)
        } else if k == KeyCode::Char('w') {
            tab_closed(a0, a1)
        } else if k == KeyCode::Char('q') {
            quit_set(a0, a1)
        } else if k == KeyCode::Char('n') {
            new_file_opened(a0, a1)
        } else if k == KeyCode::Char('f') {
            if a0.searching {
                search_closed(a0, a1)
            } else {
                search_opened(a0, a1)
            }
        } else if k == KeyCode::Char('g') {
            go_to_line_opened(a0, a1)
        } else {
            tab_advanced(a0, a1)
        }
    }
}

/// `a1` is `a0` after `k` while searching: Esc stops, Enter goes to the next
/// match, typing edits the query.
pub open spec fn search_step(a0: App, a1: App, k: KeyCode) -> bool {
    match k {
        KeyCode::Esc => search_closed(a0, a1),
        KeyCode::Enter => search_advanced(a0, a1),
        KeyCode::Char(c) => query_typed(a0, a1, c),
        KeyCode::Backspace => query_erased(a0, a1),
        _ => a1 == a0,
    }
}

/// `a1` and `effects` after `key` in the edit mode of `a0`.
pub open spec fn mode_step(a0: App, a1: App, key: KeyEvent, effects: Seq<Effect>) -> bool {
    match a0.edit_mode {
        EditMode::Vim => vim_step(a0, a1, key.code, effects),
        EditMode::Nano => effects.len() == 0 && op_step(a0, a1, nano_op_of(key)),
        EditMode::Emacs => effects.len() == 0 && a1 == a0,
        EditMode::Aether => effects.len() == 0 && op_step(a0, a1, aether_op_of(key)),
    }
}

/// `key` can be handled in the edit mode of `a` without failing.
pub open spec fn mode_key_ok(a: App, key: KeyEvent) -> bool {
    match a.edit_mode {
        EditMode::Vim => vim_key_ok(a, key.code),
        EditMode::Nano => op_allowed(a, nano_op_of(key)),
        EditMode::Emacs => true,
        EditMode::Aether => op_allowed(a, aether_op_of(key)),
    }
}

/// `a1` and `effects` after `key` on the editor screen: the Ctrl and Alt
/// shortcuts and F5 (next theme) come first, then the search prompt when it
/// is open, then the edit mode.
pub open spec fn editor_step(a0: App, a1: App, key: KeyEvent, effects: Seq<Effect>, themes: Seq<Theme>) -> bool {
    if key.ctrl && is_ctrl_shortcut(key.code) {
        ctrl_step(a0, a1, key.code, effects)
    } else if key.alt && alt_popup_of(key.code) is Some {
        effects.len() == 0 && popup_opened(a0, a1, alt_popup_of(key.code)->0, themes)
    } else if key.code == KeyCode::F(5) {
        effects.len() == 1 && effects[0] is SaveConfig && theme_cycled(a0, a1, themes)
    } else if a0.searching {
        effects.len() == 0 && search_step(a0, a1, key.code)
    } else {
        mode_step(a0, a1, key, effects)
    }
}

/// `key` can be handled on the editor screen without failing.
pub open spec fn editor_key_ok(a: App, key: KeyEvent, themes: Seq<Theme>) -> bool {
    if key.ctrl && is_ctrl_shortcut(key.code) {
        true
    } else if key.alt && alt_popup_of(key.code) is Some {
        true
    } else if key.code == KeyCode::F(5) {
        themes.len() > 0 && a.theme_index < usize::MAX
    } else if a.searching {
        key.code == KeyCode::Enter && a.documents@.len() > 0 && a.search_query@.len() > 0
            ==> can_search(a.active())
    } else {
        mode_key_ok(a, key)
    }
}

/// `alt_popup_of`.
pub(crate) fn alt_popup(k: KeyCode) -> (r: Option<PopupMenuType>)
    ensures
        r == alt_popup_of(k),
{
    if k == KeyCode::Char('m') {
        Some(PopupMenuType::Mode)
    } else if k == KeyCode::Char('a') {
        Some(PopupMenuType::AiModel)
    } else if k == KeyCode::Char('t') {
        Some(PopupMenuType::Theme)
    } else {
        None
    }
}

/// `is_ctrl_shortcut`.
pub(crate) fn ctrl_shortcut(k: KeyCode) -> (r: bool)
    ensures
        r == is_ctrl_shortcut(k),
{
    match k {
        KeyCode::Char(c) => c == 'p' || c == 't' || c == 's' || c == 'w' || c == 'q' || c == 'n'
            || c == 'f' || c == 'g',
        KeyCode::Tab => true,
        _ => false,
    }
}

impl App {
    /// Opens a fresh command palette.
    #[verifier::rlimit(30)]
    pub fn open_palette(&mut self)
        ensures
            final(self).wf() == old(self).wf(),
            palette_opened(*old(self), *final(self)),
    {
        self.command_palette = CommandPaletteState::new();
        self.screen = AppScreen::CommandPalette;
        proof {
            reveal(palette_opened);
        }
    }

    /// Shows or hides the file tree.
    #[verifier::rlimit(30)]
    pub fn toggle_tree(&mut self)
        ensures
            final(self).wf() == old(self).wf(),
            tree_toggled(*old(self), *final(self)),
    {
        self.show_file_tree = !self.show_file_tree;
        proof {
            reveal(tree_toggled);
        }
    }

    /// Closes the open tab.
    #[verifier::rlimit(30)]
    pub fn close_tab(&mut self)
        requires
            old(self).wf(),
        ensures
            final(self).wf(),
            tab_closed(*old(self), *final(self)),
    {
        self.close_current_tab();
        proof {
            reveal(tab_closed);
        }
    }

    /// Asks to quit.
    #[verifier::rlimit(30)]
    pub fn quit(&mut self)
        ensures
            final(self).wf() == old(self).wf(),
            quit_set(*old(self), *final(self)),
    {
        self.should_quit = true;
        proof {
            reveal(quit_set);
        }
    }

    /// Opens a new untitled document.
    #[verifier::rlimit(30)]
    pub fn open_new_file(&mut self)
        requires
            old(self).wf(),
        ensures
            final(self).wf(),
            new_file_opened(*old(self), *final(self)),
    {
        self.new_file();
        proof {
            reveal(new_file_opened);
        }
    }

    /// Stops searching.
    #[verifier::rlimit(30)]
    pub fn close_search(&mut self)
        ensures
            final(self).wf() == old(self).wf(),
            search_closed(*old(self), *final(self)),
    {
        self.searching = false;
        proof {
            reveal(search_closed);
        }
    }

    /// Goes to the next tab.
    #[verifier::rlimit(30)]
    pub fn advance_tab(&mut self)
        requires
            old(self).wf(),
        ensures
            final(self).wf(),
            tab_advanced(*old(self), *final(self)),
    {
        self.next_tab();
        proof {
            reveal(tab_advanced);
        }
    }

    /// Moves the open document's cursor to the next match of the query.
    #[verifier::rlimit(30)]
    pub fn find_in_active(&mut self)
        requires
            old(self).wf(),
            old(self).documents@.len() > 0 && old(self).search_query@.len() > 0 ==> can_search(
                old(self).active(),
            ),
        ensures
            final(self).wf(),
            search_advanced(*old(self), *final(self)),
    {
        let ghost a0 = *self;
        if self.documents.len() > 0 && self.search_query.as_str().unicode_len() > 0 {
            let t = self.active_tab;
            let mut docs: Vec<Document> = Vec::new();
            std::mem::swap(&mut docs, &mut self.documents);
            let mut d = Document::new();
            docs.set_and_swap(t, &mut d);
            d.find_next(self.search_query.as_str());
            docs.set(t, d);
            self.documents = docs;
            proof {
                assert(self.documents@ == a0.documents@.update(t as int, self.active()));
                assert(*self == App { documents: self.documents, ..a0 });
            }
        }
        proof {
            reveal(search_advanced);
        }
    }

    /// Adds `c` to the search query.
    #[verifier::rlimit(30)]
    pub fn type_query(&mut self, c: char)
        ensures
            final(self).wf() == old(self).wf(),
            query_typed(*old(self), *final(self), c),
    {
        crate::text::push_char(&mut self.search_query, c);
        proof {
            reveal(query_typed);
        }
    }

    /// Erases the last character of the search query.
    #[verifier::rlimit(30)]
    pub fn erase_query(&mut self)
        ensures
            final(self).wf() == old(self).wf(),
            query_erased(*old(self), *final(self)),
    {
        crate::text::pop_char(&mut self.search_query);
        proof {
            reveal(query_erased);
        }
    }

    /// A Ctrl shortcut.
    fn ctrl_key(&mut self, k: KeyCode) -> (effects: Vec<Effect>)
        requires
            old(self).wf(),
            is_ctrl_shortcut(k),
        ensures
            final(self).wf(),
            ctrl_step(*old(self), *final(self), k, effects@),
    {
        if k == KeyCode::Char('s') {
            self.save_effects()
        } else {
            if k == KeyCode::Char('p') {
                self.open_palette();
            } else if k == KeyCode::Char('t') {
                self.toggle_tree();
            } else if k == KeyCode::Char('w') {
                self.close_tab();
            } else if k == KeyCode::Char('q') {
                self.quit();
            } else if k == KeyCode::Char('n') {
                self.open_new_file();
            } else if k == KeyCode::Char('f') {
                if self.searching {
                    self.close_search();
                } else {
                    self.open_search();
                }
            } else if k == KeyCode::Char('g') {
                self.open_go_to_line();
            } else {
                self.advance_tab();
            }
            Vec::new()
        }
    }

    /// A key while the search prompt is open.
    fn search_key(&mut self, k: KeyCode)
        requires
            old(self).wf(),
            k == KeyCode::Enter && old(self).documents@.len() > 0 && old(self).search_query@.len()
                > 0 ==> can_search(old(self).active()),
        ensures
            final(self).wf(),
            search_step(*old(self), *final(self), k),
    {
        match k {
            KeyCode::Esc => self.close_search(),
            KeyCode::Enter => self.find_in_active(),
            KeyCode::Char(c) => self.type_query(c),
            KeyCode::Backspace => self.erase_query(),
            _ => {},
        }
    }

    /// Handles a key in nano mode.
    pub fn handle_nano_input(&mut self, key: KeyEvent)
        requires
            old(self).wf(),
            op_allowed(*old(self), nano_op_of(key)),
        ensures
            final(self).wf(),
            op_step(*old(self), *final(self), nano_op_of(key)),
    {
        let op = nano_op(key);
        self.apply_op(op);
    }

    /// Handles a key in Aether mode.
    pub fn handle_aether_input(&mut self, key: KeyEvent)
        requires
            old(self).wf(),
            op_allowed(*old(self), aether_op_of(key)),
        ensures
            final(self).wf(),
            op_step(*old(self), *final(self), aether_op_of(key)),
    {
        let op = aether_op(key);
        self.apply_op(op);
    }

    /// Handles a key in Emacs mode (no key does anything yet).
    pub fn handle_emacs_input(&mut self, key: KeyEvent)
        ensures
            *final(self) == *old(self),
    {
    }

    /// A key in the edit mode.
    fn mode_key(&mut self, key: KeyEvent) -> (effects: Vec<Effect>)
        requires
            old(self).wf(),
            mode_key_ok(*old(self), key),
        ensures
            final(self).wf(),
            mode_step(*old(self), *final(self), key, effects@),
    {
        match self.edit_mode {
            EditMode::Vim => self.handle_vim_input(key),
            EditMode::Nano => {
                self.handle_nano_input(key);
                Vec::new()
            },
            EditMode::Emacs => {
                self.handle_emacs_input(key);
                Vec::new()
            },
            EditMode::Aether => {
                self.handle_aether_input(key);
                Vec::new()
            },
        }
    }

    /// Handles a key on the editor screen.
    pub fn handle_editor_input(&mut self, key: KeyEvent, themes: &Vec<Theme>) -> (effects: Vec<Effect>)
        requires
            old(self).wf(),
            editor_key_ok(*old(self), key, themes@),
        ensures
            final(self).wf(),
            editor_step(*old(self), *final(self), key, effects@, themes@),
    {
        if key.ctrl && ctrl_shortcut(key.code) {
            self.ctrl_key(key.code)
        } else if key.alt && alt_popup(key.code).is_some() {
            let t = alt_popup(key.code).unwrap();
            self.open_popup_menu(t, themes);
            Vec::new()
        } else if key.code == KeyCode::F(5) {
            let e = self.cycle_theme(themes);
            let mut effects: Vec<Effect> = Vec::new();
            effects.push(e);
            effects
        } else if self.searching {
            self.search_key(key.code);
            Vec::new()
        } else {
            self.mode_key(key)
        }
    }
}

} // verus!
