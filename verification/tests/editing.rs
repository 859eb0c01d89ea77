use aether::editor::buffer::{split_lines, Buffer};
use aether::editor::cursor::Cursor;
use aether::editor::document::{detect_file_type, Document};
use aether::syntax::get_file_extension;

fn doc_with(text: &str) -> Document {
    Document::opened("notes.txt", text)
}

fn text_of(d: &Document) -> String {
    d.buffer.to_string()
}

#[test]
fn buffer_round_trips_its_text() {
    let b = Buffer::from_text("one\ntwo\nthree");
    assert_eq!(b.line_count(), 3);
    assert_eq!(b.get_line(1), "two");
    assert_eq!(b.to_string(), "one\ntwo\nthree");
}

#[test]
fn buffer_drops_carriage_returns() {
    let b = Buffer::from_text("a\r\nb\r\n");
    assert_eq!(b.get_line(0), "a");
    assert_eq!(b.get_line(1), "b");
}

#[test]
fn empty_text_has_one_empty_line() {
    let b = Buffer::from_text("");
    assert_eq!(b.line_count(), 1);
    assert_eq!(b.get_line(0), "");
    assert_eq!(split_lines("x\ny"), vec!["x".to_string(), "y".to_string()]);
}

#[test]
fn insert_and_delete_characters() {
    let mut b = Buffer::from_text("hello");
    b.insert_char(0, 5, '!');
    assert_eq!(b.get_line(0), "hello!");
    assert!(b.delete_char(0, 0));
    assert_eq!(b.get_line(0), "ello!");
    // Past the end of the text the column is clamped.
    b.insert_char(0, 100, '?');
    assert_eq!(b.get_line(0), "ello!?");
}

#[test]
fn delete_at_end_of_line_joins_the_next() {
    let mut b = Buffer::from_text("ab\ncd");
    assert!(b.delete_char(0, 2));
    assert_eq!(b.line_count(), 1);
    assert_eq!(b.get_line(0), "abcd");
    assert!(!b.delete_char(0, 4));
}

#[test]
fn backspace_at_line_start_joins_the_previous() {
    let mut b = Buffer::from_text("ab\ncd");
    assert_eq!(b.backspace(1, 0), Some((0, 2)));
    assert_eq!(b.to_string(), "abcd");
    assert_eq!(b.backspace(0, 0), None);
}

#[test]
fn split_and_insert_lines() {
    let mut b = Buffer::from_text("hello world");
    b.split_line(0, 5);
    assert_eq!(b.to_string(), "hello\n world");
    b.insert_line(1, "middle".to_string());
    assert_eq!(b.to_string(), "hello\nmiddle\n world");
    b.delete_line(0);
    assert_eq!(b.to_string(), "middle\n world");
}

#[test]
fn deleting_the_only_line_leaves_an_empty_one() {
    let mut b = Buffer::from_text("only");
    b.delete_line(0);
    assert_eq!(b.line_count(), 1);
    assert_eq!(b.get_line(0), "");
}

#[test]
fn undo_restores_the_snapshot() {
    let mut b = Buffer::from_text("abc");
    b.save_snapshot(0, 1);
    b.insert_char(0, 1, 'x');
    assert_eq!(b.get_line(0), "axbc");
    assert_eq!(b.undo(), Some((0, 1)));
    assert_eq!(b.get_line(0), "abc");
    assert_eq!(b.undo(), None);
}

#[test]
fn undo_history_keeps_the_last_hundred() {
    let mut b = Buffer::from_text("");
    for i in 0..150 {
        b.save_snapshot(0, i);
        b.insert_char(0, i, 'a');
    }
    let mut undone = 0;
    while b.undo().is_some() {
        undone += 1;
    }
    assert_eq!(undone, 100);
    assert_eq!(b.line_len(0), 50);
}

#[test]
fn multibyte_characters_are_kept_whole() {
    let mut b = Buffer::from_text("né");
    assert_eq!(b.line_len(0), 3);
    b.insert_char(0, 3, 'x');
    assert_eq!(b.get_line(0), "néx");
    assert_eq!(b.backspace(0, 4), Some((0, 3)));
    assert_eq!(b.get_line(0), "né");
}

#[test]
fn cursor_moves_within_the_text() {
    let b = Buffer::from_text("ab\nlonger line\nx");
    let mut c = Cursor::new();
    c.move_right(&b);
    c.move_right(&b);
    c.move_right(&b);
    assert_eq!((c.row, c.col), (0, 2));
    c.move_down(&b);
    assert_eq!((c.row, c.col), (1, 2));
    c.move_to_end_of_line(&b);
    assert_eq!(c.col, 11);
    c.move_to_bottom(&b);
    assert_eq!((c.row, c.col), (2, 0));
    c.move_up();
    assert_eq!((c.row, c.col), (1, 0));
    c.move_left();
    assert_eq!(c.col, 0);
}

#[test]
fn cursor_moves_by_words() {
    let b = Buffer::from_text("foo bar  baz\nnext");
    let mut c = Cursor::new();
    c.move_word_forward(&b);
    assert_eq!(c.col, 4);
    c.move_word_forward(&b);
    assert_eq!(c.col, 9);
    c.move_word_backward(&b);
    assert_eq!(c.col, 4);
    c.col = 12;
    c.move_word_forward(&b);
    assert_eq!((c.row, c.col), (0, 12));
}

#[test]
fn cursor_clamps_and_scrolls() {
    let b = Buffer::from_text("a\nbb");
    let mut c = Cursor::new();
    c.row = 9;
    c.col = 9;
    c.clamp(&b);
    assert_eq!((c.row, c.col), (1, 2));
    let mut s = Cursor::new();
    s.row = 30;
    s.update_scroll(10, 80);
    assert_eq!(s.scroll_row, 21);
    s.row = 5;
    s.update_scroll(10, 80);
    assert_eq!(s.scroll_row, 5);
}

#[test]
fn typing_in_a_document_marks_it_modified() {
    let mut d = doc_with("");
    assert!(!d.modified);
    d.insert_char('h');
    d.insert_char('i');
    assert!(d.modified);
    assert_eq!(text_of(&d), "hi");
    assert_eq!((d.cursor.row, d.cursor.col), (0, 2));
    d.undo();
    assert_eq!(text_of(&d), "h");
}

#[test]
fn newline_backspace_and_delete_in_a_document() {
    let mut d = doc_with("abcd");
    d.cursor.col = 2;
    d.insert_newline();
    assert_eq!(text_of(&d), "ab\ncd");
    assert_eq!((d.cursor.row, d.cursor.col), (1, 0));
    d.backspace();
    assert_eq!(text_of(&d), "abcd");
    assert_eq!((d.cursor.row, d.cursor.col), (0, 2));
    d.delete_char();
    assert_eq!(text_of(&d), "abd");
    d.delete_line();
    assert_eq!(text_of(&d), "");
}

#[test]
fn new_lines_keep_the_indentation() {
    let mut d = doc_with("    fn main() {");
    assert_eq!(d.get_current_indent(), "    ");
    d.insert_line_below();
    assert_eq!(text_of(&d), "    fn main() {\n    ");
    assert_eq!((d.cursor.row, d.cursor.col), (1, 4));
    d.cursor.row = 0;
    d.insert_line_above();
    assert_eq!(text_of(&d), "    \n    fn main() {\n    ");
}

#[test]
fn insert_without_moving_the_cursor() {
    let mut d = doc_with("()");
    d.cursor.col = 1;
    d.insert_char_no_move('x');
    assert_eq!(text_of(&d), "(x)");
    assert_eq!(d.cursor.col, 1);
}

#[test]
fn search_finds_the_next_match_and_wraps() {
    let mut d = doc_with("foo\nbar foo\nbaz");
    d.find_next("foo");
    assert_eq!((d.cursor.row, d.cursor.col), (1, 4));
    d.find_next("foo");
    assert_eq!((d.cursor.row, d.cursor.col), (0, 0));
    d.find_next("missing");
    assert_eq!((d.cursor.row, d.cursor.col), (0, 0));
}

#[test]
fn document_names_types_and_counts() {
    let d = Document::opened("/tmp/project/main.rs", "a\nbc");
    assert_eq!(d.file_name(), "main.rs");
    assert_eq!(d.file_type, "Rust");
    assert_eq!(d.line_count(), 2);
    assert_eq!(d.char_count(), 4);
    assert_eq!(Document::new().file_name(), "[untitled]");
    assert_eq!(detect_file_type("a/b/c.py"), "Python");
    assert_eq!(detect_file_type("README"), "Plain Text");
}

#[test]
fn save_as_takes_the_new_path() {
    let mut d = doc_with("text");
    d.insert_char('x');
    let text = d.save_as("/tmp/out.md");
    assert_eq!(text, "xtext");
    assert_eq!(d.file_path.as_deref(), Some("/tmp/out.md"));
    assert_eq!(d.file_type, "Markdown");
    assert!(d.modified);
    d.mark_saved();
    assert!(!d.modified);
}

#[test]
fn breaking_a_line_then_backspacing_joins_it() {
    let mut b = Buffer::from_text("héllo\nworld");
    b.split_line(0, 3);
    assert_eq!(b.to_string(), "hé\nllo\nworld");
    assert_eq!(b.backspace(1, 0), Some((0, 3)));
    assert_eq!(b.to_string(), "héllo\nworld");
    b.split_line(1, 99);
    assert_eq!(b.backspace(2, 0), Some((1, 5)));
    assert_eq!(b.to_string(), "héllo\nworld");
}

#[test]
fn text_read_and_written_back_is_unchanged() {
    for t in ["", "a", "a\nb", "\n\nx", "a\n\nb", "é\tz"] {
        assert_eq!(Buffer::from_text(t).to_string(), t);
    }
}

#[test]
fn undos_return_the_last_hundred_snapshots_newest_first() {
    let mut b = Buffer::new();
    for i in 0..105usize {
        b.save_snapshot(i, i + 1);
        b.insert_char(0, 0, 'x');
    }
    for i in (5..105usize).rev() {
        assert_eq!(b.undo(), Some((i, i + 1)));
    }
    assert_eq!(b.undo(), None);
    assert_eq!(b.to_string(), "xxxxx");
    let mut b = Buffer::from_text("ab");
    b.save_snapshot(0, 1);
    b.insert_char(0, 1, 'z');
    b.split_line(0, 1);
    b.delete_line(1);
    b.backspace(0, 1);
    assert_eq!(b.undo(), Some((0, 1)));
    assert_eq!(b.to_string(), "ab");
}

#[test]
fn file_types_and_extensions_round_trip() {
    for t in [
        "Rust", "Python", "JavaScript", "TypeScript", "React", "HTML", "CSS", "JSON", "TOML", "YAML",
        "Markdown", "Shell", "C", "C++", "Header", "Go", "Java", "Ruby", "Lua", "Zig", "XML", "SQL",
        "Text",
    ] {
        assert_eq!(detect_file_type(&format!("f.{}", get_file_extension(t))), t);
    }
    assert_eq!(get_file_extension("Plain Text"), "txt");
    assert_eq!(get_file_extension("rust"), "txt");
}

#[test]
fn save_as_outcomes() {
    let mut d = Document::new();
    d.insert_char('a');
    let text = d.save_as("/tmp/x.rs");
    assert_eq!(text, "a");
    assert_eq!(d.file_type, "Rust");
    d.finish_save_as(Some("disk full"));
    assert!(d.modified);
    d.finish_save_as(None);
    assert!(!d.modified);
}
