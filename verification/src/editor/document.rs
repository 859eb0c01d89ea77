//! A document: a buffer with its cursor, file path and state.
use vstd::prelude::*;
use crate::editor::buffer::{
    backspace_ok, backspace_target, delete_char_ok, deletes, insert_char_ok, join_lines,
    lines_backspace, lines_delete_char, lines_delete_line, lines_insert_char, lines_insert_line,
    lines_split, snapshot_taken, undo_target, undone, with_lines, buffer_lines_of, Buffer,
    BufferView,
};
use crate::editor::cursor::{clamped, line_at, moved, skip_space, Cursor};
use crate::path::{ext_range, extension_of, file_name_of, name_range};
use crate::text::{
    byte_len, chars_of, find_bytes, find_from, is_boundary, is_whitespace, lemma_find_from_spec,
    lemma_utf8_nonempty, occurs_at, text_eq, text_len, utf8,
};

verus! {

/// The file type named for an extension ("Plain Text" for any other).
pub open spec fn file_type_for(ext: Seq<char>) -> Seq<char> {
    if ext == "rs"@ {
        "Rust"@
    } else if ext == "py"@ {
        "Python"@
    } else if ext == "js"@ {
        "JavaScript"@
    } else if ext == "ts"@ {
        "TypeScript"@
    } else if ext == "jsx"@ || ext == "tsx"@ {
        "React"@
    } else if ext == "html"@ || ext == "htm"@ {
        "HTML"@
    } else if ext == "css"@ {
        "CSS"@
    } else if ext == "json"@ {
        "JSON"@
    } else if ext == "toml"@ {
        "TOML"@
    } else if ext == "yaml"@ || ext == "yml"@ {
        "YAML"@
    } else if ext == "md"@ {
        "Markdown"@
    } else if ext == "sh"@ || ext == "bash"@ {
        "Shell"@
    } else if ext == "c"@ {
        "C"@
    } else if ext == "cpp"@ || ext == "cc"@ || ext == "cxx"@ {
        "C++"@
    } else if ext == "h"@ || ext == "hpp"@ {
        "Header"@
    } else if ext == "go"@ {
        "Go"@
    } else if ext == "java"@ {
        "Java"@
    } else if ext == "rb"@ {
        "Ruby"@
    } else if ext == "lua"@ {
        "Lua"@
    } else if ext == "zig"@ {
        "Zig"@
    } else if ext == "xml"@ {
        "XML"@
    } else if ext == "sql"@ {
        "SQL"@
    } else if ext == "txt"@ {
        "Text"@
    } else {
        "Plain Text"@
    }
}

/// The file type named for extension `ext` ("Plain Text" for any other).
pub fn file_type_for_ext(ext: &str) -> (t: String)
    ensures
        t@ == file_type_for(ext@),
{
    if text_eq(ext, "rs") {
        return "Rust".to_owned();
    }
    if text_eq(ext, "py") {
        return "Python".to_owned();
    }
    if text_eq(ext, "js") {
        return "JavaScript".to_owned();
    }
    if text_eq(ext, "ts") {
        return "TypeScript".to_owned();
    }
    if text_eq(ext, "jsx") || text_eq(ext, "tsx") {
        return "React".to_owned();
    }
    if text_eq(ext, "html") || text_eq(ext, "htm") {
        return "HTML".to_owned();
    }
    if text_eq(ext, "css") {
        return "CSS".to_owned();
    }
    if text_eq(ext, "json") {
        return "JSON".to_owned();
    }
    if text_eq(ext, "toml") {
        return "TOML".to_owned();
    }
    if text_eq(ext, "yaml") || text_eq(ext, "yml") {
        return "YAML".to_owned();
    }
    if text_eq(ext, "md") {
        return "Markdown".to_owned();
    }
    if text_eq(ext, "sh") || text_eq(ext, "bash") {
        return "Shell".to_owned();
    }
    if text_eq(ext, "c") {
        return "C".to_owned();
    }
    if text_eq(ext, "cpp") || text_eq(ext, "cc") || text_eq(ext, "cxx") {
        return "C++".to_owned();
    }
    if text_eq(ext, "h") || text_eq(ext, "hpp") {
        return "Header".to_owned();
    }
    if text_eq(ext, "go") {
        return "Go".to_owned();
    }
    if text_eq(ext, "java") {
        return "Java".to_owned();
    }
    if text_eq(ext, "rb") {
        return "Ruby".to_owned();
    }
    if text_eq(ext, "lua") {
        return "Lua".to_owned();
    }
    if text_eq(ext, "zig") {
        return "Zig".to_owned();
    }
    if text_eq(ext, "xml") {
        return "XML".to_owned();
    }
    if text_eq(ext, "sql") {
        return "SQL".to_owned();
    }
    if text_eq(ext, "txt") {
        return "Text".to_owned();
    }
    "Plain Text".to_owned()
}

/// The file type of a path, from its extension (`detect_file_type`).
pub open spec fn file_type_of_path(path: Seq<char>) -> Seq<char> {
    match ext_range(path) {
        Some((s, e)) => file_type_for(path.subrange(s, e)),
        None => file_type_for(Seq::empty()),
    }
}

/// The file type of `path`, named after its extension.
pub fn detect_file_type(path: &str) -> (t: String)
    ensures
        t@ == file_type_of_path(path@),
{
    match extension_of(path) {
        Some(ext) => {
            let t = file_type_for_ext(ext);
            assert(exists|s: int, e: int| ext_range(path@) == Some((s, e)) && ext@ == path@.subrange(s, e));
            assert(ext_range(path@) is Some);
            t
        },
        None => {
            proof {
                reveal_strlit("");
            }
            let t = file_type_for_ext("");
            assert(""@ == Seq::<char>::empty());
            t
        },
    }
}

/// The leading white space of a line.
pub open spec fn indent_of(l: Seq<char>) -> Seq<char> {
    l.take(skip_space(l, 0))
}

/// Where the search for `q` from (`start_row`, `start_col`) finds it on line
/// `row` of the forward pass: from `start_col` on the starting row, from the
/// start on later rows, never when the start lies at or past the line's end.
pub open spec fn forward_hit(ls: Seq<Seq<char>>, q: Seq<char>, row: int, start_row: int, start_col: int) -> Option<int> {
    let l = utf8(line_at(ls, row));
    let from = if row == start_row {
        start_col
    } else {
        0
    };
    if from < l.len() {
        find_from(l, utf8(q), from)
    } else {
        None
    }
}

/// The first hit of the forward pass at a row from `row` on.
pub open spec fn first_forward(ls: Seq<Seq<char>>, q: Seq<char>, start_row: int, start_col: int, row: int) -> Option<(int, int)>
    decreases ls.len() - row,
{
    if row < 0 || row >= ls.len() {
        None
    } else {
        match forward_hit(ls, q, row, start_row, start_col) {
            Some(p) => Some((row, p)),
            None => first_forward(ls, q, start_row, start_col, row + 1),
        }
    }
}

/// The first hit of the wrapped pass (whole lines from the top) at a row from
/// `row` to `last`.
pub open spec fn first_wrapped(ls: Seq<Seq<char>>, q: Seq<char>, row: int, last: int) -> Option<(int, int)>
    decreases last + 1 - row,
{
    if row > last {
        None
    } else {
        match find_from(utf8(line_at(ls, row)), utf8(q), 0) {
            Some(p) => Some((row, p)),
            None => first_wrapped(ls, q, row + 1, last),
        }
    }
}

/// Where `find_next` moves the cursor: the first occurrence of `q` after the
/// cursor, else the first one from the top down to the cursor's row.
pub open spec fn search_hit(ls: Seq<Seq<char>>, q: Seq<char>, row: int, col: int) -> Option<(int, int)> {
    match first_forward(ls, q, row, col + 1, row) {
        Some(h) => Some(h),
        None => first_wrapped(ls, q, 0, row),
    }
}

/// The forward pass, from a row `k` after the starting row up to a row `r`
/// that holds `q` at byte `p`, finds the first occurrence of the first row
/// from `k` on that holds `q` anywhere, and that row is at most `r`.
proof fn lemma_forward_reaches(
    ls: Seq<Seq<char>>,
    q: Seq<char>,
    start_row: int,
    start_col: int,
    k: int,
    r: int,
    p: int,
)
    requires
        0 <= start_row < k <= r < ls.len(),
        utf8(q).len() > 0,
        occurs_at(utf8(ls[r]), utf8(q), p),
    ensures
        match first_forward(ls, q, start_row, start_col, k) {
            Some((hr, hc)) => {
                &&& k <= hr <= r
                &&& occurs_at(utf8(ls[hr]), utf8(q), hc)
                &&& forall|x: int| 0 <= x < hc ==> !occurs_at(utf8(ls[hr]), utf8(q), x)
                &&& hr == r ==> hc <= p
                &&& forall|y: int, x: int| k <= y < hr ==> !occurs_at(utf8(ls[y]), utf8(q), x)
            },
            None => false,
        },
    decreases r - k,
{
    let l = utf8(ls[k]);
    let n = utf8(q);
    lemma_find_from_spec(l, n, 0);
    assert(utf8(line_at(ls, k)) == l);
    if 0 < l.len() && find_from(l, n, 0) is Some {
        assert(forward_hit(ls, q, k, start_row, start_col) == find_from(l, n, 0));
    } else {
        assert(forall|x: int| !occurs_at(l, n, x));
        assert(forward_hit(ls, q, k, start_row, start_col) is None);
        if k == r {
            assert(occurs_at(l, n, p));
        }
        lemma_forward_reaches(ls, q, start_row, start_col, k + 1, r, p);
    }
}

/// Search law: when the (non-empty) query does not occur after the cursor on
/// the cursor's line but occurs at byte `p` of a later line `r`, `find_next`
/// moves the cursor down to a later line, no further than line `r` (and no
/// further right than `p` there), onto the first occurrence of that line,
/// and no line in between holds the query at all: later lines are searched
/// from their start.
pub proof fn law_find_next_reaches_later_lines(d0: Document, d1: Document, q: Seq<char>, r: int, p: int)
    requires
        searched(d0, d1, q),
        q.len() > 0,
        d0.cursor.row < r < d0.buffer@.lines.len() <= usize::MAX,
        forall|y: int| 0 <= y < d0.buffer@.lines.len() ==> byte_len(#[trigger] d0.buffer@.lines[y]) <= usize::MAX,
        occurs_at(utf8(d0.buffer@.lines[r]), utf8(q), p),
        forall|x: int|
            d0.cursor.col < x ==> !occurs_at(utf8(d0.buffer@.lines[d0.cursor.row as int]), utf8(q), x),
    ensures
        d0.cursor.row < d1.cursor.row <= r,
        occurs_at(utf8(d0.buffer@.lines[d1.cursor.row as int]), utf8(q), d1.cursor.col as int),
        forall|x: int|
            0 <= x < d1.cursor.col ==> !occurs_at(utf8(d0.buffer@.lines[d1.cursor.row as int]), utf8(q), x),
        d1.cursor.row == r ==> d1.cursor.col <= p,
        forall|y: int, x: int|
            d0.cursor.row < y < d1.cursor.row ==> !occurs_at(utf8(d0.buffer@.lines[y]), utf8(q), x),
        d1.cursor.desired_col == d1.cursor.col,
        d1.buffer == d0.buffer,
{
    let ls = d0.buffer@.lines;
    let row = d0.cursor.row as int;
    let sc = d0.cursor.col + 1;
    lemma_utf8_nonempty(q);
    lemma_find_from_spec(utf8(ls[row]), utf8(q), sc);
    assert(utf8(line_at(ls, row)) == utf8(ls[row]));
    assert(forward_hit(ls, q, row, row, sc) is None);
    assert(first_forward(ls, q, row, sc, row) == first_forward(ls, q, row, sc, row + 1));
    lemma_forward_reaches(ls, q, row, sc, row + 1, r, p);
    let h = first_forward(ls, q, row, sc, row + 1);
    assert(search_hit(ls, q, row, d0.cursor.col as int) == h);
    let (hr, hc) = h->0;
    assert(hc + utf8(q).len() <= byte_len(ls[hr]));
    assert(d1.cursor.row as int == hr && d1.cursor.col as int == hc);
}

/// The forward pass from row `k` on finds nothing when no later row holds
/// `q` at all.
proof fn lemma_forward_none(ls: Seq<Seq<char>>, q: Seq<char>, start_row: int, start_col: int, k: int)
    requires
        0 <= start_row < k,
        forall|y: int, x: int| start_row < y < ls.len() ==> !occurs_at(utf8(ls[y]), utf8(q), x),
    ensures
        first_forward(ls, q, start_row, start_col, k) is None,
    decreases ls.len() - k,
{
    if k < ls.len() {
        lemma_find_from_spec(utf8(ls[k]), utf8(q), 0);
        assert(utf8(line_at(ls, k)) == utf8(ls[k]));
        assert(forward_hit(ls, q, k, start_row, start_col) is None);
        lemma_forward_none(ls, q, start_row, start_col, k + 1);
    }
}

/// The wrapped pass from row `k` up to `last`, where row `r` holds `q` at
/// byte `p`, finds the first occurrence of the first row from `k` on that
/// holds `q` anywhere, and that row is at most `r`.
proof fn lemma_wrapped_reaches(ls: Seq<Seq<char>>, q: Seq<char>, k: int, last: int, r: int, p: int)
    requires
        0 <= k <= r <= last < ls.len(),
        occurs_at(utf8(ls[r]), utf8(q), p),
    ensures
        match first_wrapped(ls, q, k, last) {
            Some((hr, hc)) => {
                &&& k <= hr <= r
                &&& occurs_at(utf8(ls[hr]), utf8(q), hc)
                &&& forall|x: int| 0 <= x < hc ==> !occurs_at(utf8(ls[hr]), utf8(q), x)
                &&& hr == r ==> hc <= p
                &&& forall|y: int, x: int| k <= y < hr ==> !occurs_at(utf8(ls[y]), utf8(q), x)
            },
            None => false,
        },
    decreases r - k,
{
    let l = utf8(ls[k]);
    lemma_find_from_spec(l, utf8(q), 0);
    assert(utf8(line_at(ls, k)) == l);
    if find_from(l, utf8(q), 0) is None {
        assert(forall|x: int| !occurs_at(l, utf8(q), x));
        if k == r {
            assert(occurs_at(l, utf8(q), p));
        }
        lemma_wrapped_reaches(ls, q, k + 1, last, r, p);
    }
}

/// The wrapped pass from row `k` up to `last` finds nothing when none of
/// those rows holds `q`.
proof fn lemma_wrapped_none(ls: Seq<Seq<char>>, q: Seq<char>, k: int, last: int)
    requires
        0 <= k,
        last < ls.len(),
        forall|y: int, x: int| 0 <= y <= last ==> !occurs_at(utf8(ls[y]), utf8(q), x),
    ensures
        first_wrapped(ls, q, k, last) is None,
    decreases last + 1 - k,
{
    if k <= last {
        lemma_find_from_spec(utf8(ls[k]), utf8(q), 0);
        assert(utf8(line_at(ls, k)) == utf8(ls[k]));
        lemma_wrapped_none(ls, q, k + 1, last);
    }
}

/// Search wrap law: when the query occurs neither after the cursor on its
/// line nor on any later line, but occurs at byte `p` of a line `r` at or
/// above the cursor's, `find_next` wraps to the top: the cursor lands on the
/// first line from the top that holds the query (no further down than `r`,
/// and no further right than `p` there), on that line's first occurrence.
pub proof fn law_find_next_wraps_to_top(d0: Document, d1: Document, q: Seq<char>, r: int, p: int)
    requires
        searched(d0, d1, q),
        d0.cursor.row < d0.buffer@.lines.len() <= usize::MAX,
        forall|y: int| 0 <= y < d0.buffer@.lines.len() ==> byte_len(#[trigger] d0.buffer@.lines[y]) <= usize::MAX,
        0 <= r <= d0.cursor.row,
        occurs_at(utf8(d0.buffer@.lines[r]), utf8(q), p),
        forall|x: int|
            d0.cursor.col < x ==> !occurs_at(utf8(d0.buffer@.lines[d0.cursor.row as int]), utf8(q), x),
        forall|y: int, x: int|
            d0.cursor.row < y < d0.buffer@.lines.len() ==> !occurs_at(utf8(d0.buffer@.lines[y]), utf8(q), x),
    ensures
        d1.cursor.row <= r,
        occurs_at(utf8(d0.buffer@.lines[d1.cursor.row as int]), utf8(q), d1.cursor.col as int),
        forall|x: int|
            0 <= x < d1.cursor.col ==> !occurs_at(utf8(d0.buffer@.lines[d1.cursor.row as int]), utf8(q), x),
        d1.cursor.row == r ==> d1.cursor.col <= p,
        forall|y: int, x: int| 0 <= y < d1.cursor.row ==> !occurs_at(utf8(d0.buffer@.lines[y]), utf8(q), x),
        d1.cursor.desired_col == d1.cursor.col,
        d1.buffer == d0.buffer,
{
    let ls = d0.buffer@.lines;
    let row = d0.cursor.row as int;
    let sc = d0.cursor.col + 1;
    lemma_find_from_spec(utf8(ls[row]), utf8(q), sc);
    assert(utf8(line_at(ls, row)) == utf8(ls[row]));
    assert(forward_hit(ls, q, row, row, sc) is None);
    lemma_forward_none(ls, q, row, sc, row + 1);
    assert(first_forward(ls, q, row, sc, row) is None);
    lemma_wrapped_reaches(ls, q, 0, row, r, p);
    let h = first_wrapped(ls, q, 0, row);
    assert(search_hit(ls, q, row, d0.cursor.col as int) == h);
    let (hr, hc) = h->0;
    assert(hc + utf8(q).len() <= byte_len(ls[hr]));
    assert(d1.cursor.row as int == hr && d1.cursor.col as int == hc);
}

/// Search law for a query found nowhere: when no line holds the query (past
/// the cursor on its own line included), the cursor does not move.
pub proof fn law_find_next_without_match_stays(d0: Document, d1: Document, q: Seq<char>)
    requires
        searched(d0, d1, q),
        d0.cursor.row < d0.buffer@.lines.len(),
        forall|y: int, x: int| 0 <= y < d0.buffer@.lines.len() ==> !occurs_at(utf8(d0.buffer@.lines[y]), utf8(q), x),
    ensures
        d1 == d0,
{
    let ls = d0.buffer@.lines;
    let row = d0.cursor.row as int;
    let sc = d0.cursor.col + 1;
    lemma_find_from_spec(utf8(ls[row]), utf8(q), sc);
    assert(utf8(line_at(ls, row)) == utf8(ls[row]));
    assert(forward_hit(ls, q, row, row, sc) is None);
    lemma_forward_none(ls, q, row, sc, row + 1);
    lemma_wrapped_none(ls, q, 0, row);
    assert(search_hit(ls, q, row, d0.cursor.col as int) is None);
}

/// The buffer after a snapshot at the cursor followed by an edit of the lines.
pub open spec fn edited(v: BufferView, c: Cursor, lines: Seq<Seq<char>>) -> BufferView {
    with_lines(snapshot_taken(v, c.row, c.col), lines)
}

/// Computes `search_hit` for a search for `query` from (`start_row`, `col`).
fn search_buffer(buffer: &Buffer, query: &str, start_row: usize, col: usize) -> (r: Option<(usize, usize)>)
    requires
        col < usize::MAX,
        ({
            let ls = buffer@.lines;
            start_row < ls.len() && col + 1 < byte_len(ls[start_row as int]) ==> is_boundary(ls[start_row as int], col + 1)
        }),
    ensures
        match search_hit(buffer@.lines, query@, start_row as int, col as int) {
            Some((row, c)) => r == Some((row as usize, c as usize)),
            None => r is None,
        },
{
    let ghost ls = buffer@.lines;
    let ghost q = query@;
    let start_col = col + 1;
    let needle = query.as_bytes();
    let count = buffer.line_count();
    let mut row = start_row;
    while row < count
        invariant
            ls == buffer@.lines,
            count == ls.len(),
            needle@ == utf8(q),
            q == query@,
            start_col == col + 1,
            start_row <= row,
            first_forward(ls, q, start_row as int, start_col as int, start_row as int)
                == first_forward(ls, q, start_row as int, start_col as int, row as int),
        decreases count - row,
    {
        let line = buffer.get_line(row);
        let bytes = line.as_bytes();
        let search_from = if row == start_row {
            start_col
        } else {
            0
        };
        if search_from < bytes.len() {
            if let Some(pos) = find_bytes(bytes, needle, search_from) {
                assert(forward_hit(ls, q, row as int, start_row as int, start_col as int) == Some(pos as int));
                return Some((row, pos));
            }
        }
        assert(forward_hit(ls, q, row as int, start_row as int, start_col as int) is None);
        row = row + 1;
    }
    assert(first_forward(ls, q, start_row as int, start_col as int, row as int) is None);
    let mut row: usize = 0;
    loop
        invariant
            ls == buffer@.lines,
            needle@ == utf8(q),
            q == query@,
            start_col == col + 1,
            row <= start_row,
            first_forward(ls, q, start_row as int, start_col as int, start_row as int) is None,
            first_wrapped(ls, q, 0, start_row as int) == first_wrapped(ls, q, row as int, start_row as int),
        decreases start_row - row,
    {
        let line = buffer.get_line(row);
        if let Some(pos) = find_bytes(line.as_bytes(), needle, 0) {
            assert(first_wrapped(ls, q, row as int, start_row as int) == Some((row as int, pos as int)));
            return Some((row, pos));
        }
        assert(first_wrapped(ls, q, row as int, start_row as int) == first_wrapped(ls, q, row + 1, start_row as int));
        if row == start_row {
            assert(first_wrapped(ls, q, row + 1, start_row as int) is None);
            return None;
        }
        row = row + 1;
    }
}

#[derive(Debug, Clone)]
pub struct Document {
    pub buffer: Buffer,
    pub cursor: Cursor,
    pub file_path: Option<String>,
    pub modified: bool,
    pub file_type: String,
}

/// The path of a document as characters, when it has one.
pub open spec fn path_view(p: Option<String>) -> Option<Seq<char>> {
    match p {
        Some(s) => Some(s@),
        None => None,
    }
}

/// The name a document is shown under: the file name of its path, or
/// `"[untitled]"`.
pub open spec fn doc_name(d: Document) -> Seq<char> {
    match path_view(d.file_path) {
        Some(p) => match name_range(p) {
            Some((s, e)) => p.subrange(s, e),
            None => "[untitled]"@,
        },
        None => "[untitled]"@,
    }
}

/// The document keeps its file path and type.
pub open spec fn keeps_file(d0: Document, d1: Document) -> bool {
    d1.file_path == d0.file_path && d1.file_type == d0.file_type
}

/// Typing at the cursor cuts no character in two and the column can advance.
pub open spec fn can_type(d: Document) -> bool {
    insert_char_ok(d.buffer@.lines, d.cursor.row as int, d.cursor.col as int) && d.cursor.col
        < usize::MAX
}

/// `d1` is `d0` after typing `c` (`insert_char`): a snapshot, the character
/// inserted, the cursor one byte right, modified.
pub open spec fn typed(d0: Document, d1: Document, c: char) -> bool {
    &&& d1.buffer@ == edited(
        d0.buffer@,
        d0.cursor,
        lines_insert_char(d0.buffer@.lines, d0.cursor.row as int, d0.cursor.col as int, c),
    )
    &&& d1.cursor == moved(d0.cursor, d0.cursor.row as int, d0.cursor.col + 1, d0.cursor.col + 1)
    &&& d1.modified
    &&& keeps_file(d0, d1)
}

/// `d1` is `d0` with `c` inserted at the cursor and nothing else changed
/// (`insert_char_no_move`).
pub open spec fn typed_in_place(d0: Document, d1: Document, c: char) -> bool {
    &&& d1.buffer@ == with_lines(
        d0.buffer@,
        lines_insert_char(d0.buffer@.lines, d0.cursor.row as int, d0.cursor.col as int, c),
    )
    &&& d1.cursor == d0.cursor
    &&& d1.modified == d0.modified
    &&& keeps_file(d0, d1)
}

/// Breaking the line at the cursor cuts no character and the row can advance.
pub open spec fn can_break_line(d: Document) -> bool {
    insert_char_ok(d.buffer@.lines, d.cursor.row as int, d.cursor.col as int) && d.cursor.row
        < usize::MAX
}

/// `d1` is `d0` after a line break at the cursor (`insert_newline`).
pub open spec fn broke_line(d0: Document, d1: Document) -> bool {
    &&& d1.buffer@ == edited(
        d0.buffer@,
        d0.cursor,
        lines_split(d0.buffer@.lines, d0.cursor.row as int, d0.cursor.col as int),
    )
    &&& d1.cursor == moved(d0.cursor, d0.cursor.row + 1, 0, 0)
    &&& d1.modified
    &&& keeps_file(d0, d1)
}

/// A backspace at the cursor removes a whole character.
pub open spec fn can_backspace(d: Document) -> bool {
    backspace_ok(d.buffer@.lines, d.cursor.row as int, d.cursor.col as int)
}

/// `d1` is `d0` after a backspace at the cursor (`backspace`).
pub open spec fn backspaced(d0: Document, d1: Document) -> bool {
    &&& d1.buffer@ == edited(
        d0.buffer@,
        d0.cursor,
        lines_backspace(d0.buffer@.lines, d0.cursor.row as int, d0.cursor.col as int),
    )
    &&& match backspace_target(d0.buffer@.lines, d0.cursor.row as int, d0.cursor.col as int) {
        Some((r, c)) => d1.cursor == moved(d0.cursor, r as int, c as int, c as int) && d1.modified,
        None => d1.cursor == d0.cursor && d1.modified == d0.modified,
    }
    &&& keeps_file(d0, d1)
}

/// A delete at the cursor removes a whole character.
pub open spec fn can_delete(d: Document) -> bool {
    delete_char_ok(d.buffer@.lines, d.cursor.row as int, d.cursor.col as int)
}

/// `d1` is `d0` after a delete at the cursor (`delete_char`).
pub open spec fn deleted_char(d0: Document, d1: Document) -> bool {
    &&& d1.buffer@ == edited(
        d0.buffer@,
        d0.cursor,
        lines_delete_char(d0.buffer@.lines, d0.cursor.row as int, d0.cursor.col as int),
    )
    &&& d1.cursor == d0.cursor
    &&& d1.modified == (d0.modified || deletes(
        d0.buffer@.lines,
        d0.cursor.row as int,
        d0.cursor.col as int,
    ))
    &&& keeps_file(d0, d1)
}

/// `d1` is `d0` after deleting the cursor's line (`delete_line`).
pub open spec fn deleted_line(d0: Document, d1: Document) -> bool {
    &&& d1.buffer@ == edited(
        d0.buffer@,
        d0.cursor,
        lines_delete_line(d0.buffer@.lines, d0.cursor.row as int),
    )
    &&& d1.cursor == clamped(d0.cursor, d1.buffer@.lines)
    &&& d1.modified
    &&& keeps_file(d0, d1)
}

/// `d1` is `d0` after opening an indented line below the cursor (`insert_line_below`).
pub open spec fn opened_below(d0: Document, d1: Document) -> bool {
    let ls = d0.buffer@.lines;
    let row = d0.cursor.row as int;
    let indent = indent_of(line_at(ls, row));
    &&& d1.buffer@ == edited(d0.buffer@, d0.cursor, lines_insert_line(ls, row + 1, indent))
    &&& d1.cursor == moved(d0.cursor, row + 1, byte_len(indent) as int, byte_len(indent) as int)
    &&& d1.modified
    &&& keeps_file(d0, d1)
}

/// `d1` is `d0` after opening an indented line above the cursor (`insert_line_above`).
pub open spec fn opened_above(d0: Document, d1: Document) -> bool {
    let ls = d0.buffer@.lines;
    let row = d0.cursor.row as int;
    let indent = indent_of(line_at(ls, row));
    &&& d1.buffer@ == edited(d0.buffer@, d0.cursor, lines_insert_line(ls, row, indent))
    &&& d1.cursor == moved(d0.cursor, row, byte_len(indent) as int, byte_len(indent) as int)
    &&& d1.modified
    &&& keeps_file(d0, d1)
}

/// `d1` is `d0` after an undo (`undo`).
pub open spec fn undid(d0: Document, d1: Document) -> bool {
    &&& d1.buffer@ == undone(d0.buffer@)
    &&& match undo_target(d0.buffer@) {
        Some((r, c)) => d1.cursor == moved(d0.cursor, r as int, c as int, c as int),
        None => d1.cursor == d0.cursor,
    }
    &&& d1.modified == d0.modified
    &&& keeps_file(d0, d1)
}

/// Searching from the cursor slices no character in two and the column can advance.
pub open spec fn can_search(d: Document) -> bool {
    let ls = d.buffer@.lines;
    let row = d.cursor.row as int;
    let from = d.cursor.col + 1;
    &&& d.cursor.col < usize::MAX
    &&& row < ls.len() && from < byte_len(ls[row]) ==> is_boundary(ls[row], from)
}

/// `d1` is `d0` after a search for `q` (`find_next`).
pub open spec fn searched(d0: Document, d1: Document, q: Seq<char>) -> bool {
    &&& match search_hit(d0.buffer@.lines, q, d0.cursor.row as int, d0.cursor.col as int) {
        Some((r, c)) => d1.cursor == moved(d0.cursor, r, c, c),
        None => d1.cursor == d0.cursor,
    }
    &&& d1.buffer == d0.buffer
    &&& d1.modified == d0.modified
    &&& keeps_file(d0, d1)
}

impl Document {
    /// An untitled, unmodified plain-text document with one empty line.
    pub fn new() -> (d: Self)
        ensures
            d.buffer@.lines == seq![Seq::<char>::empty()],
            d.buffer@.undo.len() == 0,
            d.buffer@.redo.len() == 0,
            d.cursor == Cursor::new_spec(),
            d.file_path is None,
            !d.modified,
            d.file_type@ == "Plain Text"@,
    {
        Document {
            buffer: Buffer::new(),
            cursor: Cursor::new(),
            file_path: None,
            modified: false,
            file_type: "Plain Text".to_owned(),
        }
    }

    /// The document for a file at `path` whose contents are `content`: its
    /// lines, the cursor at the top, unmodified, typed after the extension.
    pub fn opened(path: &str, content: &str) -> (d: Self)
        ensures
            d.buffer@.lines == buffer_lines_of(content@),
            d.buffer@.undo.len() == 0,
            d.buffer@.redo.len() == 0,
            d.cursor == Cursor::new_spec(),
            path_view(d.file_path) == Some(path@),
            !d.modified,
            d.file_type@ == file_type_of_path(path@),
    {
        let file_type = detect_file_type(path);
        Document {
            buffer: Buffer::from_text(content),
            cursor: Cursor::new(),
            file_path: Some(path.to_owned()),
            modified: false,
            file_type,
        }
    }

    /// Points the document at `path` and types it after the extension; the
    /// caller writes the file.
    pub fn set_path(&mut self, path: &str)
        ensures
            path_view(final(self).file_path) == Some(path@),
            final(self).file_type@ == file_type_of_path(path@),
            final(self).buffer == old(self).buffer,
            final(self).cursor == old(self).cursor,
            final(self).modified == old(self).modified,
    {
        self.file_path = Some(path.to_owned());
        self.file_type = detect_file_type(path);
    }

    /// Takes `path` as the document's path (and its file type from it) and
    /// returns the text to write there; `mark_saved` records a successful write.
    pub fn save_as(&mut self, path: &str) -> (text: String)
        ensures
            path_view(final(self).file_path) == Some(path@),
            final(self).file_type@ == file_type_of_path(path@),
            final(self).buffer == old(self).buffer,
            final(self).cursor == old(self).cursor,
            final(self).modified == old(self).modified,
            text@ == join_lines(old(self).buffer@.lines),
    {
        self.set_path(path);
        self.buffer.to_string()
    }

    /// Takes the outcome of writing the text `save_as` returned: a
    /// successful write leaves the document unmodified, a failed one (its
    /// error message) leaves it as it was.
    pub fn finish_save_as(&mut self, error: Option<&str>)
        ensures
            error is None ==> *final(self) == (Document { modified: false, ..*old(self) }),
            error is Some ==> *final(self) == *old(self),
    {
        if error.is_none() {
            self.modified = false;
        }
    }

    /// Records that the document's text was written to its file.
    pub fn mark_saved(&mut self)
        ensures
            *final(self) == (Document { modified: false, ..*old(self) }),
    {
        self.modified = false;
    }

    /// The file name of the document's path, `"[untitled]"` without one.
    pub fn file_name(&self) -> (n: &str)
        ensures
            n@ == doc_name(*self),
    {
        match &self.file_path {
            Some(p) => match file_name_of(p.as_str()) {
                Some(n) => n,
                None => "[untitled]",
            },
            None => "[untitled]",
        }
    }

    /// Types `c` at the cursor and moves one byte right.
    pub fn insert_char(&mut self, c: char)
        requires
            can_type(*old(self)),
        ensures
            typed(*old(self), *final(self), c),
    {
        self.buffer.save_snapshot(self.cursor.row, self.cursor.col);
        self.buffer.insert_char(self.cursor.row, self.cursor.col, c);
        self.cursor.col = self.cursor.col + 1;
        self.cursor.desired_col = self.cursor.col;
        self.modified = true;
    }

    /// Inserts `c` at the cursor without moving it, recording no history.
    pub fn insert_char_no_move(&mut self, c: char)
        requires
            insert_char_ok(old(self).buffer@.lines, old(self).cursor.row as int, old(self).cursor.col as int),
        ensures
            typed_in_place(*old(self), *final(self), c),
    {
        self.buffer.insert_char(self.cursor.row, self.cursor.col, c);
    }

    /// Breaks the line at the cursor and moves to the start of the new line.
    pub fn insert_newline(&mut self)
        requires
            can_break_line(*old(self)),
        ensures
            broke_line(*old(self), *final(self)),
    {
        self.buffer.save_snapshot(self.cursor.row, self.cursor.col);
        self.buffer.split_line(self.cursor.row, self.cursor.col);
        self.cursor.row = self.cursor.row + 1;
        self.cursor.col = 0;
        self.cursor.desired_col = 0;
        self.modified = true;
    }

    /// Deletes before the cursor (see `Buffer::backspace`) and follows with
    /// the cursor; a snapshot is recorded either way.
    pub fn backspace(&mut self)
        requires
            can_backspace(*old(self)),
        ensures
            backspaced(*old(self), *final(self)),
    {
        self.buffer.save_snapshot(self.cursor.row, self.cursor.col);
        if let Some((row, col)) = self.buffer.backspace(self.cursor.row, self.cursor.col) {
            self.cursor.row = row;
            self.cursor.col = col;
            self.cursor.desired_col = col;
            self.modified = true;
        }
    }

    /// Deletes at the cursor (see `Buffer::delete_char`); a snapshot is
    /// recorded either way.
    pub fn delete_char(&mut self)
        requires
            can_delete(*old(self)),
        ensures
            deleted_char(*old(self), *final(self)),
    {
        self.buffer.save_snapshot(self.cursor.row, self.cursor.col);
        if self.buffer.delete_char(self.cursor.row, self.cursor.col) {
            self.modified = true;
        }
    }

    /// Deletes the cursor's line and clamps the cursor into the text.
    pub fn delete_line(&mut self)
        ensures
            deleted_line(*old(self), *final(self)),
    {
        self.buffer.save_snapshot(self.cursor.row, self.cursor.col);
        self.buffer.delete_line(self.cursor.row);
        self.cursor.clamp(&self.buffer);
        self.modified = true;
    }

    /// Opens a line below the cursor's, indented like it, and moves to the
    /// end of that indentation.
    pub fn insert_line_below(&mut self)
        requires
            old(self).cursor.row < usize::MAX,
        ensures
            opened_below(*old(self), *final(self)),
    {
        self.buffer.save_snapshot(self.cursor.row, self.cursor.col);
        let indent = self.get_current_indent();
        let width = text_len(indent.as_str());
        self.buffer.insert_line(self.cursor.row + 1, indent);
        self.cursor.row = self.cursor.row + 1;
        self.cursor.col = width;
        self.cursor.desired_col = self.cursor.col;
        self.modified = true;
    }

    /// Opens a line above the cursor's, indented like it; the cursor stays on
    /// its row number and goes to the end of that indentation.
    pub fn insert_line_above(&mut self)
        ensures
            opened_above(*old(self), *final(self)),
    {
        self.buffer.save_snapshot(self.cursor.row, self.cursor.col);
        let indent = self.get_current_indent();
        let width = text_len(indent.as_str());
        self.buffer.insert_line(self.cursor.row, indent);
        self.cursor.col = width;
        self.cursor.desired_col = self.cursor.col;
        self.modified = true;
    }

    /// Undoes the last recorded change and puts the cursor where it was.
    pub fn undo(&mut self)
        ensures
            undid(*old(self), *final(self)),
    {
        if let Some((row, col)) = self.buffer.undo() {
            self.cursor.row = row;
            self.cursor.col = col;
            self.cursor.desired_col = col;
        }
    }

    /// The leading white space of the cursor's line.
    pub fn get_current_indent(&self) -> (indent: String)
        ensures
            indent@ == indent_of(line_at(self.buffer@.lines, self.cursor.row as int)),
    {
        let line = self.buffer.get_line(self.cursor.row);
        let chars = chars_of(line);
        let ghost cs = chars@;
        let mut k: usize = 0;
        while k < chars.len() && is_whitespace(chars[k])
            invariant
                chars@ == cs,
                k <= cs.len(),
                skip_space(cs, k as int) == skip_space(cs, 0),
            decreases cs.len() - k,
        {
            k = k + 1;
        }
        line.substring_char(0, k).to_owned()
    }

    /// Moves the cursor to the next occurrence of `query` after it, wrapping
    /// around to the top; nothing moves when there is none.
    pub fn find_next(&mut self, query: &str)
        requires
            can_search(*old(self)),
        ensures
            searched(*old(self), *final(self), query@),
    {
        if let Some((row, col)) = search_buffer(&self.buffer, query, self.cursor.row, self.cursor.col) {
            self.cursor.row = row;
            self.cursor.col = col;
            self.cursor.desired_col = self.cursor.col;
        }
    }

    /// The number of lines.
    pub fn line_count(&self) -> (n: usize)
        ensures
            n == self.buffer@.lines.len(),
    {
        self.buffer.line_count()
    }

    /// The number of characters of the whole text, line breaks included.
    pub fn char_count(&self) -> (n: usize)
        ensures
            n == join_lines(self.buffer@.lines).len(),
    {
        self.buffer.to_string().as_str().unicode_len()
    }
}

} // verus!
