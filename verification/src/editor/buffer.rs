//! The text of a document: a list of lines with an undo history.
use vstd::prelude::*;
use crate::text::{byte_len, char_index, is_boundary, split_text, text_len, push_char, pop_char, lemma_split_at_boundary};

verus! {

/// How many snapshots the undo history keeps at most.
pub const UNDO_LIMIT: usize = 100;

/// A saved state of the text together with the cursor position it was taken at.
pub struct Snapshot {
    pub lines: Seq<Seq<char>>,
    pub row: usize,
    pub col: usize,
}

/// The abstract state of a buffer: its lines, the undo history (oldest first)
/// and the redo history.
pub struct BufferView {
    pub lines: Seq<Seq<char>>,
    pub undo: Seq<Snapshot>,
    pub redo: Seq<Snapshot>,
}

/// The characters of each string of `v`.
pub open spec fn text_of(v: Seq<String>) -> Seq<Seq<char>> {
    Seq::new(v.len(), |i: int| v[i]@)
}

/// The same buffer state with other lines.
pub open spec fn with_lines(v: BufferView, lines: Seq<Seq<char>>) -> BufferView {
    BufferView { lines: lines, undo: v.undo, redo: v.redo }
}


/// `col` moved back to the end of line `l` when it lies past it.
pub open spec fn clamp_col(l: Seq<char>, col: int) -> int {
    if col < byte_len(l) {
        col
    } else {
        byte_len(l) as int
    }
}

/// Inserting at (`row`, `col`) cuts no character in two.
pub open spec fn insert_char_ok(ls: Seq<Seq<char>>, row: int, col: int) -> bool {
    row < ls.len() ==> is_boundary(ls[row], clamp_col(ls[row], col))
}

/// `c` inserted at byte `col` of line `row` (at its end when `col` lies past
/// it); no change when the row does not exist.
pub open spec fn lines_insert_char(ls: Seq<Seq<char>>, row: int, col: int, c: char) -> Seq<
    Seq<char>,
> {
    if 0 <= row < ls.len() {
        let l = ls[row];
        ls.update(row, l.insert(char_index(l, clamp_col(l, col)), c))
    } else {
        ls
    }
}

/// Deleting at (`row`, `col`) cuts no character in two.
pub open spec fn delete_char_ok(ls: Seq<Seq<char>>, row: int, col: int) -> bool {
    row < ls.len() && col < byte_len(ls[row]) ==> is_boundary(ls[row], col)
}

/// Whether deleting at (`row`, `col`) changes anything.
pub open spec fn deletes(ls: Seq<Seq<char>>, row: int, col: int) -> bool {
    0 <= row < ls.len() && (col < byte_len(ls[row]) || row + 1 < ls.len())
}

/// The character at byte `col` of line `row` removed; at or past the end of
/// the line, the next line joined onto it.
pub open spec fn lines_delete_char(ls: Seq<Seq<char>>, row: int, col: int) -> Seq<Seq<char>> {
    if 0 <= row < ls.len() && col < byte_len(ls[row]) {
        ls.update(row, ls[row].remove(char_index(ls[row], col)))
    } else if 0 <= row < ls.len() && row + 1 < ls.len() {
        ls.update(row, ls[row] + ls[row + 1]).remove(row + 1)
    } else {
        ls
    }
}

/// Backspace at (`row`, `col`) removes a whole character that exists, and
/// joins only an existing line.
pub open spec fn backspace_ok(ls: Seq<Seq<char>>, row: int, col: int) -> bool {
    &&& (col > 0 && row < ls.len()) ==> col - 1 < byte_len(ls[row]) && is_boundary(
        ls[row],
        col - 1,
    )
    &&& (!(col > 0 && row < ls.len()) && row > 0) ==> row < ls.len()
}

/// The character that starts at byte `col - 1` removed; at the start of a line,
/// the line joined onto the previous one.
pub open spec fn lines_backspace(ls: Seq<Seq<char>>, row: int, col: int) -> Seq<Seq<char>> {
    if col > 0 && 0 <= row < ls.len() {
        ls.update(row, ls[row].remove(char_index(ls[row], col - 1)))
    } else if 0 < row < ls.len() {
        ls.update(row - 1, ls[row - 1] + ls[row]).remove(row)
    } else {
        ls
    }
}

/// Where the cursor goes after a backspace at (`row`, `col`).
pub open spec fn backspace_target(ls: Seq<Seq<char>>, row: int, col: int) -> Option<
    (usize, usize),
> {
    if col > 0 && 0 <= row < ls.len() {
        Some((row as usize, (col - 1) as usize))
    } else if 0 < row < ls.len() {
        Some(((row - 1) as usize, byte_len(ls[row - 1]) as usize))
    } else {
        None
    }
}

/// Line `row` cut at byte `col` (clamped to its end), the rest on a new line below.
pub open spec fn lines_split(ls: Seq<Seq<char>>, row: int, col: int) -> Seq<Seq<char>> {
    if 0 <= row < ls.len() {
        let l = ls[row];
        let k = char_index(l, clamp_col(l, col));
        ls.update(row, l.take(k)).insert(row + 1, l.skip(k))
    } else {
        ls
    }
}

/// `content` inserted as line `row` when `row` is at most the number of lines.
pub open spec fn lines_insert_line(ls: Seq<Seq<char>>, row: int, content: Seq<char>) -> Seq<
    Seq<char>,
> {
    if 0 <= row <= ls.len() {
        ls.insert(row, content)
    } else {
        ls
    }
}

/// Line `row` removed; the last remaining line is emptied instead.
pub open spec fn lines_delete_line(ls: Seq<Seq<char>>, row: int) -> Seq<Seq<char>> {
    if ls.len() > 1 && 0 <= row < ls.len() {
        ls.remove(row)
    } else if ls.len() == 1 {
        seq![Seq::<char>::empty()]
    } else {
        ls
    }
}

/// The lines joined with `'\n'` between consecutive lines.
pub open spec fn join_lines(ls: Seq<Seq<char>>) -> Seq<char>
    decreases ls.len(),
{
    if ls.len() == 0 {
        Seq::empty()
    } else if ls.len() == 1 {
        ls[0]
    } else {
        join_lines(ls.drop_last()) + seq!['\n'] + ls.last()
    }
}

/// The history after a snapshot of `v` taken at (`row`, `col`): the snapshot
/// is pushed, the oldest one is dropped beyond the limit, redo is cleared.
pub open spec fn snapshot_taken(v: BufferView, row: usize, col: usize) -> BufferView {
    let pushed = v.undo.push(Snapshot { lines: v.lines, row: row, col: col });
    BufferView {
        lines: v.lines,
        undo: if pushed.len() > UNDO_LIMIT {
            pushed.drop_first()
        } else {
            pushed
        },
        redo: Seq::empty(),
    }
}

/// The state after an undo: the latest snapshot's lines come back and the
/// current lines go onto the redo history.
pub open spec fn undone(v: BufferView) -> BufferView {
    if v.undo.len() == 0 {
        v
    } else {
        let s = v.undo.last();
        BufferView {
            lines: s.lines,
            undo: v.undo.drop_last(),
            redo: v.redo.push(Snapshot { lines: v.lines, row: s.row, col: s.col }),
        }
    }
}

/// The cursor position an undo returns.
pub open spec fn undo_target(v: BufferView) -> Option<(usize, usize)> {
    if v.undo.len() == 0 {
        None
    } else {
        Some((v.undo.last().row, v.undo.last().col))
    }
}

/// The lines `str::lines` yields for `s`: split at `'\n'`, a `'\r'` before a
/// `'\n'` dropped, no empty last line after a final `'\n'`.
pub open spec fn lines_of(s: Seq<char>) -> Seq<Seq<char>> {
    let p = pieces(s);
    let done = Seq::new((p.len() - 1) as nat, |i: int| strip_cr(p[i]));
    if p.last().len() == 0 {
        done
    } else {
        done.push(p.last())
    }
}

/// `s` cut at every `'\n'` (the cuts dropped); always at least one piece.
pub open spec fn pieces(s: Seq<char>) -> Seq<Seq<char>>
    decreases s.len(),
{
    if s.len() == 0 {
        seq![Seq::<char>::empty()]
    } else {
        let p = pieces(s.drop_last());
        if s.last() == '\n' {
            p.push(Seq::empty())
        } else {
            p.update(p.len() - 1, p.last().push(s.last()))
        }
    }
}

/// A line with one trailing `'\r'` removed.
pub open spec fn strip_cr(l: Seq<char>) -> Seq<char> {
    if l.len() > 0 && l.last() == '\r' {
        l.drop_last()
    } else {
        l
    }
}

/// The lines a buffer made from `s` holds: those of `s`, or one empty line.
pub open spec fn buffer_lines_of(s: Seq<char>) -> Seq<Seq<char>> {
    if lines_of(s).len() == 0 {
        seq![Seq::<char>::empty()]
    } else {
        lines_of(s)
    }
}

proof fn lemma_pieces_nonempty(s: Seq<char>)
    ensures
        pieces(s).len() >= 1,
    decreases s.len(),
{
    if s.len() > 0 {
        lemma_pieces_nonempty(s.drop_last());
    }
}

/// The lines of `text` as `str::lines` yields them.
pub fn split_lines(text: &str) -> (lines: Vec<String>)
    ensures
        text_of(lines@) == lines_of(text@),
{
    broadcast use vstd::string::group_string_axioms;

    let mut lines: Vec<String> = Vec::new();
    let mut cur = String::new();
    let ghost s = text@;
    for c in it: text.chars()
        invariant
            it.seq() == s,
            text_of(lines@) == Seq::new(
                (pieces(s.take(it.index() as int)).len() - 1) as nat,
                |i: int| strip_cr(pieces(s.take(it.index() as int))[i]),
            ),
            cur@ == pieces(s.take(it.index() as int)).last(),
    {
        let ghost idx = it.index() as int;
        let ghost p = pieces(s.take(idx));
        proof {
            lemma_pieces_nonempty(s.take(idx));
            assert(s.take(idx + 1).drop_last() =~= s.take(idx));
            assert(s.take(idx + 1).last() == c);
        }
        if c == '\n' {
            let mut finished = cur;
            cur = String::new();
            let last = pop_char(&mut finished);
            match last {
                Some(ch) => {
                    if ch != '\r' {
                        push_char(&mut finished, ch);
                        assert(finished@ =~= p.last());
                    }
                },
                None => {},
            }
            assert(finished@ == strip_cr(p.last()));
            let ghost old_text = text_of(lines@);
            lines.push(finished);
            assert(pieces(s.take(idx + 1)) == p.push(Seq::<char>::empty()));
            assert(text_of(lines@) =~= old_text.push(strip_cr(p.last())));
            assert(text_of(lines@) =~= Seq::new(
                (pieces(s.take(idx + 1)).len() - 1) as nat,
                |i: int| strip_cr(pieces(s.take(idx + 1))[i]),
            ));
            assert(cur@ =~= pieces(s.take(idx + 1)).last());
        } else {
            push_char(&mut cur, c);
            assert(text_of(lines@) =~= Seq::new(
                (pieces(s.take(idx + 1)).len() - 1) as nat,
                |i: int| strip_cr(pieces(s.take(idx + 1))[i]),
            ));
        }
    }
    proof {
        assert(s.take(s.len() as int) =~= s);
        lemma_pieces_nonempty(s);
    }
    if cur.as_str().unicode_len() > 0 {
        lines.push(cur);
    }
    assert(text_of(lines@) =~= lines_of(s));
    lines
}

#[derive(Debug, Clone)]
pub struct Buffer {
    pub lines: Vec<String>,
    undo_stack: Vec<BufferSnapshot>,
    redo_stack: Vec<BufferSnapshot>,
}

#[derive(Debug, Clone)]
struct BufferSnapshot {
    lines: Vec<String>,
    cursor_row: usize,
    cursor_col: usize,
}

impl View for BufferSnapshot {
    type V = Snapshot;

    closed spec fn view(&self) -> Snapshot {
        Snapshot { lines: text_of(self.lines@), row: self.cursor_row, col: self.cursor_col }
    }
}

impl View for Buffer {
    type V = BufferView;

    closed spec fn view(&self) -> BufferView {
        BufferView {
            lines: text_of(self.lines@),
            undo: Seq::new(self.undo_stack@.len(), |i: int| self.undo_stack@[i]@),
            redo: Seq::new(self.redo_stack@.len(), |i: int| self.redo_stack@[i]@),
        }
    }
}

impl Buffer {
    /// An empty buffer: one empty line and no history.
    pub fn new() -> (b: Self)
        ensures
            b@.lines == seq![Seq::<char>::empty()],
            b@.undo.len() == 0,
            b@.redo.len() == 0,
    {
        let b = Buffer { lines: vec![String::new()], undo_stack: Vec::new(), redo_stack: Vec::new() };
        assert(b@.lines =~= seq![Seq::<char>::empty()]);
        b
    }

    /// A buffer holding the lines of `text` (one empty line when it has none).
    pub fn from_text(text: &str) -> (b: Self)
        ensures
            b@.lines == buffer_lines_of(text@),
            b@.undo.len() == 0,
            b@.redo.len() == 0,
    {
        let mut lines = split_lines(text);
        if lines.len() == 0 {
            lines.push(String::new());
            assert(text_of(lines@) =~= seq![Seq::<char>::empty()]);
        }
        let b = Buffer { lines, undo_stack: Vec::new(), redo_stack: Vec::new() };
        assert(b@.undo =~= Seq::<Snapshot>::empty());
        assert(b@.redo =~= Seq::<Snapshot>::empty());
        b
    }

    /// Records the current lines and the cursor position (`cursor_row`,
    /// `cursor_col`) on the undo history, dropping the oldest record beyond
    /// the limit, and forgets the redo history.
    pub fn save_snapshot(&mut self, cursor_row: usize, cursor_col: usize)
        ensures
            final(self)@ == snapshot_taken(old(self)@, cursor_row, cursor_col),
    {
        let ghost v = self@;
        let copy = self.lines.clone();
        assert(text_of(copy@) =~= text_of(self.lines@)) by {
            assert forall|i: int| 0 <= i < copy@.len() implies copy@[i]@ == self.lines@[i]@ by {
                assert(cloned::<String>(self.lines[i], copy[i]));
            }
        }
        self.undo_stack.push(BufferSnapshot { lines: copy, cursor_row, cursor_col });
        if self.undo_stack.len() > UNDO_LIMIT {
            self.undo_stack.remove(0);
        }
        self.redo_stack.clear();
        assert(self@.undo =~= snapshot_taken(v, cursor_row, cursor_col).undo);
        assert(self@.redo =~= Seq::<Snapshot>::empty());
        assert(self@.lines =~= v.lines);
    }

    /// Restores the latest snapshot, moving the current lines onto the redo
    /// history; returns the cursor position of the snapshot, `None` when the
    /// history is empty.
    pub fn undo(&mut self) -> (r: Option<(usize, usize)>)
        ensures
            final(self)@ == undone(old(self)@),
            r == undo_target(old(self)@),
    {
        let ghost v = self@;
        if let Some(snapshot) = self.undo_stack.pop() {
            let copy = self.lines.clone();
            assert(text_of(copy@) =~= text_of(self.lines@)) by {
                assert forall|i: int| 0 <= i < copy@.len() implies copy@[i]@ == self.lines@[i]@ by {
                    assert(cloned::<String>(self.lines[i], copy[i]));
                }
            }
            self.redo_stack.push(
                BufferSnapshot {
                    lines: copy,
                    cursor_row: snapshot.cursor_row,
                    cursor_col: snapshot.cursor_col,
                },
            );
            let row = snapshot.cursor_row;
            let col = snapshot.cursor_col;
            self.lines = snapshot.lines;
            assert(self@.undo =~= v.undo.drop_last());
            assert(self@.redo =~= undone(v).redo);
            Some((row, col))
        } else {
            None
        }
    }

    /// The number of lines.
    pub fn line_count(&self) -> (n: usize)
        ensures
            n == self@.lines.len(),
    {
        self.lines.len()
    }

    /// The length in bytes of line `row`, 0 for a row that does not exist.
    pub fn line_len(&self, row: usize) -> (n: usize)
        ensures
            n == if row < self@.lines.len() {
                byte_len(self@.lines[row as int])
            } else {
                0
            },
    {
        if row < self.lines.len() {
            text_len(self.lines[row].as_str())
        } else {
            0
        }
    }

    /// Line `row`, empty for a row that does not exist.
    pub fn get_line(&self, row: usize) -> (l: &str)
        ensures
            l@ == if row < self@.lines.len() {
                self@.lines[row as int]
            } else {
                Seq::empty()
            },
    {
        if row < self.lines.len() {
            self.lines[row].as_str()
        } else {
            proof {
                reveal_strlit("");
            }
            ""
        }
    }

    /// Inserts `c` at byte `col` of line `row` (at the end of the line when
    /// `col` lies past it); nothing happens for a row that does not exist.
    pub fn insert_char(&mut self, row: usize, col: usize, c: char)
        requires
            insert_char_ok(old(self)@.lines, row as int, col as int),
        ensures
            final(self)@ == with_lines(
                old(self)@,
                lines_insert_char(old(self)@.lines, row as int, col as int, c),
            ),
    {
        let ghost v = self@;
        if row < self.lines.len() {
            let ghost l = v.lines[row as int];
            let line = self.lines[row].as_str();
            let n = text_len(line);
            let col = if col < n {
                col
            } else {
                n
            };
            let (mut left, right) = split_text(line, col);
            proof {
                lemma_split_at_boundary(l, col as int);
            }
            let ghost k = char_index(l, col as int);
            push_char(&mut left, c);
            left.append(right.as_str());
            assert(left@ =~= l.insert(k, c));
            self.lines.set(row, left);
            assert(self@.lines =~= lines_insert_char(v.lines, row as int, col as int, c));
        }
        assert(self@ =~= with_lines(v, lines_insert_char(v.lines, row as int, col as int, c)));
    }

    /// Deletes the character at byte `col` of line `row`; at or past the end
    /// of the line, joins the next line onto it. Returns whether anything changed.
    pub fn delete_char(&mut self, row: usize, col: usize) -> (changed: bool)
        requires
            delete_char_ok(old(self)@.lines, row as int, col as int),
        ensures
            final(self)@ == with_lines(
                old(self)@,
                lines_delete_char(old(self)@.lines, row as int, col as int),
            ),
            changed == deletes(old(self)@.lines, row as int, col as int),
    {
        let ghost v = self@;
        let count = self.lines.len();
        if row < count && col < text_len(self.lines[row].as_str()) {
            let ghost l = v.lines[row as int];
            let line = self.lines[row].as_str();
            let (mut left, right) = split_text(line, col);
            proof {
                lemma_split_at_boundary(l, col as int);
            }
            let ghost k = char_index(l, col as int);
            let rest = right.as_str();
            let tail = rest.substring_char(1, rest.unicode_len());
            left.append(tail);
            assert(left@ =~= l.remove(k));
            self.lines.set(row, left);
            assert(self@.lines =~= lines_delete_char(v.lines, row as int, col as int));
            true
        } else if row < count && row + 1 < count {
            let next = self.lines.remove(row + 1);
            let mut cur = self.lines[row].clone();
            cur.append(next.as_str());
            self.lines.set(row, cur);
            assert(self@.lines =~= lines_delete_char(v.lines, row as int, col as int));
            true
        } else {
            false
        }
    }

    /// Removes the character before byte `col` of line `row` and returns the
    /// new cursor position; at the start of a line, joins the line onto the
    /// previous one. Returns `None` when nothing changes.
    pub fn backspace(&mut self, row: usize, col: usize) -> (r: Option<(usize, usize)>)
        requires
            backspace_ok(old(self)@.lines, row as int, col as int),
        ensures
            final(self)@ == with_lines(
                old(self)@,
                lines_backspace(old(self)@.lines, row as int, col as int),
            ),
            r == backspace_target(old(self)@.lines, row as int, col as int),
    {
        let ghost v = self@;
        if col > 0 && row < self.lines.len() {
            let new_col = col - 1;
            let ghost l = v.lines[row as int];
            let line = self.lines[row].as_str();
            let (mut left, right) = split_text(line, new_col);
            proof {
                lemma_split_at_boundary(l, new_col as int);
            }
            let ghost k = char_index(l, new_col as int);
            let rest = right.as_str();
            let tail = rest.substring_char(1, rest.unicode_len());
            left.append(tail);
            assert(left@ =~= l.remove(k));
            self.lines.set(row, left);
            assert(self@.lines =~= lines_backspace(v.lines, row as int, col as int));
            Some((row, new_col))
        } else if row > 0 {
            let current = self.lines.remove(row);
            let mut prev = self.lines[row - 1].clone();
            let new_col = text_len(prev.as_str());
            prev.append(current.as_str());
            self.lines.set(row - 1, prev);
            assert(self@.lines =~= lines_backspace(v.lines, row as int, col as int));
            Some((row - 1, new_col))
        } else {
            None
        }
    }

    /// Cuts line `row` at byte `col` (clamped to its end) and moves the rest
    /// onto a new line below; nothing happens for a row that does not exist.
    pub fn split_line(&mut self, row: usize, col: usize)
        requires
            insert_char_ok(old(self)@.lines, row as int, col as int),
        ensures
            final(self)@ == with_lines(old(self)@, lines_split(old(self)@.lines, row as int, col as int)),
    {
        let ghost v = self@;
        if row < self.lines.len() {
            let ghost l = v.lines[row as int];
            let line = self.lines[row].as_str();
            let n = text_len(line);
            let col = if col < n {
                col
            } else {
                n
            };
            let (left, right) = split_text(line, col);
            self.lines.set(row, left);
            self.lines.insert(row + 1, right);
            assert(self@.lines =~= lines_split(v.lines, row as int, col as int));
        }
        assert(self@ =~= with_lines(v, lines_split(v.lines, row as int, col as int)));
    }

    /// Inserts `content` as line `row` when `row` is at most the number of lines.
    pub fn insert_line(&mut self, row: usize, content: String)
        ensures
            final(self)@ == with_lines(
                old(self)@,
                lines_insert_line(old(self)@.lines, row as int, content@),
            ),
    {
        let ghost v = self@;
        if row <= self.lines.len() {
            self.lines.insert(row, content);
            assert(self@.lines =~= lines_insert_line(v.lines, row as int, content@));
        }
        assert(self@ =~= with_lines(v, lines_insert_line(v.lines, row as int, content@)));
    }

    /// Removes line `row`; the only line is emptied instead.
    pub fn delete_line(&mut self, row: usize)
        ensures
            final(self)@ == with_lines(old(self)@, lines_delete_line(old(self)@.lines, row as int)),
    {
        let ghost v = self@;
        if self.lines.len() > 1 && row < self.lines.len() {
            self.lines.remove(row);
            assert(self@.lines =~= lines_delete_line(v.lines, row as int));
        } else if self.lines.len() == 1 {
            self.lines.set(0, String::new());
            assert(self@.lines =~= lines_delete_line(v.lines, row as int));
        }
        assert(self@ =~= with_lines(v, lines_delete_line(v.lines, row as int)));
    }

    /// The whole text: the lines joined with `'\n'`.
    pub fn to_string(&self) -> (s: String)
        ensures
            s@ == join_lines(self@.lines),
    {
        let ghost ls = self@.lines;
        let mut out = String::new();
        let mut i: usize = 0;
        proof {
            reveal_strlit("\n");
        }
        while i < self.lines.len()
            invariant
                ls == self@.lines,
                ls.len() == self.lines@.len(),
                0 <= i <= ls.len(),
                out@ == join_lines(ls.take(i as int)),
                "\n"@ == seq!['\n'],
            decreases ls.len() - i,
        {
            assert(ls.take(i + 1).drop_last() =~= ls.take(i as int));
            if i > 0 {
                out.append("\n");
            } else {
                assert(out@ =~= Seq::<char>::empty());
            }
            out.append(self.lines[i].as_str());
            assert(out@ =~= join_lines(ls.take(i + 1)));
            i = i + 1;
        }
        assert(ls.take(ls.len() as int) =~= ls);
        out
    }
}

} // verus!

verus! {

/// Undo law: a snapshot taken at (`row`, `col`) followed by any change of the
/// lines is undone by one undo, which restores the lines, returns
/// (`row`, `col`), and leaves the earlier history as it was when the history
/// was below its limit.
pub proof fn law_undo_restores_snapshot(
    v: BufferView,
    row: usize,
    col: usize,
    edited: Seq<Seq<char>>,
)
    ensures
        undone(with_lines(snapshot_taken(v, row, col), edited)).lines == v.lines,
        undo_target(with_lines(snapshot_taken(v, row, col), edited)) == Some((row, col)),
        v.undo.len() < UNDO_LIMIT ==> undone(with_lines(snapshot_taken(v, row, col), edited)).undo
            == v.undo,
{
    let pushed = v.undo.push(Snapshot { lines: v.lines, row: row, col: col });
    if v.undo.len() < UNDO_LIMIT {
        assert(pushed.drop_last() =~= v.undo);
    }
}

/// History law: the undo history never holds more than `UNDO_LIMIT` snapshots.
pub proof fn law_undo_history_bounded(v: BufferView, row: usize, col: usize)
    requires
        v.undo.len() <= UNDO_LIMIT,
    ensures
        snapshot_taken(v, row, col).undo.len() <= UNDO_LIMIT,
        undone(v).undo.len() <= UNDO_LIMIT,
{
}

/// Line-break law: breaking a line and then deleting at the end of its first
/// part joins the two parts back into the line it came from.
pub proof fn law_split_then_delete_joins(ls: Seq<Seq<char>>, row: int, col: int)
    requires
        0 <= row < ls.len(),
        insert_char_ok(ls, row, col),
    ensures
        lines_delete_char(lines_split(ls, row, col), row, clamp_col(ls[row], col)) == ls,
{
    let l = ls[row];
    let c = clamp_col(l, col);
    crate::text::lemma_split_at_boundary(l, c);
    let k = char_index(l, c);
    let split = lines_split(ls, row, col);
    assert(split[row] == l.take(k));
    assert(split[row + 1] == l.skip(k));
    assert(byte_len(l.take(k)) == c);
    assert(l.take(k) + l.skip(k) =~= l);
    assert(lines_delete_char(split, row, c) =~= ls);
}

/// Line insertion law: a line inserted at `row` and then deleted at `row`
/// leaves the lines as they were.
pub proof fn law_insert_then_delete_line(ls: Seq<Seq<char>>, row: int, content: Seq<char>)
    requires
        0 <= row <= ls.len(),
        ls.len() >= 1,
    ensures
        lines_delete_line(lines_insert_line(ls, row, content), row) == ls,
{
    assert(ls.insert(row, content).remove(row) =~= ls);
}

/// Typing law: an ASCII character typed at a character boundary is removed
/// again by a backspace just after it, which returns the cursor to where the
/// character was typed.
pub proof fn law_insert_then_backspace(ls: Seq<Seq<char>>, row: int, col: int, c: char)
    requires
        0 <= row < ls.len(),
        0 <= col <= byte_len(ls[row]),
        is_boundary(ls[row], col),
        (c as u32) < 0x80,
    ensures
        backspace_ok(lines_insert_char(ls, row, col, c), row, col + 1),
        lines_backspace(lines_insert_char(ls, row, col, c), row, col + 1) == ls,
        backspace_target(lines_insert_char(ls, row, col, c), row, col + 1) == Some(
            (row as usize, col as usize),
        ),
{
    let l = ls[row];
    crate::text::lemma_split_at_boundary(l, col);
    let k = char_index(l, col);
    let l2 = l.insert(k, c);
    crate::text::lemma_char_width(c);
    crate::text::lemma_offset_is_boundary(l2, k);
    assert(l2.take(k) =~= l.take(k));
    crate::text::lemma_utf8_concat(l2.take(k), seq![c] + l.skip(k));
    crate::text::lemma_utf8_concat(seq![c], l.skip(k));
    assert(l2 =~= l2.take(k) + (seq![c] + l.skip(k)));
    crate::text::lemma_utf8_concat(l.take(k), l.skip(k));
    assert(l =~= l.take(k) + l.skip(k));
    assert(byte_len(l2) == byte_len(l) + 1);
    assert(l2.remove(k) =~= l);
    let ls2 = lines_insert_char(ls, row, col, c);
    assert(ls2[row] == l2);
    assert(ls2.update(row, l) =~= ls);
}

/// Cutting at line breaks after appending text without one only lengthens
/// the last piece.
proof fn lemma_pieces_extend(a: Seq<char>, b: Seq<char>)
    requires
        !b.contains('\n'),
    ensures
        pieces(a + b) == pieces(a).update(pieces(a).len() - 1, pieces(a).last() + b),
    decreases b.len(),
{
    lemma_pieces_nonempty(a);
    if b.len() == 0 {
        assert(a + b =~= a);
        assert(pieces(a).last() + b =~= pieces(a).last());
        assert(pieces(a).update(pieces(a).len() - 1, pieces(a).last()) =~= pieces(a));
    } else {
        let b0 = b.drop_last();
        assert(!b0.contains('\n')) by {
            if b0.contains('\n') {
                let k = choose|k: int| 0 <= k < b0.len() && b0[k] == '\n';
                assert(b[k] == '\n');
            }
        }
        lemma_pieces_extend(a, b0);
        assert((a + b).drop_last() =~= a + b0);
        assert((a + b).last() == b.last());
        assert(b.last() != '\n') by {
            assert(b[b.len() - 1] == b.last());
        }
        lemma_pieces_nonempty(a + b0);
        let p = pieces(a + b0);
        assert((a + b).len() > 0);
        assert(pieces(a + b) == p.update(p.len() - 1, p.last().push(b.last())));
        assert(p.len() == pieces(a).len());
        assert(p.last() == pieces(a).last() + b0);
        assert(p.last().push(b.last()) =~= pieces(a).last() + b);
        assert(pieces(a + b) =~= pieces(a).update(pieces(a).len() - 1, pieces(a).last() + b));
    }
}

/// Lines without line breaks, joined, cut back into the same lines.
proof fn lemma_pieces_of_joined(ls: Seq<Seq<char>>)
    requires
        ls.len() >= 1,
        forall|i: int| 0 <= i < ls.len() ==> !(#[trigger] ls[i]).contains('\n'),
    ensures
        pieces(join_lines(ls)) == ls,
    decreases ls.len(),
{
    if ls.len() == 1 {
        lemma_pieces_extend(Seq::empty(), ls[0]);
        assert(Seq::<char>::empty() + ls[0] =~= ls[0]);
        assert(pieces(Seq::<char>::empty()) == seq![Seq::<char>::empty()]);
        assert(Seq::<char>::empty() + ls[0] =~= ls[0]);
        assert(pieces(ls[0]) =~= ls);
    } else {
        let init = ls.drop_last();
        lemma_pieces_of_joined(init);
        let a = join_lines(init) + seq!['\n'];
        assert(a.drop_last() =~= join_lines(init));
        assert(pieces(a) == init.push(Seq::empty()));
        lemma_pieces_extend(a, ls.last());
        assert(join_lines(ls) == a + ls.last());
        assert(Seq::<char>::empty() + ls.last() =~= ls.last());
        assert(init.push(Seq::empty()).update(init.len() as int, ls.last()) =~= ls);
    }
}

/// Saving and reopening law: the text of lines without line breaks, none
/// but the last ending in a carriage return and the last one non-empty
/// (unless it is the only one), read back gives the same lines.
pub proof fn law_save_then_open(ls: Seq<Seq<char>>)
    requires
        ls.len() >= 1,
        forall|i: int| 0 <= i < ls.len() ==> !(#[trigger] ls[i]).contains('\n'),
        forall|i: int| 0 <= i < ls.len() - 1 ==> strip_cr(#[trigger] ls[i]) == ls[i],
        ls.len() == 1 || ls.last().len() > 0,
    ensures
        buffer_lines_of(join_lines(ls)) == ls,
{
    lemma_pieces_of_joined(ls);
    let p = pieces(join_lines(ls));
    let done = Seq::new((p.len() - 1) as nat, |i: int| strip_cr(p[i]));
    assert(done =~= ls.drop_last());
    if ls.last().len() == 0 {
        assert(lines_of(join_lines(ls)) =~= Seq::<Seq<char>>::empty());
        assert(ls =~= seq![Seq::<char>::empty()]);
    } else {
        assert(lines_of(join_lines(ls)) =~= ls);
    }
}

/// An edit of the lines that takes no snapshot, as the buffer's editing
/// methods make it.
pub enum LineEdit {
    InsertChar(int, int, char),
    DeleteChar(int, int),
    Backspace(int, int),
    Split(int, int),
    InsertLine(int, Seq<char>),
    DeleteLine(int),
}

/// The lines after the edit `e`.
pub open spec fn edit_lines(ls: Seq<Seq<char>>, e: LineEdit) -> Seq<Seq<char>> {
    match e {
        LineEdit::InsertChar(row, col, c) => lines_insert_char(ls, row, col, c),
        LineEdit::DeleteChar(row, col) => lines_delete_char(ls, row, col),
        LineEdit::Backspace(row, col) => lines_backspace(ls, row, col),
        LineEdit::Split(row, col) => lines_split(ls, row, col),
        LineEdit::InsertLine(row, content) => lines_insert_line(ls, row, content),
        LineEdit::DeleteLine(row) => lines_delete_line(ls, row),
    }
}

/// The buffer after the edits `es`, in order; the history stays as it is.
pub open spec fn edits_applied(v: BufferView, es: Seq<LineEdit>) -> BufferView
    decreases es.len(),
{
    if es.len() == 0 {
        v
    } else {
        let w = edits_applied(v, es.drop_last());
        with_lines(w, edit_lines(w.lines, es.last()))
    }
}

proof fn lemma_edits_keep_history(v: BufferView, es: Seq<LineEdit>)
    ensures
        edits_applied(v, es).undo == v.undo,
        edits_applied(v, es).redo == v.redo,
    decreases es.len(),
{
    if es.len() > 0 {
        lemma_edits_keep_history(v, es.drop_last());
    }
}

/// Undo law over a sequence of edits: after a snapshot at (`row`, `col`),
/// any edits of the lines are undone by one undo, which brings back the
/// lines of the snapshot and returns (`row`, `col`).
pub proof fn law_undo_after_edits(v: BufferView, row: usize, col: usize, es: Seq<LineEdit>)
    ensures
        undone(edits_applied(snapshot_taken(v, row, col), es)).lines == v.lines,
        undo_target(edits_applied(snapshot_taken(v, row, col), es)) == Some((row, col)),
{
    lemma_edits_keep_history(snapshot_taken(v, row, col), es);
    law_undo_restores_snapshot(v, row, col, edits_applied(snapshot_taken(v, row, col), es).lines);
}

/// The state after `j` undos.
pub open spec fn undone_times(v: BufferView, j: nat) -> BufferView
    decreases j,
{
    if j == 0 {
        v
    } else {
        undone(undone_times(v, (j - 1) as nat))
    }
}

/// The positions the snapshots of a history were taken at, oldest first.
pub open spec fn positions(u: Seq<Snapshot>) -> Seq<(usize, usize)> {
    Seq::new(u.len(), |i: int| (u[i].row, u[i].col))
}

/// The buffer after a snapshot at each position of `ps` in turn, the lines
/// after each one changed to the corresponding entry of `edits`.
pub open spec fn snapshots_taken(
    v: BufferView,
    ps: Seq<(usize, usize)>,
    edits: Seq<Seq<Seq<char>>>,
) -> BufferView
    decreases ps.len(),
{
    if ps.len() == 0 {
        v
    } else {
        let w = snapshots_taken(v, ps.drop_last(), edits);
        with_lines(snapshot_taken(w, ps.last().0, ps.last().1), edits[ps.len() - 1])
    }
}

/// The smaller of `n` and the history limit.
pub open spec fn kept(n: nat) -> nat {
    if n < UNDO_LIMIT {
        n
    } else {
        UNDO_LIMIT as nat
    }
}

proof fn lemma_snapshot_positions(v: BufferView, ps: Seq<(usize, usize)>, edits: Seq<Seq<Seq<char>>>)
    requires
        v.undo.len() == 0,
    ensures
        positions(snapshots_taken(v, ps, edits).undo) == ps.skip(ps.len() - kept(ps.len())),
    decreases ps.len(),
{
    if ps.len() > 0 {
        let init = ps.drop_last();
        lemma_snapshot_positions(v, init, edits);
        let w = snapshots_taken(v, init, edits);
        let pushed = w.undo.push(Snapshot { lines: w.lines, row: ps.last().0, col: ps.last().1 });
        assert(positions(pushed) =~= positions(w.undo).push(ps.last()));
        if pushed.len() > UNDO_LIMIT {
            assert(positions(pushed.drop_first()) =~= positions(pushed).drop_first());
            assert(init.skip(init.len() - kept(init.len())).push(ps.last()).drop_first()
                =~= ps.skip(ps.len() - kept(ps.len())));
        } else {
            assert(init.skip(init.len() - kept(init.len())).push(ps.last()) =~= ps.skip(
                ps.len() - kept(ps.len()),
            ));
        }
    }
}

proof fn lemma_undone_times(v: BufferView, j: nat)
    requires
        j <= v.undo.len(),
    ensures
        undone_times(v, j).undo == v.undo.take(v.undo.len() - j),
    decreases j,
{
    if j > 0 {
        lemma_undone_times(v, (j - 1) as nat);
        assert(v.undo.take(v.undo.len() - (j - 1)).drop_last() =~= v.undo.take(
            v.undo.len() - j,
        ));
    } else {
        assert(v.undo.take(v.undo.len() as int) =~= v.undo);
    }
}

/// History order law: from a buffer with no history, after snapshots at the
/// positions `ps` (any edits between them), successive undos return the
/// last `min(n, UNDO_LIMIT)` positions newest first; the undo after them
/// returns `None` and changes nothing.
pub proof fn law_undo_order(
    v: BufferView,
    ps: Seq<(usize, usize)>,
    edits: Seq<Seq<Seq<char>>>,
    j: nat,
)
    requires
        v.undo.len() == 0,
    ensures
        j < kept(ps.len()) ==> undo_target(undone_times(snapshots_taken(v, ps, edits), j)) == Some(
            ps[ps.len() - 1 - j],
        ),
        undo_target(undone_times(snapshots_taken(v, ps, edits), kept(ps.len()))) is None,
        undone(undone_times(snapshots_taken(v, ps, edits), kept(ps.len()))) == undone_times(
            snapshots_taken(v, ps, edits),
            kept(ps.len()),
        ),
{
    let w = snapshots_taken(v, ps, edits);
    lemma_snapshot_positions(v, ps, edits);
    let m = kept(ps.len());
    assert(w.undo.len() == m) by {
        assert(positions(w.undo).len() == w.undo.len());
    }
    lemma_undone_times(w, m);
    if j < m {
        lemma_undone_times(w, j);
        let u = undone_times(w, j).undo;
        assert(u.last() == w.undo[m - 1 - j]);
        assert(positions(w.undo)[m - 1 - j] == ps[ps.len() - 1 - j]);
    }
}

/// Text read into lines and written back: text without carriage returns
/// that does not end in a line break comes back unchanged.
pub proof fn law_open_then_save(s: Seq<char>)
    requires
        !s.contains('\r'),
        s.len() == 0 || s.last() != '\n',
    ensures
        join_lines(buffer_lines_of(s)) == s,
{
    lemma_join_pieces(s);
    lemma_pieces_without(s, '\r');
    lemma_pieces_nonempty(s);
    let p = pieces(s);
    if s.len() == 0 {
        assert(lines_of(s) =~= Seq::<Seq<char>>::empty());
        assert(buffer_lines_of(s) =~= seq![Seq::<char>::empty()]);
    } else {
        assert(p.last().len() > 0) by {
            let q = pieces(s.drop_last());
            lemma_pieces_nonempty(s.drop_last());
            assert(s[s.len() - 1] == s.last());
        }
        assert forall|i: int| 0 <= i < p.len() - 1 implies strip_cr(#[trigger] p[i]) == p[i] by {
            if p[i].len() > 0 {
                assert(p[i][p[i].len() - 1] == p[i].last());
            }
        }
        assert(lines_of(s) =~= p);
    }
}

/// Every character of a piece of `s` occurs in `s`; in particular a
/// character `s` lacks is in none of them.
proof fn lemma_pieces_without(s: Seq<char>, c: char)
    requires
        !s.contains(c),
    ensures
        forall|i: int| 0 <= i < pieces(s).len() ==> !(#[trigger] pieces(s)[i]).contains(c),
    decreases s.len(),
{
    lemma_pieces_nonempty(s);
    if s.len() > 0 {
        let s0 = s.drop_last();
        assert(!s0.contains(c)) by {
            if s0.contains(c) {
                let k = choose|k: int| 0 <= k < s0.len() && s0[k] == c;
                assert(s[k] == c);
            }
        }
        lemma_pieces_without(s0, c);
        lemma_pieces_nonempty(s0);
        let p = pieces(s0);
        assert(s.last() != c) by {
            assert(s[s.len() - 1] == s.last());
        }
        if s.last() != '\n' {
            assert forall|i: int| 0 <= i < pieces(s).len() implies !(#[trigger] pieces(s)[i]).contains(c) by {
                if i == p.len() - 1 {
                    let l = p.last().push(s.last());
                    if l.contains(c) {
                        let k = choose|k: int| 0 <= k < l.len() && l[k] == c;
                        if k < p.last().len() {
                            assert(p[p.len() - 1][k] == c);
                        }
                    }
                }
            }
        }
    }
}

/// Joining a list of lines whose last one is extended extends the joined text.
proof fn lemma_join_extend_last(ls: Seq<Seq<char>>, x: char)
    requires
        ls.len() >= 1,
    ensures
        join_lines(ls.update(ls.len() - 1, ls.last().push(x))) == join_lines(ls).push(x),
{
    let u = ls.update(ls.len() - 1, ls.last().push(x));
    if ls.len() > 1 {
        assert(u.drop_last() =~= ls.drop_last());
        assert(join_lines(u) == join_lines(u.drop_last()) + seq!['\n'] + u.last());
        assert(join_lines(u) =~= join_lines(ls).push(x));
    }
}

/// Joining the pieces of a text with line breaks gives the text back.
proof fn lemma_join_pieces(s: Seq<char>)
    ensures
        join_lines(pieces(s)) == s,
    decreases s.len(),
{
    if s.len() == 0 {
        assert(join_lines(seq![Seq::<char>::empty()]) =~= s);
    } else {
        let s0 = s.drop_last();
        lemma_join_pieces(s0);
        lemma_pieces_nonempty(s0);
        let p = pieces(s0);
        if s.last() == '\n' {
            let q = p.push(Seq::<char>::empty());
            assert(q.drop_last() =~= p);
            assert(join_lines(q) =~= s);
        } else {
            lemma_join_extend_last(p, s.last());
            assert(s0.push(s.last()) =~= s);
        }
    }
}

/// Break-then-backspace law: breaking line `row` at `col` (on a character
/// boundary) and backspacing at the start of the new line joins the line
/// back and returns the cursor to the break.
pub proof fn law_split_then_backspace(ls: Seq<Seq<char>>, row: int, col: int)
    requires
        0 <= row < ls.len(),
        insert_char_ok(ls, row, col),
    ensures
        backspace_ok(lines_split(ls, row, col), row + 1, 0),
        lines_backspace(lines_split(ls, row, col), row + 1, 0) == ls,
        backspace_target(lines_split(ls, row, col), row + 1, 0) == Some(
            (row as usize, clamp_col(ls[row], col) as usize),
        ),
{
    let l = ls[row];
    let c = clamp_col(l, col);
    crate::text::lemma_split_at_boundary(l, c);
    let k = char_index(l, c);
    let split = lines_split(ls, row, col);
    assert(split[row] == l.take(k));
    assert(split[row + 1] == l.skip(k));
    assert(byte_len(l.take(k)) == c);
    assert(l.take(k) + l.skip(k) =~= l);
    assert(split.update(row, split[row] + split[row + 1]).remove(row + 1) =~= ls);
}

} // verus!
