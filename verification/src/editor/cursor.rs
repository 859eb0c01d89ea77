//! The cursor of a document: position, remembered column and scroll offsets.
use vstd::prelude::*;
use crate::editor::buffer::Buffer;
use crate::text::{byte_len, chars_of, is_white, is_whitespace};

verus! {

/// Line `row` of `ls`, empty for a row that does not exist.
pub open spec fn line_at(ls: Seq<Seq<char>>, row: int) -> Seq<char> {
    if 0 <= row < ls.len() {
        ls[row]
    } else {
        Seq::empty()
    }
}

/// Byte length of line `row` of `ls`, 0 for a row that does not exist.
pub open spec fn len_at(ls: Seq<Seq<char>>, row: int) -> int {
    byte_len(line_at(ls, row)) as int
}

/// From character index `i`, the index just past the run of non-white characters.
pub open spec fn skip_word(cs: Seq<char>, i: int) -> int
    decreases cs.len() - i,
{
    if 0 <= i < cs.len() && !is_white(cs[i]) {
        skip_word(cs, i + 1)
    } else {
        i
    }
}

/// From character index `i`, the index just past the run of white characters.
pub open spec fn skip_space(cs: Seq<char>, i: int) -> int
    decreases cs.len() - i,
{
    if 0 <= i < cs.len() && is_white(cs[i]) {
        skip_space(cs, i + 1)
    } else {
        i
    }
}

/// From index `i`, backwards over the white characters just before it.
pub open spec fn back_space(cs: Seq<char>, i: int) -> int
    decreases i,
{
    if 0 < i && i - 1 < cs.len() && is_white(cs[i - 1]) {
        back_space(cs, i - 1)
    } else {
        i
    }
}

/// From index `i`, backwards over the non-white characters just before it.
pub open spec fn back_word(cs: Seq<char>, i: int) -> int
    decreases i,
{
    if 0 < i && i - 1 < cs.len() && !is_white(cs[i - 1]) {
        back_word(cs, i - 1)
    } else {
        i
    }
}

/// Where a forward word motion from column `col` lands within the line
/// (past the rest of the current word, then past the white space after it).
pub open spec fn word_forward_col(cs: Seq<char>, col: int) -> int {
    skip_space(cs, skip_word(cs, col))
}

/// Where a backward word motion from column `col` lands within the line.
pub open spec fn word_backward_col(cs: Seq<char>, col: int) -> int {
    back_word(cs, back_space(cs, col))
}

proof fn lemma_skip_bounds(cs: Seq<char>, i: int)
    ensures
        i <= skip_word(cs, i),
        i <= skip_space(cs, i),
        0 <= i <= cs.len() ==> skip_word(cs, i) <= cs.len() && skip_space(cs, i) <= cs.len(),
        i > cs.len() ==> skip_word(cs, i) == i && skip_space(cs, i) == i,
    decreases cs.len() - i,
{
    if 0 <= i < cs.len() {
        lemma_skip_bounds(cs, i + 1);
    }
}

proof fn lemma_back_bounds(cs: Seq<char>, i: int)
    ensures
        i >= 0 ==> 0 <= back_word(cs, i) <= i && 0 <= back_space(cs, i) <= i,
    decreases i,
{
    if 0 < i {
        lemma_back_bounds(cs, i - 1);
    }
}

#[derive(Debug, Clone)]
pub struct Cursor {
    pub row: usize,
    pub col: usize,
    pub scroll_row: usize,
    pub scroll_col: usize,
    pub desired_col: usize,
}

/// `c` moved to (`row`, `col`) with `desired` as the remembered column; the
/// scroll offsets unchanged.
pub open spec fn moved(c: Cursor, row: int, col: int, desired: int) -> Cursor {
    Cursor {
        row: row as usize,
        col: col as usize,
        scroll_row: c.scroll_row,
        scroll_col: c.scroll_col,
        desired_col: desired as usize,
    }
}

/// The vertical scroll offset after `update_scroll`: moved just enough to
/// keep `pos` inside a viewport of size `size`.
pub open spec fn scrolled(pos: int, scroll: int, size: int) -> int {
    let s1 = if pos < scroll {
        pos
    } else {
        scroll
    };
    if pos >= s1 + size {
        pos - size + 1
    } else {
        s1
    }
}

/// `update_scroll` stays within machine integers for this position and viewport size.
pub open spec fn scroll_fits(pos: int, scroll: int, size: int) -> bool {
    let s1 = if pos < scroll {
        pos
    } else {
        scroll
    };
    s1 + size <= usize::MAX && (size == 0 ==> pos < usize::MAX)
}

/// `c` clamped into `ls`: the row to the last line, then the column to the
/// end of that line; the remembered column unchanged.
pub open spec fn clamped(c: Cursor, ls: Seq<Seq<char>>) -> Cursor {
    let n = ls.len();
    let row = if c.row >= n {
        if n > 0 {
            n - 1
        } else {
            0
        }
    } else {
        c.row as int
    };
    let len = len_at(ls, row);
    moved(
        c,
        row,
        if c.col > len {
            len
        } else {
            c.col as int
        },
        c.desired_col as int,
    )
}

/// Scrolling law: after `update_scroll` with a non-empty viewport, the
/// position lies inside the viewport.
pub proof fn law_scroll_shows_position(pos: int, scroll: int, size: int)
    requires
        0 <= pos,
        0 <= scroll,
        0 < size,
    ensures
        scrolled(pos, scroll, size) <= pos < scrolled(pos, scroll, size) + size,
{
}

/// One line up, to the remembered column (`move_up`).
pub open spec fn up(c: Cursor) -> Cursor {
    if c.row > 0 {
        moved(c, c.row - 1, c.desired_col as int, c.desired_col as int)
    } else {
        c
    }
}

/// One line down, to the remembered column (`move_down`).
pub open spec fn down(c: Cursor, ls: Seq<Seq<char>>) -> Cursor {
    if c.row + 1 < ls.len() {
        moved(c, c.row + 1, c.desired_col as int, c.desired_col as int)
    } else {
        c
    }
}

/// One byte left (`move_left`).
pub open spec fn left(c: Cursor) -> Cursor {
    if c.col > 0 {
        moved(c, c.row as int, c.col - 1, c.col - 1)
    } else {
        c
    }
}

/// One byte right within the line (`move_right`).
pub open spec fn right(c: Cursor, ls: Seq<Seq<char>>) -> Cursor {
    if c.col < len_at(ls, c.row as int) {
        moved(c, c.row as int, c.col + 1, c.col + 1)
    } else {
        c
    }
}

/// The next word (`move_word_forward`).
pub open spec fn word_forward(c: Cursor, ls: Seq<Seq<char>>) -> Cursor {
    let cs = line_at(ls, c.row as int);
    let j = word_forward_col(cs, c.col as int);
    if j <= cs.len() {
        moved(c, c.row as int, j, j)
    } else if c.row + 1 < ls.len() {
        moved(c, c.row + 1, 0, 0)
    } else {
        c
    }
}

/// The previous word (`move_word_backward`).
pub open spec fn word_backward(c: Cursor, ls: Seq<Seq<char>>) -> Cursor {
    if c.col == 0 {
        if c.row > 0 {
            moved(c, c.row - 1, len_at(ls, c.row - 1), len_at(ls, c.row - 1))
        } else {
            c
        }
    } else {
        let j = word_backward_col(line_at(ls, c.row as int), c.col as int);
        moved(c, c.row as int, j, j)
    }
}

/// Backward word law: from column 0 of a line below the first, a backward
/// word motion lands at the end of the previous line (its byte length) and
/// remembers that column; from column 0 of the first line nothing moves;
/// from any other column it stays on the line and never moves right. The
/// scroll offsets never change.
pub proof fn law_word_backward(c: Cursor, ls: Seq<Seq<char>>)
    ensures
        c.col == 0 && 0 < c.row < ls.len() && byte_len(ls[c.row - 1]) <= usize::MAX ==> {
            let w = word_backward(c, ls);
            &&& w.row == c.row - 1
            &&& w.col == byte_len(ls[c.row - 1])
            &&& w.desired_col == w.col
        },
        c.col == 0 && c.row == 0 ==> word_backward(c, ls) == c,
        c.col > 0 ==> {
            let w = word_backward(c, ls);
            &&& w.row == c.row
            &&& w.col <= c.col
            &&& w.desired_col == w.col
        },
        word_backward(c, ls).scroll_row == c.scroll_row,
        word_backward(c, ls).scroll_col == c.scroll_col,
{
    if c.col > 0 {
        let cs = line_at(ls, c.row as int);
        lemma_back_bounds(cs, c.col as int);
        lemma_back_bounds(cs, back_space(cs, c.col as int));
    }
}

/// The end of the line (`move_to_end_of_line`).
pub open spec fn line_end(c: Cursor, ls: Seq<Seq<char>>) -> Cursor {
    moved(c, c.row as int, len_at(ls, c.row as int), len_at(ls, c.row as int))
}

/// The start of the last line (`move_to_bottom`).
pub open spec fn bottom(c: Cursor, ls: Seq<Seq<char>>) -> Cursor {
    moved(
        c,
        if ls.len() > 0 {
            ls.len() - 1
        } else {
            0
        },
        0,
        0,
    )
}

impl Cursor {
    /// The cursor at the top left with no scroll.
    pub open spec fn new_spec() -> Cursor {
        Cursor { row: 0, col: 0, scroll_row: 0, scroll_col: 0, desired_col: 0 }
    }

    /// A cursor at the top left with no scroll.
    pub fn new() -> (c: Self)
        ensures
            c == Cursor::new_spec(),
    {
        Cursor { row: 0, col: 0, scroll_row: 0, scroll_col: 0, desired_col: 0 }
    }

    /// One line up, to the remembered column; nothing at the first line.
    pub fn move_up(&mut self)
        ensures
            *final(self) == up(*old(self)),
    {
        if self.row > 0 {
            self.row = self.row - 1;
            self.col = self.desired_col;
        }
    }

    /// One line down, to the remembered column; nothing at the last line.
    pub fn move_down(&mut self, buffer: &Buffer)
        ensures
            *final(self) == down(*old(self), buffer@.lines),
    {
        let count = buffer.line_count();
        if count > 0 && self.row < count - 1 {
            self.row = self.row + 1;
            self.col = self.desired_col;
        }
    }

    /// One byte left, remembered as the desired column; nothing at column 0.
    pub fn move_left(&mut self)
        ensures
            *final(self) == left(*old(self)),
    {
        if self.col > 0 {
            self.col = self.col - 1;
            self.desired_col = self.col;
        }
    }

    /// One byte right, remembered as the desired column; nothing at the end of the line.
    pub fn move_right(&mut self, buffer: &Buffer)
        ensures
            *final(self) == right(*old(self), buffer@.lines),
    {
        if self.col < buffer.line_len(self.row) {
            self.col = self.col + 1;
            self.desired_col = self.col;
        }
    }

    /// To the start of the next word on the line (or the end of the line);
    /// when the column already lies past the line's characters, to the start
    /// of the next line if there is one.
    pub fn move_word_forward(&mut self, buffer: &Buffer)
        ensures
            *final(self) == word_forward(*old(self), buffer@.lines),
    {
        let line = buffer.get_line(self.row);
        let chars = chars_of(line);
        let ghost cs = chars@;
        let n = chars.len();
        let mut col = self.col;
        proof {
            lemma_skip_bounds(cs, col as int);
        }
        while col < n && !is_whitespace(chars[col])
            invariant
                chars@ == cs,
                n == cs.len(),
                self.col <= col,
                skip_word(cs, col as int) == skip_word(cs, self.col as int),
            decreases n - col,
        {
            col = col + 1;
        }
        let ghost mid = col as int;
        assert(skip_word(cs, self.col as int) == mid);
        while col < n && is_whitespace(chars[col])
            invariant
                chars@ == cs,
                n == cs.len(),
                mid <= col,
                skip_space(cs, col as int) == skip_space(cs, mid),
            decreases n - col,
        {
            col = col + 1;
        }
        if col <= n {
            self.col = col;
            self.desired_col = self.col;
        } else {
            let count = buffer.line_count();
            if count > 0 && self.row < count - 1 {
                self.row = self.row + 1;
                self.col = 0;
                self.desired_col = 0;
            }
        }
    }

    /// To the start of the previous word on the line; at column 0, to the end
    /// of the previous line if there is one.
    pub fn move_word_backward(&mut self, buffer: &Buffer)
        ensures
            *final(self) == word_backward(*old(self), buffer@.lines),
    {
        if self.col == 0 {
            if self.row > 0 {
                self.row = self.row - 1;
                self.col = buffer.line_len(self.row);
                self.desired_col = self.col;
            }
            return;
        }
        let line = buffer.get_line(self.row);
        let chars = chars_of(line);
        let ghost cs = chars@;
        let n = chars.len();
        let mut col = self.col;
        while col > 0 && col - 1 < n && is_whitespace(chars[col - 1])
            invariant
                chars@ == cs,
                n == cs.len(),
                col <= self.col,
                back_space(cs, col as int) == back_space(cs, self.col as int),
            decreases col,
        {
            col = col - 1;
        }
        let ghost mid = col as int;
        while col > 0 && col - 1 < n && !is_whitespace(chars[col - 1])
            invariant
                chars@ == cs,
                n == cs.len(),
                col <= mid,
                back_word(cs, col as int) == back_word(cs, mid),
            decreases col,
        {
            col = col - 1;
        }
        self.col = col;
        self.desired_col = self.col;
    }

    /// To the end of the current line.
    pub fn move_to_end_of_line(&mut self, buffer: &Buffer)
        ensures
            *final(self) == line_end(*old(self), buffer@.lines),
    {
        self.col = buffer.line_len(self.row);
        self.desired_col = self.col;
    }

    /// To the start of the last line (line 0 of an empty buffer).
    pub fn move_to_bottom(&mut self, buffer: &Buffer)
        ensures
            *final(self) == bottom(*old(self), buffer@.lines),
    {
        self.row = buffer.line_count().saturating_sub(1);
        self.col = 0;
        self.desired_col = 0;
    }

    /// Clamp cursor position to valid range within buffer
    pub fn clamp(&mut self, buffer: &Buffer)
        ensures
            *final(self) == clamped(*old(self), buffer@.lines),
            final(self).row < buffer@.lines.len() || buffer@.lines.len() == 0,
            final(self).col <= len_at(buffer@.lines, final(self).row as int),
    {
        if self.row >= buffer.line_count() {
            self.row = buffer.line_count().saturating_sub(1);
        }
        let line_len = buffer.line_len(self.row);
        if self.col > line_len {
            self.col = line_len;
        }
    }

    /// Whether `update_scroll` can run for a viewport of this size without
    /// overflowing a position.
    pub fn scroll_can_update(&self, viewport_height: usize, viewport_width: usize) -> (r: bool)
        ensures
            r == (scroll_fits(self.row as int, self.scroll_row as int, viewport_height as int)
                && scroll_fits(self.col as int, self.scroll_col as int, viewport_width as int)),
    {
        let r = if self.row < self.scroll_row { self.row } else { self.scroll_row };
        let c = if self.col < self.scroll_col { self.col } else { self.scroll_col };
        r <= usize::MAX - viewport_height && (viewport_height != 0 || self.row < usize::MAX)
            && c <= usize::MAX - viewport_width && (viewport_width != 0 || self.col < usize::MAX)
    }

    /// Update scroll position based on viewport size
    pub fn update_scroll(&mut self, viewport_height: usize, viewport_width: usize)
        requires
            scroll_fits(old(self).row as int, old(self).scroll_row as int, viewport_height as int),
            scroll_fits(old(self).col as int, old(self).scroll_col as int, viewport_width as int),
        ensures
            final(self).row == old(self).row,
            final(self).col == old(self).col,
            final(self).desired_col == old(self).desired_col,
            final(self).scroll_row == scrolled(
                old(self).row as int,
                old(self).scroll_row as int,
                viewport_height as int,
            ),
            final(self).scroll_col == scrolled(
                old(self).col as int,
                old(self).scroll_col as int,
                viewport_width as int,
            ),
    {
        // Vertical scroll
        if self.row < self.scroll_row {
            self.scroll_row = self.row;
        }
        if self.row >= self.scroll_row + viewport_height {
            self.scroll_row = self.row - viewport_height + 1;
        }
        // Horizontal scroll
        if self.col < self.scroll_col {
            self.scroll_col = self.col;
        }
        if self.col >= self.scroll_col + viewport_width {
            self.scroll_col = self.col - viewport_width + 1;
        }
    }
}

} // verus!
