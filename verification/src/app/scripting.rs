//! What scripts may read from and do to the editor.
use vstd::prelude::*;
use crate::app::input::{line_steps_ok, steps_ok, type_chars, typed_seq, typing_chain};
use crate::editor::document::{can_type, typed, Document};
use crate::app::App;
use crate::editor::buffer::{clamp_col, lines_insert_char};
use crate::editor::cursor::line_at;
use crate::text::{
    char_index, chars_of, lemma_split_at_boundary, push_char, split_text, text_is_boundary, text_len,
};

verus! {

/// Typing the characters of `text` at the cursor of the open document, one
/// after the other, is allowed at every step (nothing is typed without an
/// open document).
pub open spec fn text_fits_spec(a: App, text: Seq<char>) -> bool {
    a.documents@.len() > 0 ==> steps_ok(
        a.active().buffer@.lines,
        a.active().cursor.row as int,
        a.active().cursor.col as int,
        text,
    )
}

/// Each document of a chain of allowed typing steps can type the rest of
/// the characters.
proof fn lemma_chain_steps_ok(ds: Seq<Document>, s: Seq<char>)
    requires
        typing_chain(ds, s),
    ensures
        steps_ok(ds[0].buffer@.lines, ds[0].cursor.row as int, ds[0].cursor.col as int, s),
    decreases s.len(),
{
    if s.len() > 0 {
        let tail = ds.drop_first();
        let rest = s.drop_first();
        assert forall|j: int| 0 <= j < rest.len() implies can_type(#[trigger] tail[j]) && typed(
            tail[j],
            tail[j + 1],
            rest[j],
        ) by {
            assert(can_type(ds[j + 1]));
        }
        assert(typing_chain(tail, rest));
        lemma_chain_steps_ok(tail, rest);
        assert(can_type(ds[0]) && typed(ds[0], ds[1], s[0]));
        let ls = ds[0].buffer@.lines;
        let row = ds[0].cursor.row as int;
        let col = ds[0].cursor.col as int;
        assert(ds[1].buffer@.lines == lines_insert_char(ls, row, col, s[0]));
    }
}

/// `insert_text` asks exactly what typing its characters one after the other
/// asks: wherever `insert_char` could type `text` at the cursor of the open
/// document step by step, each step allowed, `text_fits` says yes.
pub proof fn law_text_fits_every_allowed_typing(a: App, text: Seq<char>, ds: Seq<Document>)
    requires
        a.wf(),
        a.documents@.len() > 0,
        typing_chain(ds, text),
        ds[0] == a.active(),
    ensures
        text_fits_spec(a, text),
{
    lemma_chain_steps_ok(ds, text);
}

impl App {
    /// Line `row` of the open document (the cursor's line without `row`);
    /// empty without an open document or for a line that does not exist.
    pub fn line_for_script(&self, row: Option<usize>) -> (l: String)
        requires
            self.wf(),
        ensures
            l@ == if self.documents@.len() == 0 {
                Seq::empty()
            } else {
                line_at(
                    self.active().buffer@.lines,
                    match row {
                        Some(r) => r as int,
                        None => self.active().cursor.row as int,
                    },
                )
            },
    {
        if self.documents.len() == 0 {
            return String::new();
        }
        let doc = &self.documents[self.active_tab];
        let r = match row {
            Some(r) => r,
            None => doc.cursor.row,
        };
        doc.buffer.get_line(r).to_owned()
    }

    /// Whether `insert_text` can type `text` (see `text_fits_spec`).
    pub fn text_fits(&self, text: &str) -> (r: bool)
        requires
            self.wf(),
        ensures
            r == text_fits_spec(*self, text@),
    {
        if self.documents.len() == 0 {
            return true;
        }
        let doc = &self.documents[self.active_tab];
        let cs = chars_of(text);
        if doc.cursor.row >= doc.buffer.line_count() {
            return doc.cursor.col <= usize::MAX - cs.len();
        }
        let ghost l0 = doc.buffer@.lines[doc.cursor.row as int];
        let mut line = doc.buffer.get_line(doc.cursor.row).to_owned();
        let mut col = doc.cursor.col;
        let mut i: usize = 0;
        assert(cs@.skip(0) =~= cs@);
        while i < cs.len()
            invariant
                cs@ == text@,
                text_fits_spec(*self, text@) == line_steps_ok(l0, doc.cursor.col as int, text@),
                i <= cs@.len(),
                line_steps_ok(line@, col as int, cs@.skip(i as int)) == line_steps_ok(
                    l0,
                    doc.cursor.col as int,
                    text@,
                ),
            decreases cs@.len() - i,
        {
            let ghost rest = cs@.skip(i as int);
            assert(rest[0] == cs@[i as int]);
            assert(rest.drop_first() =~= cs@.skip(i + 1));
            if col == usize::MAX {
                return false;
            }
            let n = text_len(line.as_str());
            let at = if col < n {
                col
            } else {
                n
            };
            assert(at as int == clamp_col(line@, col as int));
            if !text_is_boundary(line.as_str(), at) {
                return false;
            }
            let ghost k = char_index(line@, at as int);
            let (mut left, right) = split_text(line.as_str(), at);
            proof {
                lemma_split_at_boundary(line@, at as int);
            }
            push_char(&mut left, cs[i]);
            left.append(right.as_str());
            assert(left@ =~= line@.insert(k, cs@[i as int]));
            line = left;
            col = col + 1;
            i = i + 1;
        }
        assert(cs@.skip(i as int).len() == 0);
        true
    }

    /// Types `text` at the cursor of the open document, one character after
    /// the other; nothing happens without an open document.
    pub fn insert_text(&mut self, text: &str)
        requires
            old(self).wf(),
            text_fits_spec(*old(self), text@),
        ensures
            final(self).wf(),
            old(self).documents@.len() == 0 ==> *final(self) == *old(self),
            old(self).documents@.len() > 0 ==> {
                &&& typed_seq(old(self).active(), final(self).active(), text@)
                &&& final(self).documents@ == old(self).documents@.update(
                    old(self).active_tab as int,
                    final(self).active(),
                )
                &&& *final(self) == (App { documents: final(self).documents, ..*old(self) })
            },
    {
        if self.documents.len() == 0 {
            return;
        }
        let cs = chars_of(text);
        let t = self.active_tab;
        let ghost before = self.documents@;
        let mut docs = Vec::new();
        std::mem::swap(&mut docs, &mut self.documents);
        let mut doc = docs.remove(t);
        type_chars(&mut doc, &cs);
        docs.insert(t, doc);
        assert(docs@ =~= before.update(t as int, docs@[t as int]));
        self.documents = docs;
    }
}

} // verus!
