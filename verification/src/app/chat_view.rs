//! The lines the AI sidebar shows for the chat: a title per message and its
//! text wrapped at word boundaries to the sidebar's width.
use vstd::prelude::*;
use crate::ai::AiMessage;
use crate::app::App;
use crate::editor::buffer::{lines_of, split_lines, text_of};
use crate::text::{byte_len, chars_of, is_white, is_whitespace, text_eq, text_len};

verus! {

/// The words of `s`: its maximal runs of non-white characters, in order
/// (`str::split_whitespace`).
pub open spec fn words_of(s: Seq<char>) -> Seq<Seq<char>>
    decreases s.len(),
{
    if s.len() == 0 {
        Seq::empty()
    } else {
        let init = s.drop_last();
        let ws = words_of(init);
        if is_white(s.last()) {
            ws
        } else if init.len() > 0 && !is_white(init.last()) && ws.len() > 0 {
            ws.update(ws.len() - 1, ws.last().push(s.last()))
        } else {
            ws.push(seq![s.last()])
        }
    }
}

/// The words of `s`.
pub fn split_words(s: &str) -> (ws: Vec<String>)
    ensures
        text_of(ws@) == words_of(s@),
{
    let cs = chars_of(s);
    let n = cs.len();
    let mut done: Vec<String> = Vec::new();
    let mut cur = String::new();
    let mut i: usize = 0;
    while i < n
        invariant
            n == cs@.len(),
            cs@ == s@,
            i <= n,
            words_of(s@.take(i as int)) == if cur@.len() > 0 {
                text_of(done@).push(cur@)
            } else {
                text_of(done@)
            },
            cur@.len() > 0 <==> (i > 0 && !is_white(s@[i - 1])),
        decreases n - i,
    {
        let c = cs[i];
        let ghost pre = s@.take(i as int);
        assert(s@.take(i + 1).drop_last() =~= pre);
        assert(s@.take(i + 1).last() == c);
        if is_whitespace(c) {
            if cur.as_str().unicode_len() > 0 {
                let ghost d0 = done@;
                let w = cur;
                done.push(w);
                cur = String::new();
                assert(text_of(done@) =~= text_of(d0).push(w@));
            }
        } else {
            let ghost c0 = cur@;
            let had = cur.as_str().unicode_len() > 0;
            crate::text::push_char(&mut cur, c);
            if had {
                assert(pre.len() > 0 && pre.last() == s@[i - 1]);
                let ghost ws = words_of(pre);
                assert(ws =~= text_of(done@).push(c0));
                assert(ws.update(ws.len() - 1, ws.last().push(c)) =~= text_of(done@).push(cur@));
            } else {
                assert(cur@ =~= seq![c]);
            }
        }
        i = i + 1;
    }
    assert(s@.take(n as int) =~= s@);
    if cur.as_str().unicode_len() > 0 {
        let ghost d0 = done@;
        let w = cur;
        done.push(w);
        assert(text_of(done@) =~= text_of(d0).push(w@));
    }
    done
}

/// Lines filled so far and the line being filled, after the words `ws` are
/// placed greedily on lines indented by two spaces: a word goes on the
/// current line when the line, a space and the word fit in `width` bytes,
/// else it starts a new line.
pub open spec fn filled(ws: Seq<Seq<char>>, width: int) -> (Seq<Seq<char>>, Seq<char>)
    decreases ws.len(),
{
    if ws.len() == 0 {
        (Seq::empty(), "  "@)
    } else {
        let (lines, cur) = filled(ws.drop_last(), width);
        let w = ws.last();
        if byte_len(cur) + byte_len(w) + 1 > width {
            (lines.push(cur), "  "@ + w)
        } else if cur == "  "@ {
            (lines, cur + w)
        } else {
            (lines, cur + " "@ + w)
        }
    }
}

/// The text of a message wrapped to `width` bytes: the filled lines, and the
/// last line when it holds a word; for no room at all, the message's lines
/// indented by two spaces.
pub open spec fn wrapped(content: Seq<char>, width: int) -> Seq<Seq<char>> {
    if width > 0 {
        let (lines, cur) = filled(words_of(content), width);
        if byte_len(cur) > 2 {
            lines.push(cur)
        } else {
            lines
        }
    } else {
        Seq::new(lines_of(content).len(), |i: int| "  "@ + lines_of(content)[i])
    }
}

/// Whether `s` is exactly two spaces.
fn is_indent_only(s: &str) -> (r: bool)
    ensures
        r == (s@ == "  "@),
{
    text_eq(s, "  ")
}

/// The text of a message wrapped to `width` bytes (see `wrapped`).
pub fn wrap_text(content: &str, width: usize) -> (ls: Vec<String>)
    ensures
        text_of(ls@) == wrapped(content@, width as int),
{
    if width == 0 {
        let src = split_lines(content);
        let mut out: Vec<String> = Vec::new();
        let mut i: usize = 0;
        while i < src.len()
            invariant
                text_of(src@) == lines_of(content@),
                i <= src@.len(),
                out@.len() == i,
                forall|j: int| 0 <= j < i ==> #[trigger] out@[j]@ == "  "@ + src@[j]@,
            decreases src@.len() - i,
        {
            let mut l = "  ".to_owned();
            l.append(src[i].as_str());
            out.push(l);
            i = i + 1;
        }
        assert(text_of(out@) =~= wrapped(content@, 0));
        return out;
    }
    let ws = split_words(content);
    let mut lines: Vec<String> = Vec::new();
    let mut cur = "  ".to_owned();
    let mut i: usize = 0;
    assert(text_of(ws@).take(0) =~= Seq::<Seq<char>>::empty());
    while i < ws.len()
        invariant
            width > 0,
            text_of(ws@) == words_of(content@),
            i <= ws@.len(),
            filled(text_of(ws@).take(i as int), width as int) == (text_of(lines@), cur@),
        decreases ws@.len() - i,
    {
        let w = ws[i].as_str();
        let ghost pre = text_of(ws@).take(i as int);
        assert(text_of(ws@).take(i + 1).drop_last() =~= pre);
        assert(text_of(ws@).take(i + 1).last() == w@);
        let used: u128 = text_len(cur.as_str()) as u128 + text_len(w) as u128 + 1;
        if used > width as u128 {
            let ghost l0 = lines@;
            let mut next = "  ".to_owned();
            next.append(w);
            let full = cur;
            lines.push(full);
            cur = next;
            assert(text_of(lines@) =~= text_of(l0).push(full@));
        } else if is_indent_only(cur.as_str()) {
            cur.append(w);
        } else {
            cur.append(" ");
            cur.append(w);
        }
        i = i + 1;
    }
    assert(text_of(ws@).take(ws@.len() as int) =~= text_of(ws@));
    if text_len(cur.as_str()) > 2 {
        let ghost l0 = lines@;
        let last = cur;
        lines.push(last);
        assert(text_of(lines@) =~= text_of(l0).push(last@));
    }
    lines
}

/// What a line of the chat shows.
#[derive(Debug, Clone, Copy, PartialEq, Eq, Structural)]
pub enum ChatLineKind {
    /// The title of a message of the user.
    UserTitle,
    /// The title of a message of the assistant.
    AiTitle,
    Body,
    /// The note shown while an answer has not started yet.
    Thinking,
}

/// A line of the chat.
pub struct ChatLine {
    pub kind: ChatLineKind,
    pub text: String,
}

/// Kinds and texts of chat lines.
pub open spec fn chat_line_view(ls: Seq<ChatLine>) -> Seq<(ChatLineKind, Seq<char>)> {
    Seq::new(ls.len(), |i: int| (ls[i].kind, ls[i].text@))
}

/// The lines of one message: its title, its wrapped text, an empty line.
pub open spec fn message_lines(m: AiMessage, width: int) -> Seq<(ChatLineKind, Seq<char>)> {
    let title = if m.role@ == "user"@ {
        (ChatLineKind::UserTitle, " You "@)
    } else {
        (ChatLineKind::AiTitle, " AI "@)
    };
    let body = wrapped(m.content@, width);
    seq![title] + Seq::new(body.len(), |i: int| (ChatLineKind::Body, body[i])) + seq![
        (ChatLineKind::Body, Seq::<char>::empty()),
    ]
}

/// The lines of the messages `ms`, one message after the other.
pub open spec fn history_lines(ms: Seq<AiMessage>, width: int) -> Seq<(ChatLineKind, Seq<char>)>
    decreases ms.len(),
{
    if ms.len() == 0 {
        Seq::empty()
    } else {
        history_lines(ms.drop_last(), width) + message_lines(ms.last(), width)
    }
}

/// The chat shown in a sidebar `width` columns wide: the messages wrapped
/// four columns narrower, and a thinking note while the answer being
/// generated is still empty.
pub open spec fn chat_lines_of(a: App, width: int) -> Seq<(ChatLineKind, Seq<char>)> {
    let w = if width >= 4 {
        width - 4
    } else {
        0
    };
    let base = history_lines(a.ai_chat_history@, w);
    let h = a.ai_chat_history@;
    if a.ai_generating && h.len() > 0 && h.last().content@.len() == 0 {
        base.push((ChatLineKind::Thinking, "  Thinking..."@))
    } else {
        base
    }
}

impl App {
    /// The lines the AI sidebar shows, for a sidebar `width` columns wide.
    pub fn chat_lines(&self, width: usize) -> (ls: Vec<ChatLine>)
        ensures
            chat_line_view(ls@) == chat_lines_of(*self, width as int),
    {
        let w: usize = if width >= 4 {
            width - 4
        } else {
            0
        };
        let h = &self.ai_chat_history;
        let mut out: Vec<ChatLine> = Vec::new();
        let mut i: usize = 0;
        assert(h@.take(0) =~= Seq::<AiMessage>::empty());
        while i < h.len()
            invariant
                i <= h@.len(),
                chat_line_view(out@) == history_lines(h@.take(i as int), w as int),
            decreases h@.len() - i,
        {
            let m = &h[i];
            let ghost before = chat_line_view(out@);
            assert(h@.take(i + 1).drop_last() =~= h@.take(i as int));
            assert(h@.take(i + 1).last() == *m);
            if text_eq(m.role.as_str(), "user") {
                out.push(ChatLine { kind: ChatLineKind::UserTitle, text: " You ".to_owned() });
            } else {
                out.push(ChatLine { kind: ChatLineKind::AiTitle, text: " AI ".to_owned() });
            }
            let body = wrap_text(m.content.as_str(), w);
            let mut k: usize = 0;
            while k < body.len()
                invariant
                    k <= body@.len(),
                    out@.len() == before.len() + 1 + k,
                    forall|j: int| 0 <= j < before.len() + 1 ==> #[trigger] chat_line_view(out@)[j]
                        == (before + message_lines(*m, w as int))[j],
                    forall|j: int| 0 <= j < k ==> #[trigger] chat_line_view(out@)[before.len() + 1 + j]
                        == (ChatLineKind::Body, body@[j]@),
                    text_of(body@) == wrapped(m.content@, w as int),
                    before.len() == chat_line_view(out@).len() - 1 - k,
                decreases body@.len() - k,
            {
                let ghost o0 = out@;
                out.push(ChatLine { kind: ChatLineKind::Body, text: body[k].clone() });
                proof {
                    assert forall|j: int| 0 <= j < before.len() + 1 implies #[trigger] chat_line_view(out@)[j]
                        == (before + message_lines(*m, w as int))[j] by {
                        assert(out@[j] == o0[j]);
                        assert(chat_line_view(o0)[j] == (before + message_lines(*m, w as int))[j]);
                    }
                    assert forall|j: int| 0 <= j < k + 1 implies #[trigger] chat_line_view(out@)[before.len() + 1 + j]
                        == (ChatLineKind::Body, body@[j]@) by {
                        if j < k {
                            assert(out@[before.len() + 1 + j] == o0[before.len() + 1 + j]);
                            assert(chat_line_view(o0)[before.len() + 1 + j] == (ChatLineKind::Body, body@[j]@));
                        }
                    }
                }
                k = k + 1;
            }
            let ghost o1 = out@;
            out.push(ChatLine { kind: ChatLineKind::Body, text: String::new() });
            proof {
                let want = before + message_lines(*m, w as int);
                assert(chat_line_view(out@).len() == want.len());
                assert forall|j: int| 0 <= j < want.len() implies #[trigger] chat_line_view(out@)[j] == want[j] by {
                    if j < before.len() + 1 {
                        assert(out@[j] == o1[j]);
                        assert(chat_line_view(o1)[j] == want[j]);
                    } else if j < before.len() + 1 + body@.len() {
                        let q = j - before.len() - 1;
                        assert(out@[j] == o1[j]);
                        assert(chat_line_view(o1)[before.len() + 1 + q] == (ChatLineKind::Body, body@[q]@));
                        assert(text_of(body@)[q] == body@[q]@);
                    }
                }
                assert(chat_line_view(out@) =~= want);
            }
            i = i + 1;
        }
        assert(h@.take(h@.len() as int) =~= h@);
        if self.ai_generating && h.len() > 0 && h[h.len() - 1].content.as_str().is_empty() {
            let ghost o0 = chat_line_view(out@);
            out.push(ChatLine { kind: ChatLineKind::Thinking, text: "  Thinking...".to_owned() });
            assert(chat_line_view(out@) =~= o0.push((ChatLineKind::Thinking, "  Thinking..."@)));
        }
        out
    }
}

} // verus!
