//! What vim's line motions do in normal mode, stated over `vim_step`, the
//! contract of `handle_vim_input`.
use vstd::prelude::*;
use crate::app::input::{
    doc_applied, mode_set, normal_mode_after, normal_op_of, op_done, op_step, op_then_mode, vim_normal_step,
    vim_step, DocOp,
};
use crate::editor::document::Document;
use crate::app::{App, Effect, KeyCode, VimSubMode};

verus! {

/// The arrow or cursor key that a normal-mode letter stands for: `h`, `j`,
/// `k`, `l` the four arrows, `0` Home and `$` End.
pub open spec fn vim_arrow(c: char) -> Option<KeyCode> {
    if c == 'h' {
        Some(KeyCode::Left)
    } else if c == 'j' {
        Some(KeyCode::Down)
    } else if c == 'k' {
        Some(KeyCode::Up)
    } else if c == 'l' {
        Some(KeyCode::Right)
    } else if c == '0' {
        Some(KeyCode::Home)
    } else if c == '$' {
        Some(KeyCode::End)
    } else {
        None
    }
}

/// In normal mode `h`, `j`, `k`, `l` are the Left, Down, Up and Right
/// arrows, `0` is Home and `$` is End: for every state a letter and its key
/// lead to the same outcomes.
pub proof fn law_vim_letters_are_arrows(a0: App, c: char)
    requires
        a0.vim_mode == VimSubMode::Normal,
        vim_arrow(c) is Some,
    ensures
        forall|a1: App, effects: Seq<Effect>|
            vim_step(a0, a1, KeyCode::Char(c), effects) <==> vim_step(a0, a1, vim_arrow(c)->0, effects),
{
    let arrow = vim_arrow(c)->0;
    assert(normal_op_of(KeyCode::Char(c)) == normal_op_of(arrow));
    assert(normal_mode_after(KeyCode::Char(c)) == normal_mode_after(arrow));
}

/// A line motion keeps the text and moves the cursor one line down (Down)
/// or up (Up) to the remembered column, staying at the last or first line.
proof fn lemma_line_motion(d0: Document, d1: Document, op: DocOp)
    requires
        op == DocOp::Down || op == DocOp::Up,
        op_done(d0, d1, op),
        d0.buffer@.lines.len() <= usize::MAX,
    ensures
        d1.buffer == d0.buffer,
        op == DocOp::Down ==> d1.cursor.row == if d0.cursor.row + 1 < d0.buffer@.lines.len() {
            d0.cursor.row + 1
        } else {
            d0.cursor.row as int
        },
        op == DocOp::Up ==> d1.cursor.row == if d0.cursor.row > 0 {
            d0.cursor.row - 1
        } else {
            d0.cursor.row as int
        },
        d1.cursor.row != d0.cursor.row ==> d1.cursor.col == d0.cursor.desired_col,
{
}

/// A key other than `:` and `/` in normal mode carries out its document
/// operation and then sets its mode, with no effect.
proof fn lemma_normal_key_step(a0: App, a1: App, k: KeyCode, effects: Seq<Effect>)
    requires
        a0.documents@.len() > 0,
        a0.vim_mode == VimSubMode::Normal,
        k != KeyCode::Char(':'),
        k != KeyCode::Char('/'),
        vim_step(a0, a1, k, effects),
    ensures
        effects.len() == 0,
        op_then_mode(a0, a1, normal_op_of(k), normal_mode_after(k)),
{
    assert(vim_normal_step(a0, a1, k));
}

/// A document operation followed by normal mode changes the open document
/// alone, as the operation says.
proof fn lemma_op_then_normal(a0: App, a1: App, op: DocOp)
    requires
        a0.documents@.len() > 0,
        op_then_mode(a0, a1, Some(op), VimSubMode::Normal),
    ensures
        a1.vim_mode == VimSubMode::Normal,
        a1.active_tab == a0.active_tab,
        a1.documents@ == a0.documents@.update(a0.active_tab as int, a1.active()),
        op_done(a0.active(), a1.active(), op),
{
    let m = choose|m: App| #[trigger] op_step(a0, m, Some(op)) && mode_set(m, a1, VimSubMode::Normal);
    assert(doc_applied(a0, m, op));
    reveal(doc_applied);
    reveal(mode_set);
    assert(a1.documents == m.documents);
    assert(a1.active() == m.active());
}

/// Vim motion law: in normal mode `j` moves the cursor one line down and `k`
/// one line up, to the remembered column; neither touches the text, the mode
/// or any other document; at the last line `j`, at the first line `k`,
/// leaves the cursor where it is.
#[verifier::rlimit(30)]
pub proof fn law_vim_j_down_k_up(a0: App, a1: App, c: char, effects: Seq<Effect>)
    requires
        a0.wf(),
        a0.documents@.len() > 0,
        a0.active().buffer@.lines.len() <= usize::MAX,
        a0.vim_mode == VimSubMode::Normal,
        c == 'j' || c == 'k',
        vim_step(a0, a1, KeyCode::Char(c), effects),
    ensures
        effects.len() == 0,
        a1.vim_mode == VimSubMode::Normal,
        a1.active_tab == a0.active_tab,
        a1.documents@.len() == a0.documents@.len(),
        forall|i: int| 0 <= i < a0.documents@.len() && i != a0.active_tab ==> a1.documents@[i] == a0.documents@[i],
        a1.active().buffer == a0.active().buffer,
        c == 'j' ==> a1.active().cursor.row == if a0.active().cursor.row + 1 < a0.active().buffer@.lines.len() {
            a0.active().cursor.row + 1
        } else {
            a0.active().cursor.row as int
        },
        c == 'k' ==> a1.active().cursor.row == if a0.active().cursor.row > 0 {
            a0.active().cursor.row - 1
        } else {
            a0.active().cursor.row as int
        },
        a1.active().cursor.row != a0.active().cursor.row ==> a1.active().cursor.col
            == a0.active().cursor.desired_col,
{
    let k = KeyCode::Char(c);
    let op = if c == 'j' {
        DocOp::Down
    } else {
        DocOp::Up
    };
    assert(normal_op_of(k) == Some(op));
    assert(normal_mode_after(k) == VimSubMode::Normal);
    lemma_normal_key_step(a0, a1, k, effects);
    lemma_op_then_normal(a0, a1, op);
    lemma_line_motion(a0.active(), a1.active(), op);
}

} // verus!
