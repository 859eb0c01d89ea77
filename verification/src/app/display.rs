//! The text of the status bar: what it says, left to right, and how much
//! room is left between its parts.
use vstd::prelude::*;
use crate::app::{App, EditMode, VimSubMode};
use crate::editor::document::doc_name;
use crate::text::{byte_len, push_char, text_len};

verus! {

/// The character of the decimal digit `d`.
pub open spec fn digit_char(d: int) -> char {
    ((48 + d) as u8) as char
}

/// The decimal notation of `n`, without leading zeros.
pub open spec fn decimal_text(n: nat) -> Seq<char>
    decreases n,
{
    if n < 10 {
        seq![digit_char(n as int)]
    } else {
        decimal_text(n / 10).push(digit_char((n % 10) as int))
    }
}

/// The decimal notation of `n`.
pub fn decimal(n: u128) -> (s: String)
    ensures
        s@ == decimal_text(n as nat),
    decreases n,
{
    let d: u8 = (n % 10) as u8;
    let c: char = (48u8 + d) as char;
    let mut s = if n < 10 {
        String::new()
    } else {
        decimal(n / 10)
    };
    push_char(&mut s, c);
    s
}

/// The mode shown at the left of the status bar.
pub open spec fn mode_label(m: EditMode, v: VimSubMode) -> Seq<char> {
    match m {
        EditMode::Vim => match v {
            VimSubMode::Normal => " NORMAL "@,
            VimSubMode::Insert => " INSERT "@,
            VimSubMode::Command => " COMMAND "@,
            VimSubMode::Visual => " VISUAL "@,
        },
        EditMode::Nano => " NANO "@,
        EditMode::Emacs => " EMACS "@,
        EditMode::Aether => " AETHER "@,
    }
}

/// The command line being typed, in vim's command mode.
pub open spec fn command_label(a: App) -> Seq<char> {
    if a.edit_mode == EditMode::Vim && a.vim_mode == VimSubMode::Command {
        " :"@ + a.vim_command_buffer@
    } else {
        Seq::empty()
    }
}

/// The middle of the bar: the status message when there is one, else the
/// open file's name, marked when modified.
pub open spec fn middle_label(a: App) -> Seq<char> {
    if a.status_message@.len() > 0 {
        " "@ + a.status_message@ + " "@
    } else if a.documents@.len() > 0 {
        " "@ + doc_name(a.active()) + (if a.active().modified {
            " [+]"@
        } else {
            Seq::empty()
        }) + " "@
    } else {
        " No file "@
    }
}

/// The right of the bar: the cursor's line and column, counted from one,
/// the file type and the encoding.
pub open spec fn position_label(a: App) -> Seq<char> {
    if a.documents@.len() > 0 {
        " Ln "@ + decimal_text(a.active().cursor.row as nat + 1) + ", Col "@ + decimal_text(
            a.active().cursor.col as nat + 1,
        ) + " │ "@ + a.active().file_type@ + " │ UTF-8 "@
    } else {
        Seq::empty()
    }
}

/// The parts of the status bar, left to right.
pub struct StatusBar {
    pub mode: String,
    pub command: String,
    /// The middle part, which holds the status message when
    /// `shows_message`, else the file name.
    pub middle: String,
    pub shows_message: bool,
    /// The blanks between the middle and the right part.
    pub padding: usize,
    pub right: String,
}

/// The spaces left over on a bar `width` bytes wide once `used` bytes are
/// taken, none when they do not fit.
pub open spec fn room_left(width: int, used: int) -> int {
    if used < width {
        width - used
    } else {
        0
    }
}

/// The label of a tab: the document's file name, with a dot when it has
/// unsaved changes.
pub open spec fn tab_label(d: crate::editor::document::Document) -> Seq<char> {
    " "@ + doc_name(d) + (if d.modified {
        " ●"@
    } else {
        Seq::empty()
    }) + " "@
}

impl App {
    /// The labels of the open tabs, in order.
    pub fn tab_labels(&self) -> (ls: Vec<String>)
        ensures
            ls@.len() == self.documents@.len(),
            forall|i: int| 0 <= i < ls@.len() ==> #[trigger] ls@[i]@ == tab_label(self.documents@[i]),
    {
        let mut ls: Vec<String> = Vec::new();
        let mut i: usize = 0;
        while i < self.documents.len()
            invariant
                i <= self.documents@.len(),
                ls@.len() == i,
                forall|j: int| 0 <= j < i ==> #[trigger] ls@[j]@ == tab_label(self.documents@[j]),
            decreases self.documents@.len() - i,
        {
            let doc = &self.documents[i];
            let mut l = " ".to_owned();
            l.append(doc.file_name());
            if doc.modified {
                l.append(" ●");
            }
            l.append(" ");
            ls.push(l);
            i = i + 1;
        }
        ls
    }

    /// The status bar of the editor, `width` columns wide.
    pub fn status_bar(&self, width: usize) -> (b: StatusBar)
        requires
            self.wf(),
        ensures
            b.mode@ == mode_label(self.edit_mode, self.vim_mode),
            b.command@ == command_label(*self),
            b.middle@ == middle_label(*self),
            b.shows_message == (self.status_message@.len() > 0),
            b.right@ == position_label(*self),
            b.padding == room_left(
                width as int,
                (byte_len(b.mode@) + byte_len(b.command@) + byte_len(b.middle@) + byte_len(
                    b.right@,
                )) as int,
            ),
    {
        let mode = match self.edit_mode {
            EditMode::Vim => match self.vim_mode {
                VimSubMode::Normal => " NORMAL ".to_owned(),
                VimSubMode::Insert => " INSERT ".to_owned(),
                VimSubMode::Command => " COMMAND ".to_owned(),
                VimSubMode::Visual => " VISUAL ".to_owned(),
            },
            EditMode::Nano => " NANO ".to_owned(),
            EditMode::Emacs => " EMACS ".to_owned(),
            EditMode::Aether => " AETHER ".to_owned(),
        };
        let command = if self.edit_mode == EditMode::Vim && self.vim_mode == VimSubMode::Command {
            let mut c = " :".to_owned();
            c.append(self.vim_command_buffer.as_str());
            c
        } else {
            String::new()
        };
        let shows_message = !self.status_message.as_str().is_empty();
        let middle = if shows_message {
            let mut m = " ".to_owned();
            m.append(self.status_message.as_str());
            m.append(" ");
            m
        } else if self.documents.len() > 0 {
            let doc = &self.documents[self.active_tab];
            let mut m = " ".to_owned();
            m.append(doc.file_name());
            if doc.modified {
                m.append(" [+]");
            }
            m.append(" ");
            m
        } else {
            " No file ".to_owned()
        };
        let right = if self.documents.len() > 0 {
            let doc = &self.documents[self.active_tab];
            let mut r = " Ln ".to_owned();
            let row = decimal(doc.cursor.row as u128 + 1);
            r.append(row.as_str());
            r.append(", Col ");
            let col = decimal(doc.cursor.col as u128 + 1);
            r.append(col.as_str());
            r.append(" │ ");
            r.append(doc.file_type.as_str());
            r.append(" │ UTF-8 ");
            r
        } else {
            String::new()
        };
        let used: u128 = text_len(mode.as_str()) as u128 + text_len(command.as_str()) as u128
            + text_len(middle.as_str()) as u128 + text_len(right.as_str()) as u128;
        let padding: usize = if used < width as u128 {
            width - (used as usize)
        } else {
            0
        };
        StatusBar { mode, command, middle, shows_message, padding, right }
    }
}

} // verus!
