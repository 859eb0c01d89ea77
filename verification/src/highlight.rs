//! Colouring of source lines with syntect's bundled grammars and its
//! "base16-ocean.dark" theme.
use vstd::prelude::*;
use crate::text::chars_of;
use crate::theme::Color;

verus! {

#[verifier::external_type_specification]
#[verifier::external_body]
pub struct ExSyntaxSet(syntect::parsing::SyntaxSet);

#[verifier::external_type_specification]
#[verifier::external_body]
pub struct ExThemeSet(syntect::highlighting::ThemeSet);

/// A run of text with one style: the text, its red, green and blue, and
/// whether it is bold and italic.
pub type RunView = (Seq<char>, u8, u8, u8, bool, bool);

/// The runs syntect's `HighlightLines::highlight_line` gives for the line
/// `text` with the syntax found for the extension `ext` (plain text when
/// none is), syntect's default syntaxes (the grammars that expect line
/// endings) and its "base16-ocean.dark" theme, each run with its
/// foreground colour and boldness and slant; `None` when it fails.
pub uninterp spec fn syntect_runs(text: Seq<char>, ext: Seq<char>) -> Option<Seq<RunView>>;

/// A run of a highlighted line.
pub struct StyledRun {
    pub text: String,
    pub r: u8,
    pub g: u8,
    pub b: u8,
    pub bold: bool,
    pub italic: bool,
}

/// The runs of a list of raw runs.
pub open spec fn raw_view(v: Seq<(String, u8, u8, u8, bool, bool)>) -> Seq<RunView> {
    Seq::new(v.len(), |i: int| (v[i].0@, v[i].1, v[i].2, v[i].3, v[i].4, v[i].5))
}

/// The runs of a highlighted line.
pub open spec fn runs_view(v: Seq<StyledRun>) -> Seq<RunView> {
    Seq::new(v.len(), |i: int| (v[i].text@, v[i].r, v[i].g, v[i].b, v[i].bold, v[i].italic))
}

/// `s` ending in a line break: as it is when it ends in one, else with one added.
pub open spec fn with_newline(s: Seq<char>) -> Seq<char> {
    if s.len() > 0 && s.last() == '\n' {
        s
    } else {
        s.push('\n')
    }
}

/// `s` without its trailing line breaks (`trim_end_matches('\n')`).
pub open spec fn trim_newlines(s: Seq<char>) -> Seq<char>
    decreases s.len(),
{
    if s.len() > 0 && s.last() == '\n' {
        trim_newlines(s.drop_last())
    } else {
        s
    }
}

/// The runs a line is shown with: syntect's runs for the line with a line
/// break, each without its trailing line breaks; when syntect fails, the
/// whole line in the colour `fg`, neither bold nor italic.
pub open spec fn highlighted(line: Seq<char>, ext: Seq<char>, fg: Color) -> Seq<RunView> {
    match syntect_runs(with_newline(line), ext) {
        Some(rs) => Seq::new(
            rs.len(),
            |i: int| (trim_newlines(rs[i].0), rs[i].1, rs[i].2, rs[i].3, rs[i].4, rs[i].5),
        ),
        None => match fg {
            Color::Rgb(r, g, b) => seq![(line, r, g, b, false, false)],
        },
    }
}

/// The syntect state a line is coloured with: the default syntaxes and the
/// "base16-ocean.dark" theme. Its fields are private and set only by `new`.
pub struct SyntaxHighlighter {
    syntaxes: syntect::parsing::SyntaxSet,
    themes: syntect::highlighting::ThemeSet,
}

impl SyntaxHighlighter {
    /// Calls `SyntaxSet::load_defaults_newlines` and `ThemeSet::load_defaults`.
    /// Nothing is stated of the loaded values: `syntect_runs` speaks of them.
    #[verifier::external_body]
    pub fn new() -> Self {
        SyntaxHighlighter {
            syntaxes: syntect::parsing::SyntaxSet::load_defaults_newlines(),
            themes: syntect::highlighting::ThemeSet::load_defaults(),
        }
    }

    /// Calls `HighlightLines::highlight_line` on `text` with the syntax for
    /// `ext` (or plain text) and the default set's "base16-ocean.dark" theme
    /// (which that set holds); each `(Style, &str)` run
    /// becomes its text, foreground colour, boldness and slant, an error
    /// `None`. Its result is named `syntect_runs`.
    #[verifier::external_body]
    fn syntect_highlight(&self, text: &str, ext: &str) -> (r: Option<Vec<(String, u8, u8, u8, bool, bool)>>)
        ensures
            match r {
                Some(v) => syntect_runs(text@, ext@) == Some(raw_view(v@)),
                None => syntect_runs(text@, ext@) is None,
            },
    {
        let syntax = self.syntaxes.find_syntax_by_extension(ext)
            .unwrap_or_else(|| self.syntaxes.find_syntax_plain_text());
        let mut lines = syntect::easy::HighlightLines::new(syntax, &self.themes.themes["base16-ocean.dark"]);
        let ranges = lines.highlight_line(text, &self.syntaxes).ok()?;
        let font = |s: &syntect::highlighting::Style, f| s.font_style.contains(f);
        Some(ranges.iter().map(|(s, t)| (t.to_string(), s.foreground.r, s.foreground.g, s.foreground.b,
            font(s, syntect::highlighting::FontStyle::BOLD), font(s, syntect::highlighting::FontStyle::ITALIC)))
            .collect())
    }

    /// The runs the line `line` of a file with extension `ext` is shown with
    /// (see `highlighted`).
    pub fn highlight_line(&self, line: &str, ext: &str, fg: Color) -> (runs: Vec<StyledRun>)
        ensures
            runs_view(runs@) == highlighted(line@, ext@, fg),
    {
        let cs = chars_of(line);
        let mut text = line.to_owned();
        if !(cs.len() > 0 && cs[cs.len() - 1] == '\n') {
            crate::text::push_char(&mut text, '\n');
        }
        match self.syntect_highlight(text.as_str(), ext) {
            Some(raw) => {
                let mut out: Vec<StyledRun> = Vec::new();
                let mut i: usize = 0;
                while i < raw.len()
                    invariant
                        i <= raw@.len(),
                        out@.len() == i,
                        forall|j: int| 0 <= j < i ==> #[trigger] runs_view(out@)[j] == (
                            trim_newlines(raw@[j].0@),
                            raw@[j].1,
                            raw@[j].2,
                            raw@[j].3,
                            raw@[j].4,
                            raw@[j].5,
                        ),
                    decreases raw@.len() - i,
                {
                    let (t, r, g, b, bold, italic) = (&raw[i].0, raw[i].1, raw[i].2, raw[i].3, raw[i].4, raw[i].5);
                    let ghost o0 = out@;
                    out.push(StyledRun { text: trim_newlines_of(t.as_str()), r, g, b, bold, italic });
                    proof {
                        assert forall|j: int| 0 <= j < i + 1 implies #[trigger] runs_view(out@)[j] == (
                            trim_newlines(raw@[j].0@),
                            raw@[j].1,
                            raw@[j].2,
                            raw@[j].3,
                            raw@[j].4,
                            raw@[j].5,
                        ) by {
                            if j < i {
                                assert(out@[j] == o0[j]);
                                assert(runs_view(o0)[j] == runs_view(out@)[j]);
                            }
                        }
                    }
                    i = i + 1;
                }
                assert(runs_view(out@) =~= highlighted(line@, ext@, fg));
                out
            },
            None => {
                let (r, g, b) = match fg {
                    Color::Rgb(r, g, b) => (r, g, b),
                };
                let mut out: Vec<StyledRun> = Vec::new();
                out.push(StyledRun { text: line.to_owned(), r, g, b, bold: false, italic: false });
                assert(runs_view(out@) =~= highlighted(line@, ext@, fg));
                out
            },
        }
    }
}

/// `s` without its trailing line breaks.
fn trim_newlines_of(s: &str) -> (t: String)
    ensures
        t@ == trim_newlines(s@),
{
    let cs = chars_of(s);
    let mut e = cs.len();
    assert(cs@.take(e as int) =~= s@);
    while e > 0 && cs[e - 1] == '\n'
        invariant
            cs@ == s@,
            e <= cs@.len(),
            trim_newlines(cs@.take(e as int)) == trim_newlines(s@),
        decreases e,
    {
        assert(cs@.take(e as int).drop_last() =~= cs@.take(e - 1));
        e = e - 1;
    }
    let t = s.substring_char(0, e);
    assert(t@ =~= cs@.take(e as int));
    t.to_owned()
}

} // verus!
