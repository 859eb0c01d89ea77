//! Colour themes: the built-in ones and those defined in theme files.
pub mod builtin;

use vstd::prelude::*;
use crate::text::chars_of;

verus! {

#[derive(Debug, Clone, Copy, PartialEq, Eq, Structural)]
pub enum Color {
    Rgb(u8, u8, u8),
}

#[derive(Debug, Clone)]
#[allow(dead_code)]
pub struct Theme {
    pub name: String,
    pub bg: Color,
    pub fg: Color,
    pub accent: Color,
    pub accent_dim: Color,
    pub gutter_bg: Color,
    pub gutter_fg: Color,
    pub active_line_bg: Color,
    pub selection_bg: Color,
    pub status_bg: Color,
    pub status_fg: Color,
    pub tab_bg: Color,
    pub tab_active_bg: Color,
    pub tab_fg: Color,
    pub tab_active_fg: Color,
    pub sidebar_bg: Color,
    pub sidebar_fg: Color,
    pub sidebar_active_bg: Color,
    pub border: Color,
    pub keyword: Color,
    pub string: Color,
    pub comment: Color,
    pub function: Color,
    pub type_color: Color,
    pub number: Color,
    pub operator: Color,
    pub error: Color,
    pub warning: Color,
    pub success: Color,
    pub popup_bg: Color,
    pub popup_border: Color,
}

impl Theme {
    /// The built-in themes, in the order the theme cycle visits them.
    pub fn builtins() -> (ts: Vec<Theme>)
        ensures
            ts@.len() == 11,
            builtin::is_aether_dark(ts@[0]),
            builtin::is_aether_light(ts@[1]),
            builtin::is_ember(ts@[2]),
            builtin::is_frost(ts@[3]),
            builtin::is_midnight(ts@[4]),
            builtin::is_sakura(ts@[5]),
            builtin::is_void(ts@[6]),
            builtin::is_sea_software_dark(ts@[7]),
            builtin::is_sea_software_light(ts@[8]),
            builtin::is_solarized(ts@[9]),
            builtin::is_dracula(ts@[10]),
    {
        let themes = vec![
            builtin::aether_dark(),
            builtin::aether_light(),
            builtin::ember(),
            builtin::frost(),
            builtin::midnight(),
            builtin::sakura(),
            builtin::void(),
            builtin::sea_software_dark(),
            builtin::sea_software_light(),
            builtin::solarized(),
            builtin::dracula(),
        ];
        themes
    }

    /// An equal copy of the theme.
    pub fn duplicate(&self) -> (t: Theme)
        ensures
            t == *self,
    {
        Theme {
            name: self.name.clone(),
            bg: self.bg,
            fg: self.fg,
            accent: self.accent,
            accent_dim: self.accent_dim,
            gutter_bg: self.gutter_bg,
            gutter_fg: self.gutter_fg,
            active_line_bg: self.active_line_bg,
            selection_bg: self.selection_bg,
            status_bg: self.status_bg,
            status_fg: self.status_fg,
            tab_bg: self.tab_bg,
            tab_active_bg: self.tab_active_bg,
            tab_fg: self.tab_fg,
            tab_active_fg: self.tab_active_fg,
            sidebar_bg: self.sidebar_bg,
            sidebar_fg: self.sidebar_fg,
            sidebar_active_bg: self.sidebar_active_bg,
            border: self.border,
            keyword: self.keyword,
            string: self.string,
            comment: self.comment,
            function: self.function,
            type_color: self.type_color,
            number: self.number,
            operator: self.operator,
            error: self.error,
            warning: self.warning,
            success: self.success,
            popup_bg: self.popup_bg,
            popup_border: self.popup_border,
        }
    }

    /// The number of built-in themes.
    pub fn builtin_count() -> (n: usize)
        ensures
            n == 11,
    {
        11
    }
}

/// Custom theme definition in TOML
pub struct CustomThemeDef {
    pub name: String,
    pub bg: String,
    pub fg: String,
    pub accent: String,
    pub accent_dim: Option<String>,
    pub gutter_fg: Option<String>,
    pub border: Option<String>,
    pub keyword: Option<String>,
    pub string: Option<String>,
    pub comment: Option<String>,
    pub function: Option<String>,
    pub type_color: Option<String>,
    pub number: Option<String>,
    pub error: Option<String>,
}

/// The number of leading `'#'` characters of `s` from index `i`.
pub open spec fn hashes_from(s: Seq<char>, i: int) -> int
    decreases s.len() - i,
{
    if 0 <= i < s.len() && s[i] == '#' {
        hashes_from(s, i + 1)
    } else {
        i
    }
}

/// `s` with all leading `'#'` characters removed (`trim_start_matches('#')`).
pub open spec fn trim_hashes(s: Seq<char>) -> Seq<char> {
    s.skip(hashes_from(s, 0))
}

/// The value of a hexadecimal digit.
pub open spec fn hex_digit(c: char) -> Option<u8> {
    if '0' <= c <= '9' {
        Some((c as u32 - '0' as u32) as u8)
    } else if 'a' <= c <= 'f' {
        Some((c as u32 - 'a' as u32 + 10) as u8)
    } else if 'A' <= c <= 'F' {
        Some((c as u32 - 'A' as u32 + 10) as u8)
    } else {
        None
    }
}

/// The byte two hexadecimal digits `a` and `b` write, if both are digits.
pub open spec fn hex_pair(a: char, b: char) -> Option<u8> {
    match (hex_digit(a), hex_digit(b)) {
        (Some(x), Some(y)) => Some((x * 16 + y) as u8),
        _ => None,
    }
}

/// The colour `"#RRGGBB"` names: after the leading `'#'`s, exactly six
/// hexadecimal digits, read in pairs; `None` for any other text.
pub open spec fn hex_color(s: Seq<char>) -> Option<Color> {
    let t = trim_hashes(s);
    if t.len() != 6 {
        None
    } else {
        match (hex_pair(t[0], t[1]), hex_pair(t[2], t[3]), hex_pair(t[4], t[5])) {
            (Some(r), Some(g), Some(b)) => Some(Color::Rgb(r, g, b)),
            _ => None,
        }
    }
}

/// A channel lowered by `amount`, not below 0.
pub open spec fn sub_sat(v: u8, amount: u8) -> u8 {
    if v >= amount {
        (v - amount) as u8
    } else {
        0
    }
}

/// A channel raised by `amount`, not above 255.
pub open spec fn add_sat(v: u8, amount: u8) -> u8 {
    if v + amount <= 255 {
        (v + amount) as u8
    } else {
        255
    }
}

/// Every channel of `c` lowered by `amount` (saturating).
pub open spec fn darkened(c: Color, amount: u8) -> Color {
    match c {
        Color::Rgb(r, g, b) => Color::Rgb(sub_sat(r, amount), sub_sat(g, amount), sub_sat(b, amount)),
    }
}

/// Every channel of `c` raised by `amount` (saturating).
pub open spec fn lightened(c: Color, amount: u8) -> Color {
    match c {
        Color::Rgb(r, g, b) => Color::Rgb(add_sat(r, amount), add_sat(g, amount), add_sat(b, amount)),
    }
}

/// The colour an optional field names, `default` when it is absent or not a colour.
pub open spec fn or_color(field: Option<String>, default: Color) -> Color {
    match field {
        Some(s) => match hex_color(s@) {
            Some(c) => c,
            None => default,
        },
        None => default,
    }
}

/// The theme a definition describes: `None` unless its background, text and
/// accent colours parse; missing or unreadable optional colours derived
/// from those.
pub open spec fn theme_from(def: CustomThemeDef) -> Option<Theme> {
    match (hex_color(def.bg@), hex_color(def.fg@), hex_color(def.accent@)) {
        (Some(bg), Some(fg), Some(accent)) => {
                let accent_dim = or_color(def.accent_dim, darkened(accent, 40));
                let border = or_color(def.border, lightened(bg, 30));
                let gutter_fg = or_color(def.gutter_fg, darkened(fg, 60));
                let keyword = or_color(def.keyword, accent);
                let string = or_color(def.string, lightened(accent, 40));
                let comment = or_color(def.comment, gutter_fg);
                let function = or_color(def.function, lightened(accent, 20));
                let type_color = or_color(def.type_color, accent_dim);
                let number = or_color(def.number, lightened(accent, 30));
                let error = or_color(def.error, Color::Rgb(255, 80, 80));
                Some(Theme {
                name: def.name,
                bg,
                fg,
                accent,
                accent_dim,
                gutter_bg: darkened(bg, 5),
                gutter_fg,
                active_line_bg: lightened(bg, 10),
                selection_bg: lightened(bg, 20),
                status_bg: lightened(bg, 8),
                status_fg: fg,
                tab_bg: darkened(bg, 5),
                tab_active_bg: bg,
                tab_fg: gutter_fg,
                tab_active_fg: fg,
                sidebar_bg: darkened(bg, 5),
                sidebar_fg: darkened(fg, 20),
                sidebar_active_bg: lightened(bg, 10),
                border,
                keyword,
                string,
                comment,
                function,
                type_color,
                number,
                operator: accent_dim,
                error,
                warning: Color::Rgb(224, 175, 104),
                success: string,
                popup_bg: lightened(bg, 5),
                popup_border: accent,
            })
        },
        _ => None,
    }
}

/// Lowers every channel by `amount`, stopping at 0.
pub fn darken(color: Color, amount: u8) -> (c: Color)
    ensures
        c == darkened(color, amount),
{
    match color {
        Color::Rgb(r, g, b) => Color::Rgb(
            r.saturating_sub(amount),
            g.saturating_sub(amount),
            b.saturating_sub(amount),
        ),
    }
}

/// Raises every channel by `amount`, stopping at 255.
pub fn lighten(color: Color, amount: u8) -> (c: Color)
    ensures
        c == lightened(color, amount),
{
    match color {
        Color::Rgb(r, g, b) => Color::Rgb(
            r.saturating_add(amount),
            g.saturating_add(amount),
            b.saturating_add(amount),
        ),
    }
}

/// The value of the hexadecimal digit `c`, if it is one.
fn hex_value(c: char) -> (r: Option<u8>)
    ensures
        r == hex_digit(c),
{
    if '0' <= c && c <= '9' {
        Some(((c as u32) - ('0' as u32)) as u8)
    } else if 'a' <= c && c <= 'f' {
        Some(((c as u32) - ('a' as u32) + 10) as u8)
    } else if 'A' <= c && c <= 'F' {
        Some(((c as u32) - ('A' as u32) + 10) as u8)
    } else {
        None
    }
}

/// The byte the digits `a` and `b` write (see `hex_pair`).
fn pair_value(a: char, b: char) -> (r: Option<u8>)
    ensures
        r == hex_pair(a, b),
{
    match (hex_value(a), hex_value(b)) {
        (Some(x), Some(y)) => Some(x * 16 + y),
        _ => None,
    }
}

/// Reads a colour written as `"#RRGGBB"` (any number of leading `'#'`);
/// `None` unless exactly six hexadecimal digits follow them.
pub fn parse_hex_color(hex: &str) -> (c: Option<Color>)
    ensures
        c == hex_color(hex@),
{
    let cs = chars_of(hex);
    let n = cs.len();
    let mut i: usize = 0;
    while i < n && cs[i] == '#'
        invariant
            cs@ == hex@,
            n == cs@.len(),
            i <= n,
            hashes_from(hex@, i as int) == hashes_from(hex@, 0),
        decreases n - i,
    {
        i = i + 1;
    }
    let ghost t = trim_hashes(hex@);
    assert(t =~= cs@.skip(i as int));
    if n - i != 6 {
        return None;
    }
    let r = pair_value(cs[i], cs[i + 1]);
    let g = pair_value(cs[i + 2], cs[i + 3]);
    let b = pair_value(cs[i + 4], cs[i + 5]);
    match (r, g, b) {
        (Some(r), Some(g), Some(b)) => Some(Color::Rgb(r, g, b)),
        _ => None,
    }
}

/// The colour an optional field names, `default` when absent or unreadable.
fn color_or(field: &Option<String>, default: Color) -> (c: Color)
    ensures
        c == or_color(*field, default),
{
    match field {
        Some(s) => match parse_hex_color(s.as_str()) {
            Some(c) => c,
            None => default,
        },
        None => default,
    }
}

/// The theme a theme file defines; `None` unless its background, text and
/// accent colours parse.
pub fn build_custom_theme(def: CustomThemeDef) -> (t: Option<Theme>)
    ensures
        t == theme_from(def),
{
    let bg = match parse_hex_color(def.bg.as_str()) {
        Some(c) => c,
        None => return None,
    };
    let fg = match parse_hex_color(def.fg.as_str()) {
        Some(c) => c,
        None => return None,
    };
    let accent = match parse_hex_color(def.accent.as_str()) {
        Some(c) => c,
        None => return None,
    };
    let accent_dim = color_or(&def.accent_dim, darken(accent, 40));
    let border = color_or(&def.border, lighten(bg, 30));
    let gutter_fg = color_or(&def.gutter_fg, darken(fg, 60));
    let keyword = color_or(&def.keyword, accent);
    let string = color_or(&def.string, lighten(accent, 40));
    let comment = color_or(&def.comment, gutter_fg);
    let function = color_or(&def.function, lighten(accent, 20));
    let type_color = color_or(&def.type_color, accent_dim);
    let number = color_or(&def.number, lighten(accent, 30));
    let error = color_or(&def.error, Color::Rgb(255, 80, 80));
    Some(Theme {
        name: def.name,
        bg,
        fg,
        accent,
        accent_dim,
        gutter_bg: darken(bg, 5),
        gutter_fg,
        active_line_bg: lighten(bg, 10),
        selection_bg: lighten(bg, 20),
        status_bg: lighten(bg, 8),
        status_fg: fg,
        tab_bg: darken(bg, 5),
        tab_active_bg: bg,
        tab_fg: gutter_fg,
        tab_active_fg: fg,
        sidebar_bg: darken(bg, 5),
        sidebar_fg: darken(fg, 20),
        sidebar_active_bg: lighten(bg, 10),
        border,
        keyword,
        string,
        comment,
        function,
        type_color,
        number,
        operator: accent_dim,
        error,
        warning: Color::Rgb(224, 175, 104),
        success: string,
        popup_bg: lighten(bg, 5),
        popup_border: accent,
    })
}

} // verus!
