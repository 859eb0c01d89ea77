//! Icons shown before file names in the file tree and the file picker.
use vstd::prelude::*;
use crate::path::last_dot;
use crate::text::{chars_of, text_eq};

verus! {

/// The text after the last `'.'` of `name`, or all of it without a dot.
pub open spec fn after_last_dot(name: Seq<char>) -> Seq<char> {
    name.subrange(last_dot(name, 0, name.len() as int) + 1, name.len() as int)
}

proof fn lemma_last_dot_bounds(p: Seq<char>, s: int, e: int)
    requires
        0 <= s <= e <= p.len(),
    ensures
        last_dot(p, s, e) == -1 || (s <= last_dot(p, s, e) < e && p[last_dot(p, s, e)] == '.'),
    decreases e - s,
{
    if s < e && p[e - 1] != '.' {
        lemma_last_dot_bounds(p, s, e - 1);
    }
}

/// The text after the last `'.'` of `name` (`name.rsplit('.').next()`).
pub fn after_last_dot_of(name: &str) -> (ext: &str)
    ensures
        ext@ == after_last_dot(name@),
{
    let cs = chars_of(name);
    let n = cs.len();
    let mut d = n;
    while d > 0 && cs[d - 1] != '.'
        invariant
            cs@ == name@,
            n == cs@.len(),
            d <= n,
            last_dot(cs@, 0, d as int) == last_dot(cs@, 0, n as int),
        decreases d,
    {
        d = d - 1;
    }
    proof {
        lemma_last_dot_bounds(cs@, 0, n as int);
    }
    name.substring_char(d, n)
}

/// The file-tree icon for an extension.
pub open spec fn tree_icon_for(ext: Seq<char>) -> Seq<char> {
    if ext == "rs"@ {
        "\u{e7a8} "@
    } else if ext == "py"@ {
        "\u{e606} "@
    } else if ext == "js"@ || ext == "jsx"@ {
        "\u{e60c} "@
    } else if ext == "ts"@ || ext == "tsx"@ {
        "\u{e628} "@
    } else if ext == "html"@ || ext == "htm"@ {
        "\u{e736} "@
    } else if ext == "css"@ || ext == "scss"@ {
        "\u{e749} "@
    } else if ext == "json"@ {
        "\u{e60b} "@
    } else if ext == "toml"@ || ext == "yaml"@ || ext == "yml"@ {
        "\u{e615} "@
    } else if ext == "md"@ {
        "\u{f48a} "@
    } else if ext == "sh"@ || ext == "bash"@ {
        "\u{e795} "@
    } else if ext == "lua"@ {
        "\u{e620} "@
    } else if ext == "go"@ {
        "\u{e627} "@
    } else if ext == "c"@ || ext == "cpp"@ || ext == "h"@ || ext == "hpp"@ {
        "\u{e61d} "@
    } else if ext == "java"@ {
        "\u{e256} "@
    } else if ext == "rb"@ {
        "\u{e791} "@
    } else if ext == "lock"@ {
        "\u{f023} "@
    } else if ext == "txt"@ {
        "\u{f15b} "@
    } else if ext == "png"@ || ext == "jpg"@ || ext == "jpeg"@ || ext == "gif"@ || ext == "svg"@ {
        "\u{f03e} "@
    } else {
        "  "@
    }
}

/// The icon shown before a file called `name`, chosen by the text after its last `'.'`.
pub fn file_icon(name: &str) -> (icon: &str)
    ensures
        icon@ == tree_icon_for(after_last_dot(name@)),
{
    let ext = after_last_dot_of(name);
    if text_eq(ext, "rs") {
        return "\u{e7a8} ";
    }
    if text_eq(ext, "py") {
        return "\u{e606} ";
    }
    if text_eq(ext, "js") || text_eq(ext, "jsx") {
        return "\u{e60c} ";
    }
    if text_eq(ext, "ts") || text_eq(ext, "tsx") {
        return "\u{e628} ";
    }
    if text_eq(ext, "html") || text_eq(ext, "htm") {
        return "\u{e736} ";
    }
    if text_eq(ext, "css") || text_eq(ext, "scss") {
        return "\u{e749} ";
    }
    if text_eq(ext, "json") {
        return "\u{e60b} ";
    }
    if text_eq(ext, "toml") || text_eq(ext, "yaml") || text_eq(ext, "yml") {
        return "\u{e615} ";
    }
    if text_eq(ext, "md") {
        return "\u{f48a} ";
    }
    if text_eq(ext, "sh") || text_eq(ext, "bash") {
        return "\u{e795} ";
    }
    if text_eq(ext, "lua") {
        return "\u{e620} ";
    }
    if text_eq(ext, "go") {
        return "\u{e627} ";
    }
    if text_eq(ext, "c") || text_eq(ext, "cpp") || text_eq(ext, "h") || text_eq(ext, "hpp") {
        return "\u{e61d} ";
    }
    if text_eq(ext, "java") {
        return "\u{e256} ";
    }
    if text_eq(ext, "rb") {
        return "\u{e791} ";
    }
    if text_eq(ext, "lock") {
        return "\u{f023} ";
    }
    if text_eq(ext, "txt") {
        return "\u{f15b} ";
    }
    if text_eq(ext, "png") || text_eq(ext, "jpg") || text_eq(ext, "jpeg") || text_eq(ext, "gif") || text_eq(ext, "svg") {
        return "\u{f03e} ";
    }
    "  "
}

/// The file-picker icon for an extension.
pub open spec fn picker_icon_for(ext: Seq<char>) -> Seq<char> {
    if ext == "rs"@ {
        "\u{e7a8} "@
    } else if ext == "py"@ {
        "\u{e606} "@
    } else if ext == "js"@ || ext == "jsx"@ {
        "\u{e60c} "@
    } else if ext == "ts"@ || ext == "tsx"@ {
        "\u{e628} "@
    } else if ext == "html"@ || ext == "htm"@ {
        "\u{e736} "@
    } else if ext == "css"@ || ext == "scss"@ {
        "\u{e749} "@
    } else if ext == "json"@ {
        "\u{e60b} "@
    } else if ext == "toml"@ || ext == "yaml"@ || ext == "yml"@ {
        "\u{e615} "@
    } else if ext == "md"@ {
        "\u{f48a} "@
    } else if ext == "sh"@ || ext == "bash"@ {
        "\u{e795} "@
    } else if ext == "lua"@ {
        "\u{e620} "@
    } else if ext == "go"@ {
        "\u{e627} "@
    } else if ext == "c"@ || ext == "cpp"@ || ext == "h"@ || ext == "hpp"@ {
        "\u{e61d} "@
    } else if ext == "png"@ || ext == "jpg"@ || ext == "gif"@ || ext == "svg"@ {
        "\u{f03e} "@
    } else if ext == "lock"@ {
        "\u{f023} "@
    } else {
        "\u{f15b} "@
    }
}

/// The icon shown before a file called `name`, chosen by the text after its last `'.'`.
pub fn file_picker_icon(name: &str) -> (icon: &str)
    ensures
        icon@ == picker_icon_for(after_last_dot(name@)),
{
    let ext = after_last_dot_of(name);
    if text_eq(ext, "rs") {
        return "\u{e7a8} ";
    }
    if text_eq(ext, "py") {
        return "\u{e606} ";
    }
    if text_eq(ext, "js") || text_eq(ext, "jsx") {
        return "\u{e60c} ";
    }
    if text_eq(ext, "ts") || text_eq(ext, "tsx") {
        return "\u{e628} ";
    }
    if text_eq(ext, "html") || text_eq(ext, "htm") {
        return "\u{e736} ";
    }
    if text_eq(ext, "css") || text_eq(ext, "scss") {
        return "\u{e749} ";
    }
    if text_eq(ext, "json") {
        return "\u{e60b} ";
    }
    if text_eq(ext, "toml") || text_eq(ext, "yaml") || text_eq(ext, "yml") {
        return "\u{e615} ";
    }
    if text_eq(ext, "md") {
        return "\u{f48a} ";
    }
    if text_eq(ext, "sh") || text_eq(ext, "bash") {
        return "\u{e795} ";
    }
    if text_eq(ext, "lua") {
        return "\u{e620} ";
    }
    if text_eq(ext, "go") {
        return "\u{e627} ";
    }
    if text_eq(ext, "c") || text_eq(ext, "cpp") || text_eq(ext, "h") || text_eq(ext, "hpp") {
        return "\u{e61d} ";
    }
    if text_eq(ext, "png") || text_eq(ext, "jpg") || text_eq(ext, "gif") || text_eq(ext, "svg") {
        return "\u{f03e} ";
    }
    if text_eq(ext, "lock") {
        return "\u{f023} ";
    }
    "\u{f15b} "
}

} // verus!
