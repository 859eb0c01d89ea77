//! File-type names used by syntax highlighting.
use vstd::prelude::*;
use crate::text::text_eq;
use crate::editor::document::{file_type_for, file_type_of_path};

verus! {

/// The extension used for highlighting a file type ("txt" for any other).
pub open spec fn extension_for(file_type: Seq<char>) -> Seq<char> {
    if file_type == "Rust"@ {
        "rs"@
    } else if file_type == "Python"@ {
        "py"@
    } else if file_type == "JavaScript"@ {
        "js"@
    } else if file_type == "TypeScript"@ {
        "ts"@
    } else if file_type == "React"@ {
        "tsx"@
    } else if file_type == "HTML"@ {
        "html"@
    } else if file_type == "CSS"@ {
        "css"@
    } else if file_type == "JSON"@ {
        "json"@
    } else if file_type == "TOML"@ {
        "toml"@
    } else if file_type == "YAML"@ {
        "yaml"@
    } else if file_type == "Markdown"@ {
        "md"@
    } else if file_type == "Shell"@ {
        "sh"@
    } else if file_type == "C"@ {
        "c"@
    } else if file_type == "C++"@ {
        "cpp"@
    } else if file_type == "Header"@ {
        "h"@
    } else if file_type == "Go"@ {
        "go"@
    } else if file_type == "Java"@ {
        "java"@
    } else if file_type == "Ruby"@ {
        "rb"@
    } else if file_type == "Lua"@ {
        "lua"@
    } else if file_type == "Zig"@ {
        "zig"@
    } else if file_type == "XML"@ {
        "xml"@
    } else if file_type == "SQL"@ {
        "sql"@
    } else {
        "txt"@
    }
}

/// The extension to highlight a file of type `file_type` as.
pub fn get_file_extension(file_type: &str) -> (e: &str)
    ensures
        e@ == extension_for(file_type@),
{
    if text_eq(file_type, "Rust") {
        return "rs";
    }
    if text_eq(file_type, "Python") {
        return "py";
    }
    if text_eq(file_type, "JavaScript") {
        return "js";
    }
    if text_eq(file_type, "TypeScript") {
        return "ts";
    }
    if text_eq(file_type, "React") {
        return "tsx";
    }
    if text_eq(file_type, "HTML") {
        return "html";
    }
    if text_eq(file_type, "CSS") {
        return "css";
    }
    if text_eq(file_type, "JSON") {
        return "json";
    }
    if text_eq(file_type, "TOML") {
        return "toml";
    }
    if text_eq(file_type, "YAML") {
        return "yaml";
    }
    if text_eq(file_type, "Markdown") {
        return "md";
    }
    if text_eq(file_type, "Shell") {
        return "sh";
    }
    if text_eq(file_type, "C") {
        return "c";
    }
    if text_eq(file_type, "C++") {
        return "cpp";
    }
    if text_eq(file_type, "Header") {
        return "h";
    }
    if text_eq(file_type, "Go") {
        return "go";
    }
    if text_eq(file_type, "Java") {
        return "java";
    }
    if text_eq(file_type, "Ruby") {
        return "rb";
    }
    if text_eq(file_type, "Lua") {
        return "lua";
    }
    if text_eq(file_type, "Zig") {
        return "zig";
    }
    if text_eq(file_type, "XML") {
        return "xml";
    }
    if text_eq(file_type, "SQL") {
        return "sql";
    }
    "txt"
}

/// The file types that have an extension of their own.
pub open spec fn named_file_type(t: Seq<char>) -> bool {
    t == "Rust"@ || t == "Python"@ || t == "JavaScript"@ || t == "TypeScript"@ || t == "React"@ || t == "HTML"@ || t == "CSS"@ || t == "JSON"@ || t == "TOML"@ || t == "YAML"@ || t == "Markdown"@ || t == "Shell"@ || t == "C"@ || t == "C++"@ || t == "Header"@ || t == "Go"@ || t == "Java"@ || t == "Ruby"@ || t == "Lua"@ || t == "Zig"@ || t == "XML"@ || t == "SQL"@
}

/// The length and first characters of every literal of the file-type and
/// extension tables, which tell any two of them apart.
proof fn lemma_table_literals()
    ensures
        "C"@.len() == 1 && "C"@[0] == 'C',
        "C++"@.len() == 3 && "C++"@[0] == 'C' && "C++"@[1] == '+' && "C++"@[2] == '+',
        "CSS"@.len() == 3 && "CSS"@[0] == 'C' && "CSS"@[1] == 'S' && "CSS"@[2] == 'S',
        "Go"@.len() == 2 && "Go"@[0] == 'G' && "Go"@[1] == 'o',
        "HTML"@.len() == 4 && "HTML"@[0] == 'H' && "HTML"@[1] == 'T' && "HTML"@[2] == 'M' && "HTML"@[3] == 'L',
        "Header"@.len() == 6 && "Header"@[0] == 'H' && "Header"@[1] == 'e' && "Header"@[2] == 'a' && "Header"@[3] == 'd' && "Header"@[4] == 'e' && "Header"@[5] == 'r',
        "JSON"@.len() == 4 && "JSON"@[0] == 'J' && "JSON"@[1] == 'S' && "JSON"@[2] == 'O' && "JSON"@[3] == 'N',
        "Java"@.len() == 4 && "Java"@[0] == 'J' && "Java"@[1] == 'a' && "Java"@[2] == 'v' && "Java"@[3] == 'a',
        "JavaScript"@.len() == 10 && "JavaScript"@[0] == 'J' && "JavaScript"@[1] == 'a' && "JavaScript"@[2] == 'v' && "JavaScript"@[3] == 'a' && "JavaScript"@[4] == 'S' && "JavaScript"@[5] == 'c' && "JavaScript"@[6] == 'r' && "JavaScript"@[7] == 'i' && "JavaScript"@[8] == 'p' && "JavaScript"@[9] == 't',
        "Lua"@.len() == 3 && "Lua"@[0] == 'L' && "Lua"@[1] == 'u' && "Lua"@[2] == 'a',
        "Markdown"@.len() == 8 && "Markdown"@[0] == 'M' && "Markdown"@[1] == 'a' && "Markdown"@[2] == 'r' && "Markdown"@[3] == 'k' && "Markdown"@[4] == 'd' && "Markdown"@[5] == 'o' && "Markdown"@[6] == 'w' && "Markdown"@[7] == 'n',
        "Plain Text"@.len() == 10 && "Plain Text"@[0] == 'P' && "Plain Text"@[1] == 'l' && "Plain Text"@[2] == 'a' && "Plain Text"@[3] == 'i' && "Plain Text"@[4] == 'n' && "Plain Text"@[5] == ' ' && "Plain Text"@[6] == 'T' && "Plain Text"@[7] == 'e' && "Plain Text"@[8] == 'x' && "Plain Text"@[9] == 't',
        "Python"@.len() == 6 && "Python"@[0] == 'P' && "Python"@[1] == 'y' && "Python"@[2] == 't' && "Python"@[3] == 'h' && "Python"@[4] == 'o' && "Python"@[5] == 'n',
        "React"@.len() == 5 && "React"@[0] == 'R' && "React"@[1] == 'e' && "React"@[2] == 'a' && "React"@[3] == 'c' && "React"@[4] == 't',
        "Ruby"@.len() == 4 && "Ruby"@[0] == 'R' && "Ruby"@[1] == 'u' && "Ruby"@[2] == 'b' && "Ruby"@[3] == 'y',
        "Rust"@.len() == 4 && "Rust"@[0] == 'R' && "Rust"@[1] == 'u' && "Rust"@[2] == 's' && "Rust"@[3] == 't',
        "SQL"@.len() == 3 && "SQL"@[0] == 'S' && "SQL"@[1] == 'Q' && "SQL"@[2] == 'L',
        "Shell"@.len() == 5 && "Shell"@[0] == 'S' && "Shell"@[1] == 'h' && "Shell"@[2] == 'e' && "Shell"@[3] == 'l' && "Shell"@[4] == 'l',
        "TOML"@.len() == 4 && "TOML"@[0] == 'T' && "TOML"@[1] == 'O' && "TOML"@[2] == 'M' && "TOML"@[3] == 'L',
        "Text"@.len() == 4 && "Text"@[0] == 'T' && "Text"@[1] == 'e' && "Text"@[2] == 'x' && "Text"@[3] == 't',
        "TypeScript"@.len() == 10 && "TypeScript"@[0] == 'T' && "TypeScript"@[1] == 'y' && "TypeScript"@[2] == 'p' && "TypeScript"@[3] == 'e' && "TypeScript"@[4] == 'S' && "TypeScript"@[5] == 'c' && "TypeScript"@[6] == 'r' && "TypeScript"@[7] == 'i' && "TypeScript"@[8] == 'p' && "TypeScript"@[9] == 't',
        "XML"@.len() == 3 && "XML"@[0] == 'X' && "XML"@[1] == 'M' && "XML"@[2] == 'L',
        "YAML"@.len() == 4 && "YAML"@[0] == 'Y' && "YAML"@[1] == 'A' && "YAML"@[2] == 'M' && "YAML"@[3] == 'L',
        "Zig"@.len() == 3 && "Zig"@[0] == 'Z' && "Zig"@[1] == 'i' && "Zig"@[2] == 'g',
        "bash"@.len() == 4 && "bash"@[0] == 'b' && "bash"@[1] == 'a' && "bash"@[2] == 's' && "bash"@[3] == 'h',
        "c"@.len() == 1 && "c"@[0] == 'c',
        "cc"@.len() == 2 && "cc"@[0] == 'c' && "cc"@[1] == 'c',
        "cpp"@.len() == 3 && "cpp"@[0] == 'c' && "cpp"@[1] == 'p' && "cpp"@[2] == 'p',
        "css"@.len() == 3 && "css"@[0] == 'c' && "css"@[1] == 's' && "css"@[2] == 's',
        "cxx"@.len() == 3 && "cxx"@[0] == 'c' && "cxx"@[1] == 'x' && "cxx"@[2] == 'x',
        "go"@.len() == 2 && "go"@[0] == 'g' && "go"@[1] == 'o',
        "h"@.len() == 1 && "h"@[0] == 'h',
        "hpp"@.len() == 3 && "hpp"@[0] == 'h' && "hpp"@[1] == 'p' && "hpp"@[2] == 'p',
        "htm"@.len() == 3 && "htm"@[0] == 'h' && "htm"@[1] == 't' && "htm"@[2] == 'm',
        "html"@.len() == 4 && "html"@[0] == 'h' && "html"@[1] == 't' && "html"@[2] == 'm' && "html"@[3] == 'l',
        "java"@.len() == 4 && "java"@[0] == 'j' && "java"@[1] == 'a' && "java"@[2] == 'v' && "java"@[3] == 'a',
        "js"@.len() == 2 && "js"@[0] == 'j' && "js"@[1] == 's',
        "json"@.len() == 4 && "json"@[0] == 'j' && "json"@[1] == 's' && "json"@[2] == 'o' && "json"@[3] == 'n',
        "jsx"@.len() == 3 && "jsx"@[0] == 'j' && "jsx"@[1] == 's' && "jsx"@[2] == 'x',
        "lua"@.len() == 3 && "lua"@[0] == 'l' && "lua"@[1] == 'u' && "lua"@[2] == 'a',
        "md"@.len() == 2 && "md"@[0] == 'm' && "md"@[1] == 'd',
        "py"@.len() == 2 && "py"@[0] == 'p' && "py"@[1] == 'y',
        "rb"@.len() == 2 && "rb"@[0] == 'r' && "rb"@[1] == 'b',
        "rs"@.len() == 2 && "rs"@[0] == 'r' && "rs"@[1] == 's',
        "sh"@.len() == 2 && "sh"@[0] == 's' && "sh"@[1] == 'h',
        "sql"@.len() == 3 && "sql"@[0] == 's' && "sql"@[1] == 'q' && "sql"@[2] == 'l',
        "toml"@.len() == 4 && "toml"@[0] == 't' && "toml"@[1] == 'o' && "toml"@[2] == 'm' && "toml"@[3] == 'l',
        "ts"@.len() == 2 && "ts"@[0] == 't' && "ts"@[1] == 's',
        "tsx"@.len() == 3 && "tsx"@[0] == 't' && "tsx"@[1] == 's' && "tsx"@[2] == 'x',
        "txt"@.len() == 3 && "txt"@[0] == 't' && "txt"@[1] == 'x' && "txt"@[2] == 't',
        "xml"@.len() == 3 && "xml"@[0] == 'x' && "xml"@[1] == 'm' && "xml"@[2] == 'l',
        "yaml"@.len() == 4 && "yaml"@[0] == 'y' && "yaml"@[1] == 'a' && "yaml"@[2] == 'm' && "yaml"@[3] == 'l',
        "yml"@.len() == 3 && "yml"@[0] == 'y' && "yml"@[1] == 'm' && "yml"@[2] == 'l',
        "zig"@.len() == 3 && "zig"@[0] == 'z' && "zig"@[1] == 'i' && "zig"@[2] == 'g',
{
    reveal_strlit("C");
    reveal_strlit("C++");
    reveal_strlit("CSS");
    reveal_strlit("Go");
    reveal_strlit("HTML");
    reveal_strlit("Header");
    reveal_strlit("JSON");
    reveal_strlit("Java");
    reveal_strlit("JavaScript");
    reveal_strlit("Lua");
    reveal_strlit("Markdown");
    reveal_strlit("Plain Text");
    reveal_strlit("Python");
    reveal_strlit("React");
    reveal_strlit("Ruby");
    reveal_strlit("Rust");
    reveal_strlit("SQL");
    reveal_strlit("Shell");
    reveal_strlit("TOML");
    reveal_strlit("Text");
    reveal_strlit("TypeScript");
    reveal_strlit("XML");
    reveal_strlit("YAML");
    reveal_strlit("Zig");
    reveal_strlit("bash");
    reveal_strlit("c");
    reveal_strlit("cc");
    reveal_strlit("cpp");
    reveal_strlit("css");
    reveal_strlit("cxx");
    reveal_strlit("go");
    reveal_strlit("h");
    reveal_strlit("hpp");
    reveal_strlit("htm");
    reveal_strlit("html");
    reveal_strlit("java");
    reveal_strlit("js");
    reveal_strlit("json");
    reveal_strlit("jsx");
    reveal_strlit("lua");
    reveal_strlit("md");
    reveal_strlit("py");
    reveal_strlit("rb");
    reveal_strlit("rs");
    reveal_strlit("sh");
    reveal_strlit("sql");
    reveal_strlit("toml");
    reveal_strlit("ts");
    reveal_strlit("tsx");
    reveal_strlit("txt");
    reveal_strlit("xml");
    reveal_strlit("yaml");
    reveal_strlit("yml");
    reveal_strlit("zig");
}

/// Extension round-trip law: the extension given to a named file type, or
/// to "Text", is typed back as that file type; every other name gets "txt",
/// which is typed as "Text".
pub proof fn law_extension_round_trip(t: Seq<char>)
    ensures
        named_file_type(t) || t == "Text"@ ==> file_type_for(extension_for(t)) == t,
        !named_file_type(t) ==> extension_for(t) == "txt"@,
        file_type_for("txt"@) == "Text"@,
{
    lemma_table_literals();
}

/// The extension given to a named file type, or to "Text", is a non-empty
/// word without `'/'` or `'.'`.
proof fn lemma_plain_extension(t: Seq<char>)
    requires
        named_file_type(t) || t == "Text"@,
    ensures
        extension_for(t).len() > 0,
        forall|i: int| 0 <= i < extension_for(t).len() ==> #[trigger] extension_for(t)[i] != '/'
            && extension_for(t)[i] != '.',
{
    lemma_table_literals();
}

/// Extension round-trip law through a path: a file named `f.` followed by
/// the extension given to a named file type, or to "Text", is typed as that
/// file type (`detect_file_type`).
pub proof fn law_extension_path_round_trip(t: Seq<char>)
    requires
        named_file_type(t) || t == "Text"@,
    ensures
        file_type_of_path(seq!['f', '.'] + extension_for(t)) == t,
{
    law_extension_round_trip(t);
    lemma_plain_extension(t);
    let e = extension_for(t);
    crate::path::lemma_dotted_name(e);
    assert((seq!['f', '.'] + e).subrange(2, (2 + e.len()) as int) =~= e);
}

/// The extensions a file is typed by, each with the file type it gives:
/// every spelling counts (both "yaml" and "yml", "htm", "cc", "cxx", "hpp",
/// "bash", "tsx").
pub open spec fn listed_extension(e: Seq<char>, t: Seq<char>) -> bool {
    ||| e == "rs"@ && t == "Rust"@
    ||| e == "py"@ && t == "Python"@
    ||| e == "js"@ && t == "JavaScript"@
    ||| e == "ts"@ && t == "TypeScript"@
    ||| e == "jsx"@ && t == "React"@
    ||| e == "tsx"@ && t == "React"@
    ||| e == "html"@ && t == "HTML"@
    ||| e == "htm"@ && t == "HTML"@
    ||| e == "css"@ && t == "CSS"@
    ||| e == "json"@ && t == "JSON"@
    ||| e == "toml"@ && t == "TOML"@
    ||| e == "yaml"@ && t == "YAML"@
    ||| e == "yml"@ && t == "YAML"@
    ||| e == "md"@ && t == "Markdown"@
    ||| e == "sh"@ && t == "Shell"@
    ||| e == "bash"@ && t == "Shell"@
    ||| e == "c"@ && t == "C"@
    ||| e == "cpp"@ && t == "C++"@
    ||| e == "cc"@ && t == "C++"@
    ||| e == "cxx"@ && t == "C++"@
    ||| e == "h"@ && t == "Header"@
    ||| e == "hpp"@ && t == "Header"@
    ||| e == "go"@ && t == "Go"@
    ||| e == "java"@ && t == "Java"@
    ||| e == "rb"@ && t == "Ruby"@
    ||| e == "lua"@ && t == "Lua"@
    ||| e == "zig"@ && t == "Zig"@
    ||| e == "xml"@ && t == "XML"@
    ||| e == "sql"@ && t == "SQL"@
    ||| e == "txt"@ && t == "Text"@
}

/// A listed extension is a non-empty word without `'/'` or `'.'`.
proof fn lemma_listed_is_plain(e: Seq<char>, t: Seq<char>)
    requires
        listed_extension(e, t),
    ensures
        e.len() > 0,
        forall|i: int| 0 <= i < e.len() ==> #[trigger] e[i] != '/' && e[i] != '.',
{
    lemma_table_literals();
}

/// Extension law: a file whose extension is any listed spelling is typed as
/// that spelling's file type (never "Plain Text"), whatever the spelling:
/// "f.yml" and "f.yaml" are both YAML files.
pub proof fn law_every_listed_extension_is_typed(e: Seq<char>, t: Seq<char>)
    requires
        listed_extension(e, t),
    ensures
        file_type_for(e) == t,
        file_type_of_path(seq!['f', '.'] + e) == t,
        t != "Plain Text"@,
{
    lemma_table_literals();
    lemma_listed_is_plain(e, t);
    crate::path::lemma_dotted_name(e);
    assert((seq!['f', '.'] + e).subrange(2, (2 + e.len()) as int) =~= e);
}

/// An extension that is not listed (nor no extension at all) gives
/// "Plain Text".
pub proof fn law_unlisted_extension_is_plain_text(e: Seq<char>)
    requires
        forall|t: Seq<char>| !#[trigger] listed_extension(e, t),
    ensures
        file_type_for(e) == "Plain Text"@,
{
    lemma_table_literals();
    assert(!listed_extension(e, file_type_for(e)));
}

} // verus!
