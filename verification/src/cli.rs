//! Command-line arguments.
use vstd::prelude::*;
use crate::text::{lowercase, text_eq, to_lowercase};

verus! {

/// What the command line asks for, before any file is opened.
pub struct CliOptions {
    pub force_setup: bool,
    pub theme_override: Option<String>,
    pub mode_override: Option<String>,
    pub files_to_open: Vec<String>,
}

pub enum CliCommand {
    /// Print the usage text and stop.
    Help,
    /// Print the version and stop.
    Version,
    /// Start the editor with these options.
    Run(CliOptions),
}

/// The abstract content of `CliOptions`.
pub struct CliModel {
    pub force_setup: bool,
    pub theme: Option<Seq<char>>,
    pub mode: Option<Seq<char>>,
    pub files: Seq<Seq<char>>,
}

pub enum CliOutcome {
    Help,
    Version,
    Run(CliModel),
}

/// The characters of an optional string.
pub open spec fn opt_view(o: Option<String>) -> Option<Seq<char>> {
    match o {
        Some(s) => Some(s@),
        None => None,
    }
}

impl CliOptions {
    pub open spec fn model(&self) -> CliModel {
        CliModel {
            force_setup: self.force_setup,
            theme: opt_view(self.theme_override),
            mode: opt_view(self.mode_override),
            files: Seq::new(self.files_to_open@.len(), |i: int| self.files_to_open@[i]@),
        }
    }
}

impl CliCommand {
    pub open spec fn outcome(&self) -> CliOutcome {
        match self {
            CliCommand::Help => CliOutcome::Help,
            CliCommand::Version => CliOutcome::Version,
            CliCommand::Run(o) => CliOutcome::Run(o.model()),
        }
    }
}

/// Reading the arguments from index `i` on, with `m` gathered so far:
/// `--help`/`-h` and `--version`/`-v` stop at once; `--setup` forces the
/// setup wizard; `--theme` and `--mode` take the next argument when there is
/// one; other arguments starting with `'-'` are ignored; the rest are files.
pub open spec fn parse_from(args: Seq<Seq<char>>, i: int, m: CliModel) -> CliOutcome
    decreases args.len() - i,
{
    if i < 0 || i >= args.len() {
        CliOutcome::Run(m)
    } else {
        let a = args[i];
        if a == "--help"@ || a == "-h"@ {
            CliOutcome::Help
        } else if a == "--version"@ || a == "-v"@ {
            CliOutcome::Version
        } else if a == "--setup"@ {
            parse_from(args, i + 1, CliModel { force_setup: true, ..m })
        } else if a == "--theme"@ {
            if i + 1 < args.len() {
                parse_from(args, i + 2, CliModel { theme: Some(args[i + 1]), ..m })
            } else {
                CliOutcome::Run(m)
            }
        } else if a == "--mode"@ {
            if i + 1 < args.len() {
                parse_from(args, i + 2, CliModel { mode: Some(args[i + 1]), ..m })
            } else {
                CliOutcome::Run(m)
            }
        } else if a.len() > 0 && a[0] == '-' {
            parse_from(args, i + 1, m)
        } else {
            parse_from(args, i + 1, CliModel { files: m.files.push(a), ..m })
        }
    }
}

/// Nothing asked for yet.
pub open spec fn no_options() -> CliModel {
    CliModel { force_setup: false, theme: None, mode: None, files: Seq::empty() }
}

/// Reads the command line `args`, whose first element is the program name.
pub fn parse_args(args: &Vec<String>) -> (c: CliCommand)
    ensures
        c.outcome() == parse_from(Seq::new(args@.len(), |i: int| args@[i]@), 1, no_options()),
{
    let ghost av = Seq::new(args@.len(), |i: int| args@[i]@);
    let mut force_setup = false;
    let mut theme_override: Option<String> = None;
    let mut mode_override: Option<String> = None;
    let mut files_to_open: Vec<String> = Vec::new();
    let n = args.len();
    let mut i: usize = 1;
    assert(CliOptions { force_setup, theme_override, mode_override, files_to_open }.model().files
        =~= Seq::<Seq<char>>::empty());
    while i < n
        invariant
            n == args@.len(),
            av == Seq::new(args@.len(), |i: int| args@[i]@),
            1 <= i,
            parse_from(av, 1, no_options()) == parse_from(
                av,
                i as int,
                CliOptions {
                    force_setup,
                    theme_override,
                    mode_override,
                    files_to_open,
                }.model(),
            ),
        decreases n - i,
    {
        let ghost m = CliOptions { force_setup, theme_override, mode_override, files_to_open }.model();
        let arg = args[i].as_str();
        assert(arg@ == av[i as int]);
        if text_eq(arg, "--help") || text_eq(arg, "-h") {
            return CliCommand::Help;
        } else if text_eq(arg, "--version") || text_eq(arg, "-v") {
            return CliCommand::Version;
        } else if text_eq(arg, "--setup") {
            force_setup = true;
            i = i + 1;
        } else if text_eq(arg, "--theme") {
            if i + 1 < n {
                theme_override = Some(args[i + 1].clone());
                i = i + 2;
            } else {
                i = n;
            }
        } else if text_eq(arg, "--mode") {
            if i + 1 < n {
                mode_override = Some(args[i + 1].clone());
                i = i + 2;
            } else {
                i = n;
            }
        } else if arg.unicode_len() > 0 && arg.get_char(0) == '-' {
            i = i + 1;
        } else {
            files_to_open.push(args[i].clone());
            proof {
                let m2 = CliOptions { force_setup, theme_override, mode_override, files_to_open }.model();
                assert(m2.files =~= m.files.push(av[(i as int)]));
            }
            i = i + 1;
        }
    }
    CliCommand::Run(CliOptions { force_setup, theme_override, mode_override, files_to_open })
}

/// The first index of a name equal to `wanted` ignoring case.
pub open spec fn theme_match(names: Seq<Seq<char>>, wanted: Seq<char>, i: int) -> Option<int>
    decreases names.len() - i,
{
    if i < 0 || i >= names.len() {
        None
    } else if lowercase(names[i]) == lowercase(wanted) {
        Some(i)
    } else {
        theme_match(names, wanted, i + 1)
    }
}

/// The position of the theme called `wanted` (ignoring case) among `names`.
pub fn find_theme_index(names: &Vec<String>, wanted: &str) -> (r: Option<usize>)
    ensures
        match theme_match(Seq::new(names@.len(), |i: int| names@[i]@), wanted@, 0) {
            Some(k) => r == Some(k as usize),
            None => r is None,
        },
{
    let ghost nv = Seq::new(names@.len(), |i: int| names@[i]@);
    let target = to_lowercase(wanted);
    let mut i: usize = 0;
    while i < names.len()
        invariant
            nv == Seq::new(names@.len(), |i: int| names@[i]@),
            target@ == lowercase(wanted@),
            i <= names@.len(),
            theme_match(nv, wanted@, 0) == theme_match(nv, wanted@, i as int),
        decreases names@.len() - i,
    {
        let name = to_lowercase(names[i].as_str());
        if text_eq(name.as_str(), target.as_str()) {
            return Some(i);
        }
        i = i + 1;
    }
    None
}

} // verus!
