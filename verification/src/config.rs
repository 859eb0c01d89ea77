//! User settings.
use vstd::prelude::*;

verus! {

#[derive(Debug, Clone)]
pub struct Config {
    pub username: String,
    pub theme_index: usize,
    pub edit_mode: String,
    pub ai_enabled: bool,
    pub ai_backend: String,
    pub ai_model: String,
    pub ai_api_key: Option<String>,
    pub auto_update: bool,
    pub mouse_support: bool,
    pub show_line_numbers: bool,
    pub tab_size: usize,
    pub word_wrap: bool,
    pub font_ligatures: bool,
    pub recent_files: Vec<String>,
    pub first_run: bool,
    pub show_lua_info: bool,
    pub show_tab_switch_hint: bool,
}

/// Calls `whoami::username`: the name of the user running the program. It
/// depends on the machine, so nothing is stated of it.
#[verifier::external_body]
pub(crate) fn current_username() -> String {
    whoami::username()
}

/// `c` holds the default settings apart from its user name.
pub open spec fn has_defaults(c: Config) -> bool {
    &&& c.theme_index == 0
    &&& c.edit_mode@ == "aether"@
    &&& !c.ai_enabled
    &&& c.ai_backend@ == "none"@
    &&& c.ai_model@ == "none"@
    &&& c.ai_api_key is None
    &&& c.auto_update
    &&& c.mouse_support
    &&& c.show_line_numbers
    &&& c.tab_size == 4
    &&& !c.word_wrap
    &&& !c.font_ligatures
    &&& c.recent_files@.len() == 0
    &&& c.first_run
    &&& !c.show_lua_info
    &&& c.show_tab_switch_hint
}

impl Config {
    /// The default settings for the user `username`.
    pub fn with_username(username: String) -> (c: Self)
        ensures
            c.username == username,
            has_defaults(c),
    {
        Config {
            username,
            theme_index: 0,
            edit_mode: "aether".to_owned(),
            ai_enabled: false,
            ai_backend: "none".to_owned(),
            ai_model: "none".to_owned(),
            ai_api_key: None,
            auto_update: true,
            mouse_support: true,
            show_line_numbers: true,
            tab_size: 4,
            word_wrap: false,
            font_ligatures: false,
            recent_files: Vec::new(),
            first_run: true,
            show_lua_info: false,
            show_tab_switch_hint: true,
        }
    }
}

/// `name` appended to the path `base` as `PathBuf::join` does it for a
/// relative name on Unix: with a `/` between them unless `base` is empty or
/// already ends with one.
pub open spec fn joined(base: Seq<char>, name: Seq<char>) -> Seq<char> {
    if base.len() == 0 || base.last() == '/' {
        base + name
    } else {
        base + "/"@ + name
    }
}

/// The settings file under the configuration directory `base`:
/// `base/aether/config.toml`.
pub open spec fn config_file_in(base: Seq<char>) -> Seq<char> {
    joined(joined(base, "aether"@), "config.toml"@)
}

/// `joined`.
pub fn join_path(base: &str, name: &str) -> (r: String)
    ensures
        r@ == joined(base@, name@),
{
    let n = base.unicode_len();
    let mut r = base.to_owned();
    if n > 0 && base.get_char(n - 1) != '/' {
        r.append("/");
    }
    r.append(name);
    proof {
        reveal_strlit("/");
    }
    r
}

/// Calls `dirs::config_dir`: the user's configuration directory, if the
/// platform has one. It depends on the environment, so nothing is stated
/// of it.
#[verifier::external_body]
fn user_config_dir() -> Option<String> {
    match dirs::config_dir() {
        Some(p) => Some(p.to_string_lossy().into_owned()),
        None => None,
    }
}

/// The base directory of the settings: the user's configuration
/// directory, or the current directory `"."` without one.
pub open spec fn base_dir(dir: Option<Seq<char>>) -> Seq<char> {
    match dir {
        Some(d) => d,
        None => "."@,
    }
}

/// The view of an optional text.
pub open spec fn opt_text(dir: Option<&str>) -> Option<Seq<char>> {
    match dir {
        Some(d) => Some(d@),
        None => None,
    }
}

impl Config {
    /// The directory of the settings: `aether` under the user's
    /// configuration directory (the current directory without one).
    pub fn config_dir() -> (r: String)
        ensures
            exists|base: Option<Seq<char>>| r@ == joined(base_dir(base), "aether"@),
    {
        match user_config_dir() {
            Some(d) => Config::config_dir_from(Some(d.as_str())),
            None => Config::config_dir_from(None),
        }
    }

    /// The settings file: `config.toml` in `config_dir`.
    pub fn config_path() -> (r: String)
        ensures
            exists|base: Option<Seq<char>>| r@ == config_file_in(base_dir(base)),
    {
        match user_config_dir() {
            Some(d) => Config::config_path_from(Some(d.as_str())),
            None => Config::config_path_from(None),
        }
    }

    /// The directory of the settings when the user's configuration
    /// directory is `dir`: `aether` under it, or under `"."` without one.
    pub fn config_dir_from(dir: Option<&str>) -> (r: String)
        ensures
            r@ == joined(base_dir(opt_text(dir)), "aether"@),
    {
        match dir {
            Some(d) => join_path(d, "aether"),
            None => join_path(".", "aether"),
        }
    }

    /// The settings file when the user's configuration directory is `dir`.
    pub fn config_path_from(dir: Option<&str>) -> (r: String)
        ensures
            r@ == config_file_in(base_dir(opt_text(dir))),
    {
        match dir {
            Some(d) => Config::config_path_in(d),
            None => Config::config_path_in("."),
        }
    }

    /// The settings file under the configuration directory `base`.
    pub fn config_path_in(base: &str) -> (r: String)
        ensures
            r@ == config_file_in(base@),
    {
        let dir = join_path(base, "aether");
        join_path(dir.as_str(), "config.toml")
    }
}

impl Default for Config {
    /// The default settings for the user running the program.
    fn default() -> (c: Self)
        ensures
            has_defaults(c),
    {
        Config::with_username(current_username())
    }
}

} // verus!
