//! AI assistant settings and messages.
use vstd::prelude::*;
use crate::editor::buffer::{lines_of, split_lines, text_of};
use crate::editor::cursor::{skip_space, skip_word};
use crate::text::{chars_of, is_whitespace};

verus! {

#[derive(Debug, Clone, Copy, PartialEq, Eq, Structural)]
pub enum AiBackend {
    NoBackend,
    // Local
    Ollama,
    LlamaCpp,
    // Online
    OpenAI,
    Anthropic,
    Gemini,
    Grok,
}

#[derive(Debug, Clone)]
pub struct AiConfig {
    pub enabled: bool,
    pub backend: AiBackend,
    pub model_name: String,
    pub endpoint: String,
    pub api_key: Option<String>,
}

impl Default for AiConfig {
    fn default() -> (c: Self)
        ensures
            !c.enabled,
            c.backend == AiBackend::NoBackend,
            c.model_name@.len() == 0,
            c.endpoint@.len() == 0,
            c.api_key is None,
    {
        AiConfig {
            enabled: false,
            backend: AiBackend::NoBackend,
            model_name: String::new(),
            endpoint: String::new(),
            api_key: None,
        }
    }
}

/// The backend runs as an online service.
pub open spec fn online(b: AiBackend) -> bool {
    b == AiBackend::OpenAI || b == AiBackend::Anthropic || b == AiBackend::Gemini || b
        == AiBackend::Grok
}

/// The backend runs on this machine.
pub open spec fn local(b: AiBackend) -> bool {
    b == AiBackend::Ollama || b == AiBackend::LlamaCpp
}

/// A key is configured and not empty.
pub open spec fn key_present(k: Option<String>) -> bool {
    match k {
        Some(s) => s@.len() > 0,
        None => false,
    }
}

impl AiConfig {
    pub fn is_online(&self) -> (r: bool)
        ensures
            r == online(self.backend),
    {
        match self.backend {
            AiBackend::OpenAI | AiBackend::Anthropic | AiBackend::Gemini | AiBackend::Grok => true,
            _ => false,
        }
    }

    pub fn is_local(&self) -> (r: bool)
        ensures
            r == local(self.backend),
    {
        match self.backend {
            AiBackend::Ollama | AiBackend::LlamaCpp => true,
            _ => false,
        }
    }

    /// Online backends need an API key.
    pub fn needs_api_key(&self) -> (r: bool)
        ensures
            r == online(self.backend),
    {
        self.is_online()
    }

    /// An API key is set and not empty.
    pub fn has_valid_api_key(&self) -> (r: bool)
        ensures
            r == key_present(self.api_key),
    {
        match &self.api_key {
            Some(k) => k.as_str().unicode_len() > 0,
            None => false,
        }
    }
}

#[derive(Debug, Clone)]
pub struct AiMessage {
    pub role: String,
    pub content: String,
}

pub enum AiResponse {
    Partial(String),
    Full(String),
    Error(String),
}

pub struct AiAssistant {
    config: AiConfig,
}

/// The assistant can answer: it is enabled, and an online backend has a key
/// or the backend is local.
pub open spec fn available(c: AiConfig) -> bool {
    c.enabled && if online(c.backend) {
        key_present(c.api_key)
    } else {
        local(c.backend)
    }
}

/// The instructions the assistant starts every chat with.
pub open spec fn prompt_text() -> Seq<char> {
    PROMPT@
}

/// The system prompt followed by the project directory line, when there is one.
pub open spec fn system_prompt(dir: Option<Seq<char>>) -> Seq<char> {
    match dir {
        Some(d) => prompt_text() + DIR_INTRO@ + d,
        None => prompt_text(),
    }
}

pub const DIR_INTRO: &'static str = "\n\nCurrent project directory: ";

pub const PROMPT: &'static str = r#"You are Aether AI, a powerful autonomous coding assistant and vibecoding expert in the Aether Editor. 
You help users build entire projects from scratch using rapid prototyping and iterative development. 
Your job is to understand the user's intent and make it happen - code, create, run, and debug. 

## Available Commands
Use these commands to interact with the filesystem and system. ALL commands require user approval.

@@CREATE path/to/file.ext
[file content]
@@
  → Create a new file with content

@@APPEND path/to/file.ext
[content to add]
@@
  → Append content to existing file

@@READ path/to/file.ext
  → Read and display file contents

@@DELETE path/to/file.ext
  → Delete a file

@@RENAME old/path new/path
  → Rename or move a file

@@LIST [optional/path]
  → List files in directory

@@GREP pattern [path]
  → Search for pattern in files (like grep)

@@SHELL command
  → Run shell command and get output (use for: npm install, cargo build, running servers, etc.)

@@TEST [optional command]
  → Run tests (defaults to 'cargo test')

@@COMMIT "commit message"
  → Git commit all changes

@@WEBFETCH url
  → Fetch content from a URL (for documentation, APIs)

## Vibecoding Guidelines
- When user wants to build something, first explore the project structure with @@LIST
- Create files proactively - don't ask permission for trivial files
- Use @@SHELL to run builds, installs, and dev servers
- Show the user what you created and how to run it
- Be aggressive with scaffolding - generate boilerplate, config files, etc.
- If something fails, read error output and fix it
- Use markdown for code blocks and responses

IMPORTANT: All file operations and shell commands are held for user approval in the sidebar."#;

impl AiAssistant {
    pub fn new(config: AiConfig) -> (a: Self)
        ensures
            a.config() == config,
    {
        AiAssistant { config }
    }

    /// The configuration the assistant was made with.
    pub closed spec fn config(&self) -> AiConfig {
        self.config
    }

    /// The configuration the assistant works with.
    pub fn settings(&self) -> (c: &AiConfig)
        ensures
            *c == self.config(),
    {
        &self.config
    }

    /// Whether the assistant can answer with its configuration.
    pub fn is_available(&self) -> (r: bool)
        ensures
            r == available(self.config()),
    {
        if !self.config.enabled {
            return false;
        }
        if self.config.is_online() {
            self.config.has_valid_api_key()
        } else {
            self.config.is_local()
        }
    }

    /// The system prompt, with the project directory `project_dir` when known.
    pub fn system_prompt_for(&self, project_dir: Option<&str>) -> (p: String)
        ensures
            p@ == system_prompt(
                match project_dir {
                    Some(d) => Some(d@),
                    None => None,
                },
            ),
    {
        let mut p = PROMPT.to_owned();
        match project_dir {
            Some(d) => {
                p.append(DIR_INTRO);
                p.append(d);
            },
            None => {},
        }
        p
    }
}

/// The first white-space separated word of a line, if any.
pub open spec fn first_word(l: Seq<char>) -> Option<Seq<char>> {
    let s = skip_space(l, 0);
    if s < l.len() {
        Some(l.subrange(s, skip_word(l, s)))
    } else {
        None
    }
}

/// The first words of the lines `ls[i..]` that have one.
pub open spec fn first_words(ls: Seq<Seq<char>>, i: int) -> Seq<Seq<char>>
    decreases ls.len() - i,
{
    if i < 0 || i >= ls.len() {
        Seq::empty()
    } else {
        match first_word(ls[i]) {
            Some(w) => seq![w] + first_words(ls, i + 1),
            None => first_words(ls, i + 1),
        }
    }
}

/// The model names in the output of `ollama list`: the first word of every
/// line after the header line.
pub fn parse_ollama_models(stdout: &str) -> (models: Vec<String>)
    ensures
        text_of(models@) == first_words(lines_of(stdout@), 1),
{
    let lines = split_lines(stdout);
    let ghost ls = text_of(lines@);
    let mut models: Vec<String> = Vec::new();
    let n = lines.len();
    if n <= 1 {
        assert(text_of(models@) =~= first_words(ls, 1));
        return models;
    }
    let mut i: usize = 1;
    while i < n
        invariant
            ls == text_of(lines@),
            n == lines@.len(),
            1 <= i <= n,
            text_of(models@) + first_words(ls, i as int) == first_words(ls, 1),
        decreases n - i,
    {
        let line = lines[i].as_str();
        let cs = chars_of(line);
        let mut s: usize = 0;
        while s < cs.len() && is_whitespace(cs[s])
            invariant
                cs@ == ls[i as int],
                s <= cs@.len(),
                skip_space(cs@, s as int) == skip_space(cs@, 0),
            decreases cs@.len() - s,
        {
            s = s + 1;
        }
        if s < cs.len() {
            let mut e = s;
            while e < cs.len() && !is_whitespace(cs[e])
                invariant
                    cs@ == ls[i as int],
                    s <= e <= cs@.len(),
                    skip_word(cs@, e as int) == skip_word(cs@, s as int),
                decreases cs@.len() - e,
            {
                e = e + 1;
            }
            let w = line.substring_char(s, e).to_owned();
            let ghost before = text_of(models@);
            models.push(w);
            assert(text_of(models@) =~= before.push(w@));
            assert(first_words(ls, i as int) == seq![w@] + first_words(ls, i + 1));
            assert(text_of(models@) + first_words(ls, i + 1) =~= before + first_words(ls, i as int));
        } else {
            assert(first_words(ls, i as int) == first_words(ls, i + 1));
        }
        i = i + 1;
    }
    assert(first_words(ls, n as int) =~= Seq::<Seq<char>>::empty());
    assert(text_of(models@) =~= text_of(models@) + first_words(ls, n as int));
    models
}

} // verus!
