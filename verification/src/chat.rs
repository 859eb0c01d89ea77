//! What a chat request to each AI backend carries, and how the lines of a
//! streamed answer are read.
use vstd::prelude::*;
use crate::ai::{available, AiAssistant, AiBackend, AiConfig, AiMessage};
use crate::text::{chars_of, text_eq};

verus! {

/// A message as the backend's API receives it.
pub struct WireMessage {
    pub role: String,
    pub text: String,
}

/// Everything a chat request needs, for the backend of the configuration.
pub struct ChatPlan {
    pub backend: AiBackend,
    pub url: String,
    pub model: String,
    /// The key to authenticate with (empty where the backend takes none).
    pub api_key: String,
    /// The system prompt (sent apart from the messages where the backend
    /// wants it so).
    pub system: String,
    pub messages: Vec<WireMessage>,
}

/// Roles and texts of a list of wire messages.
pub open spec fn wire_view(ms: Seq<WireMessage>) -> Seq<(Seq<char>, Seq<char>)> {
    Seq::new(ms.len(), |i: int| (ms[i].role@, ms[i].text@))
}

/// Roles and texts of a chat.
pub open spec fn chat_view(ms: Seq<AiMessage>) -> Seq<(Seq<char>, Seq<char>)> {
    Seq::new(ms.len(), |i: int| (ms[i].role@, ms[i].content@))
}

/// The role a chat role becomes for Gemini.
pub open spec fn gemini_role(r: Seq<char>) -> Seq<char> {
    if r == "assistant"@ {
        "model"@
    } else {
        "user"@
    }
}

/// The role a chat role becomes for Anthropic.
pub open spec fn anthropic_role(r: Seq<char>) -> Seq<char> {
    if r == "assistant"@ {
        "assistant"@
    } else {
        "user"@
    }
}

/// The messages sent to `b` for the chat `ms` with system prompt `sys`: the
/// system prompt first as a `system` message (as a `user` message for
/// Gemini, apart for Anthropic), then the chat with the backend's roles.
pub open spec fn wire_messages(b: AiBackend, sys: Seq<char>, ms: Seq<AiMessage>) -> Seq<
    (Seq<char>, Seq<char>),
> {
    match b {
        AiBackend::Gemini => seq![("user"@, sys)] + Seq::new(
            ms.len(),
            |i: int| (gemini_role(ms[i].role@), ms[i].content@),
        ),
        AiBackend::Anthropic => Seq::new(
            ms.len(),
            |i: int| (anthropic_role(ms[i].role@), ms[i].content@),
        ),
        _ => seq![("system"@, sys)] + chat_view(ms),
    }
}

/// `name`, or `fallback` when it is empty.
pub open spec fn model_or(name: Seq<char>, fallback: Seq<char>) -> Seq<char> {
    if name.len() == 0 {
        fallback
    } else {
        name
    }
}

/// The model asked of the backend of `c`.
pub open spec fn plan_model(c: AiConfig) -> Seq<char> {
    match c.backend {
        AiBackend::OpenAI => model_or(c.model_name@, "gpt-4o"@),
        AiBackend::Gemini => model_or(c.model_name@, "gemini-2.0-flash"@),
        AiBackend::Grok => model_or(c.model_name@, "grok-3-mini-fast"@),
        _ => c.model_name@,
    }
}

/// The key of `c`, empty without one.
pub open spec fn key_text(c: AiConfig) -> Seq<char> {
    match c.api_key {
        Some(k) => k@,
        None => Seq::empty(),
    }
}

/// The address the request for `c` goes to.
pub open spec fn plan_url(c: AiConfig) -> Seq<char> {
    match c.backend {
        AiBackend::Ollama => c.endpoint@ + "/api/chat"@,
        AiBackend::OpenAI => "https://api.openai.com/v1/chat/completions"@,
        AiBackend::Anthropic => "https://api.anthropic.com/v1/messages"@,
        AiBackend::Gemini => "https://generativelanguage.googleapis.com/v1beta/models/"@
            + plan_model(c) + ":streamGenerateContent?alt=sse&key="@ + key_text(c),
        _ => "https://api.x.ai/v1/chat/completions"@,
    }
}

/// The name a backend goes by in messages.
pub open spec fn backend_title(b: AiBackend) -> Seq<char> {
    match b {
        AiBackend::OpenAI => "OpenAI"@,
        AiBackend::Anthropic => "Anthropic"@,
        AiBackend::Gemini => "Gemini"@,
        _ => "Grok"@,
    }
}

/// Why no request can be made for `c`, if so: the assistant is unavailable,
/// the backend has no chat (llama.cpp), an online backend has no key, or
/// Anthropic has no model.
pub open spec fn plan_error(c: AiConfig) -> Option<Seq<char>> {
    if !available(c) {
        Some("AI is disabled or unavailable"@)
    } else if c.backend == AiBackend::NoBackend || c.backend == AiBackend::LlamaCpp {
        Some("Unsupported backend"@)
    } else if c.backend != AiBackend::Ollama && c.api_key is None {
        Some(backend_title(c.backend) + " API key not configured"@)
    } else if c.backend == AiBackend::Anthropic && c.model_name@.len() == 0 {
        Some("Anthropic model not configured"@)
    } else {
        None
    }
}

/// The role and text of one chat message for `b`.
fn wire_message(b: &AiBackend, m: &AiMessage) -> (w: WireMessage)
    ensures
        (w.role@, w.text@) == wire_messages(*b, Seq::empty(), seq![*m]).last(),
{
    let role = match b {
        AiBackend::Gemini => if text_eq(m.role.as_str(), "assistant") {
            "model".to_owned()
        } else {
            "user".to_owned()
        },
        AiBackend::Anthropic => if text_eq(m.role.as_str(), "assistant") {
            "assistant".to_owned()
        } else {
            "user".to_owned()
        },
        _ => m.role.clone(),
    };
    let ghost ms = seq![*m];
    assert(chat_view(ms) =~= seq![(m.role@, m.content@)]);
    WireMessage { role, text: m.content.clone() }
}

/// The messages of a request to `b`.
fn wire_list(b: &AiBackend, system: &str, messages: &Vec<AiMessage>) -> (w: Vec<WireMessage>)
    ensures
        wire_view(w@) == wire_messages(*b, system@, messages@),
{
    let mut w: Vec<WireMessage> = Vec::new();
    let first: usize = match b {
        AiBackend::Anthropic => 0,
        _ => 1,
    };
    match b {
        AiBackend::Gemini => w.push(WireMessage { role: "user".to_owned(), text: system.to_owned() }),
        AiBackend::Anthropic => {},
        _ => w.push(WireMessage { role: "system".to_owned(), text: system.to_owned() }),
    }
    let ghost want = wire_messages(*b, system@, messages@);
    let mut i: usize = 0;
    while i < messages.len()
        invariant
            want == wire_messages(*b, system@, messages@),
            want.len() == messages@.len() + first,
            first == (if *b == AiBackend::Anthropic { 0usize } else { 1usize }),
            i <= messages@.len(),
            w@.len() == i + first,
            forall|j: int| 0 <= j < i + first ==> #[trigger] wire_view(w@)[j] == want[j],
        decreases messages@.len() - i,
    {
        let m = wire_message(b, &messages[i]);
        let ghost before = w@;
        proof {
            let one = wire_messages(*b, Seq::empty(), seq![messages@[i as int]]).last();
            assert(one == want[i + first]);
        }
        w.push(m);
        proof {
            assert forall|j: int| 0 <= j < i + 1 + first implies #[trigger] wire_view(w@)[j]
                == want[j] by {
                if j < i + first {
                    assert(w@[j] == before[j]);
                    assert(wire_view(before)[j] == want[j]);
                }
            }
        }
        i = i + 1;
    }
    assert(wire_view(w@) =~= want);
    w
}

impl AiAssistant {
    /// The request for the chat `messages` with the system prompt `system`,
    /// or why none can be made.
    pub fn plan_chat(&self, messages: &Vec<AiMessage>, system: &str) -> (r: Result<ChatPlan, String>)
        ensures
            match r {
                Ok(p) => {
                    &&& plan_error(self.config()) is None
                    &&& p.backend == self.config().backend
                    &&& p.url@ == plan_url(self.config())
                    &&& p.model@ == plan_model(self.config())
                    &&& p.api_key@ == key_text(self.config())
                    &&& p.system@ == system@
                    &&& wire_view(p.messages@) == wire_messages(
                        self.config().backend,
                        system@,
                        messages@,
                    )
                },
                Err(e) => plan_error(self.config()) == Some(e@),
            },
    {
        let c = self.settings();
        if !self.is_available() {
            return Err("AI is disabled or unavailable".to_owned());
        }
        let title = match c.backend {
            AiBackend::NoBackend | AiBackend::LlamaCpp => {
                return Err("Unsupported backend".to_owned());
            },
            AiBackend::Ollama => "",
            AiBackend::OpenAI => "OpenAI",
            AiBackend::Anthropic => "Anthropic",
            AiBackend::Gemini => "Gemini",
            AiBackend::Grok => "Grok",
        };
        let key = match &c.api_key {
            Some(k) => k.clone(),
            None => {
                if c.backend != AiBackend::Ollama {
                    let mut e = title.to_owned();
                    e.append(" API key not configured");
                    return Err(e);
                }
                String::new()
            },
        };
        let named = !c.model_name.as_str().is_empty();
        if c.backend == AiBackend::Anthropic && !named {
            return Err("Anthropic model not configured".to_owned());
        }
        let model = match c.backend {
            AiBackend::OpenAI => if named {
                c.model_name.clone()
            } else {
                "gpt-4o".to_owned()
            },
            AiBackend::Gemini => if named {
                c.model_name.clone()
            } else {
                "gemini-2.0-flash".to_owned()
            },
            AiBackend::Grok => if named {
                c.model_name.clone()
            } else {
                "grok-3-mini-fast".to_owned()
            },
            _ => c.model_name.clone(),
        };
        let url = match c.backend {
            AiBackend::Ollama => {
                let mut u = c.endpoint.clone();
                u.append("/api/chat");
                u
            },
            AiBackend::OpenAI => "https://api.openai.com/v1/chat/completions".to_owned(),
            AiBackend::Anthropic => "https://api.anthropic.com/v1/messages".to_owned(),
            AiBackend::Gemini => {
                let mut u = "https://generativelanguage.googleapis.com/v1beta/models/".to_owned();
                u.append(model.as_str());
                u.append(":streamGenerateContent?alt=sse&key=");
                u.append(key.as_str());
                u
            },
            _ => "https://api.x.ai/v1/chat/completions".to_owned(),
        };
        let list = wire_list(&c.backend, system, messages);
        Ok(
            ChatPlan {
                backend: c.backend.clone(),
                url,
                model,
                api_key: key,
                system: system.to_owned(),
                messages: list,
            },
        )
    }
}

/// A request for a one-off completion of a text.
pub struct CompletionRequest {
    pub url: String,
    pub model: String,
    pub prompt: String,
}

impl AiAssistant {
    /// The completion request for `context`: Ollama's generate endpoint with
    /// the configured model; none unless the assistant is available on
    /// Ollama.
    pub fn complete(&self, context: &str) -> (r: Option<CompletionRequest>)
        ensures
            r is Some <==> (available(self.config()) && self.config().backend == AiBackend::Ollama),
            r matches Some(q) ==> {
                &&& q.url@ == self.config().endpoint@ + "/api/generate"@
                &&& q.model@ == self.config().model_name@
                &&& q.prompt@ == context@
            },
    {
        if !self.is_available() {
            return None;
        }
        let c = self.settings();
        match c.backend {
            AiBackend::Ollama => {
                let mut url = c.endpoint.clone();
                url.append("/api/generate");
                Some(
                    CompletionRequest {
                        url,
                        model: c.model_name.clone(),
                        prompt: context.to_owned(),
                    },
                )
            },
            _ => None,
        }
    }
}

/// A request that tells whether an API key is accepted.
pub struct KeyProbe {
    pub url: String,
    /// A POST request with `body`; a GET request otherwise.
    pub post: bool,
    pub headers: Vec<(String, String)>,
    pub body: String,
}

/// Names and values of a list of headers.
pub open spec fn headers_view(hs: Seq<(String, String)>) -> Seq<(Seq<char>, Seq<char>)> {
    Seq::new(hs.len(), |i: int| (hs[i].0@, hs[i].1@))
}

/// The smallest message request: one token for "hi".
pub open spec fn probe_body() -> Seq<char> {
    "{\"max_tokens\":1,\"messages\":[{\"role\":\"user\",\"content\":\"hi\"}]}"@
}

/// The request that checks `key` for backend `b`: none for an empty key
/// or a backend without keys; else its address, whether it posts, its
/// headers and its body.
pub open spec fn key_probe(b: AiBackend, key: Seq<char>) -> Option<
    (Seq<char>, bool, Seq<(Seq<char>, Seq<char>)>, Seq<char>),
> {
    if key.len() == 0 {
        None
    } else {
        match b {
            AiBackend::OpenAI => Some(
                (
                    "https://api.openai.com/v1/models"@,
                    false,
                    seq![("Authorization"@, "Bearer "@ + key)],
                    Seq::empty(),
                ),
            ),
            AiBackend::Anthropic => Some(
                (
                    "https://api.anthropic.com/v1/messages"@,
                    true,
                    seq![
                        ("x-api-key"@, key),
                        ("anthropic-version"@, "2023-06-01"@),
                        ("Content-Type"@, "application/json"@),
                    ],
                    probe_body(),
                ),
            ),
            AiBackend::Gemini => Some(
                (
                    "https://generativelanguage.googleapis.com/v1/models?key="@ + key,
                    false,
                    Seq::empty(),
                    Seq::empty(),
                ),
            ),
            AiBackend::Grok => Some(
                ("https://api.x.ai"@, false, seq![("Authorization"@, "Bearer "@ + key)], Seq::empty()),
            ),
            _ => None,
        }
    }
}

/// A probe answered with `status` accepts the key: a success status, or
/// 400 from Anthropic.
pub open spec fn key_accepted_by(b: AiBackend, status: u16) -> bool {
    (200 <= status < 300) || (b == AiBackend::Anthropic && status == 400)
}

/// `"Bearer "` followed by `key`.
fn bearer(key: &str) -> (h: (String, String))
    ensures
        h.0@ == "Authorization"@,
        h.1@ == "Bearer "@ + key@,
{
    let mut v = "Bearer ".to_owned();
    v.append(key);
    ("Authorization".to_owned(), v)
}

impl AiConfig {
    /// The request that checks `api_key` for `backend` (see `key_probe`);
    /// `None` when the key is refused without asking.
    pub fn verify_api_key(backend: &AiBackend, api_key: &str, _endpoint: &str) -> (r: Option<KeyProbe>)
        ensures
            match r {
                Some(p) => key_probe(*backend, api_key@) == Some(
                    (p.url@, p.post, headers_view(p.headers@), p.body@),
                ),
                None => key_probe(*backend, api_key@) is None,
            },
    {
        if api_key.is_empty() {
            return None;
        }
        let mut headers: Vec<(String, String)> = Vec::new();
        match backend {
            AiBackend::OpenAI => {
                headers.push(bearer(api_key));
                assert(headers_view(headers@) =~= seq![("Authorization"@, "Bearer "@ + api_key@)]);
                Some(
                    KeyProbe {
                        url: "https://api.openai.com/v1/models".to_owned(),
                        post: false,
                        headers,
                        body: String::new(),
                    },
                )
            },
            AiBackend::Anthropic => {
                headers.push(("x-api-key".to_owned(), api_key.to_owned()));
                headers.push(("anthropic-version".to_owned(), "2023-06-01".to_owned()));
                headers.push(("Content-Type".to_owned(), "application/json".to_owned()));
                assert(headers_view(headers@) =~= seq![
                    ("x-api-key"@, api_key@),
                    ("anthropic-version"@, "2023-06-01"@),
                    ("Content-Type"@, "application/json"@),
                ]);
                Some(
                    KeyProbe {
                        url: "https://api.anthropic.com/v1/messages".to_owned(),
                        post: true,
                        headers,
                        body: "{\"max_tokens\":1,\"messages\":[{\"role\":\"user\",\"content\":\"hi\"}]}".to_owned(),
                    },
                )
            },
            AiBackend::Gemini => {
                let mut url = "https://generativelanguage.googleapis.com/v1/models?key=".to_owned();
                url.append(api_key);
                assert(headers_view(headers@) =~= Seq::empty());
                Some(KeyProbe { url, post: false, headers, body: String::new() })
            },
            AiBackend::Grok => {
                headers.push(bearer(api_key));
                assert(headers_view(headers@) =~= seq![("Authorization"@, "Bearer "@ + api_key@)]);
                Some(
                    KeyProbe {
                        url: "https://api.x.ai".to_owned(),
                        post: false,
                        headers,
                        body: String::new(),
                    },
                )
            },
            _ => None,
        }
    }

    /// Whether a key probe for `backend` answered with `status` accepts the key.
    pub fn key_accepted(backend: &AiBackend, status: u16) -> (r: bool)
        ensures
            r == key_accepted_by(*backend, status),
    {
        (200 <= status && status < 300) || (*backend == AiBackend::Anthropic && status == 400)
    }
}

/// `s` with every leading copy of `p` taken off (`str::trim_start_matches`).
pub open spec fn strip_leading(s: Seq<char>, p: Seq<char>) -> Seq<char>
    decreases s.len(),
{
    if p.len() > 0 && p.len() <= s.len() && s.take(p.len() as int) == p {
        strip_leading(s.skip(p.len() as int), p)
    } else {
        s
    }
}

/// The marker that starts a data line of a server-sent event stream.
pub open spec fn data_marker() -> Seq<char> {
    seq!['d', 'a', 't', 'a', ':', ' ']
}

/// The payload of a line of an event stream: for a line that starts with
/// `data: `, the rest after every leading `data: `; none for other lines.
pub open spec fn stream_payload(line: Seq<char>) -> Option<Seq<char>> {
    if data_marker().len() <= line.len() && line.take(data_marker().len() as int) == data_marker() {
        Some(strip_leading(line, data_marker()))
    } else {
        None
    }
}

/// Whether `cs[i..]` starts with the data marker.
fn marker_at(cs: &Vec<char>, i: usize) -> (r: bool)
    requires
        i <= cs@.len(),
    ensures
        r == (data_marker().len() <= cs@.len() - i && cs@.skip(i as int).take(
            data_marker().len() as int,
        ) == data_marker()),
{
    let m = ['d', 'a', 't', 'a', ':', ' '];
    let n = cs.len();
    if n - i < 6 {
        return false;
    }
    let mut k: usize = 0;
    while k < 6
        invariant
            n == cs@.len(),
            i + 6 <= n,
            k <= 6,
            m@ == data_marker(),
            forall|j: int| 0 <= j < k ==> cs@[i + j] == data_marker()[j],
        decreases 6 - k,
    {
        let at = i + k;
        if cs[at] != m[k] {
            assert(cs@.skip(i as int).take(6)[k as int] != data_marker()[k as int]);
            return false;
        }
        k = k + 1;
    }
    assert(cs@.skip(i as int).take(6) =~= data_marker());
    true
}

/// The payload of the event-stream line `line` (see `stream_payload`).
pub fn stream_data(line: &str) -> (r: Option<String>)
    ensures
        match r {
            Some(d) => stream_payload(line@) == Some(d@),
            None => stream_payload(line@) is None,
        },
{
    let cs = chars_of(line);
    assert(cs@.skip(0) =~= cs@);
    if !marker_at(&cs, 0) {
        return None;
    }
    let n = cs.len();
    let mut i: usize = 0;
    let mut more = true;
    while more
        invariant
            n == cs@.len(),
            cs@ == line@,
            i <= cs@.len(),
            more == (data_marker().len() <= cs@.len() - i && cs@.skip(i as int).take(
                data_marker().len() as int,
            ) == data_marker()),
            strip_leading(cs@.skip(i as int), data_marker()) == strip_leading(line@, data_marker()),
        decreases cs@.len() - i,
    {
        assert(data_marker().len() == 6);
        assert(cs@.skip(i as int).skip(6) =~= cs@.skip(i + 6));
        i = i + 6;
        more = marker_at(&cs, i);
    }
    let rest = line.substring_char(i, n);
    assert(rest@ =~= cs@.skip(i as int));
    Some(rest.to_owned())
}

/// Whether a stream payload ends the answer.
pub fn stream_ends(payload: &str) -> (r: bool)
    ensures
        r == (payload@ == "[DONE]"@),
{
    text_eq(payload, "[DONE]")
}

/// The text `serde_json` finds at `choices[0].delta.content` of the JSON
/// document `payload` (an event of the chat-completions stream); `None`
/// when the payload is not JSON or has no such text.
pub uninterp spec fn completion_delta(payload: Seq<char>) -> Option<Seq<char>>;

/// The text `serde_json` finds at `candidates[0].content.parts[0].text` of
/// the JSON document `payload` (an event of Gemini's stream); `None` when
/// the payload is not JSON or has no such text.
pub uninterp spec fn gemini_delta(payload: Seq<char>) -> Option<Seq<char>>;

/// What `serde_json::from_str` makes of Anthropic's reply `body`: the text
/// at `content[0].text`, if there is one, or the parser's error message.
pub uninterp spec fn anthropic_reply(body: Seq<char>) -> Result<Option<Seq<char>>, Seq<char>>;

/// What `serde_json::from_str` makes of one line of Ollama's stream: the
/// text at `message.content` and the flag at `done`, each if there is one;
/// `None` when the line is not JSON.
pub uninterp spec fn ollama_event(line: Seq<char>) -> Option<(Option<Seq<char>>, Option<bool>)>;

/// Parses `payload` with `serde_json::from_str` and picks the string at
/// `choices[0].delta.content`. Its result is named `completion_delta`.
#[verifier::external_body]
fn completion_delta_of(payload: &str) -> (r: Option<String>)
    ensures
        match r {
            Some(t) => completion_delta(payload@) == Some(t@),
            None => completion_delta(payload@) is None,
        },
{
    let json: serde_json::Value = serde_json::from_str(payload).ok()?;
    let choice = json.get("choices")?.as_array()?.first()?;
    choice.get("delta")?.get("content")?.as_str().map(|t| t.to_string())
}

/// Parses `payload` with `serde_json::from_str` and picks the string at
/// `candidates[0].content.parts[0].text`. Its result is named `gemini_delta`.
#[verifier::external_body]
fn gemini_delta_of(payload: &str) -> (r: Option<String>)
    ensures
        match r {
            Some(t) => gemini_delta(payload@) == Some(t@),
            None => gemini_delta(payload@) is None,
        },
{
    let json: serde_json::Value = serde_json::from_str(payload).ok()?;
    let candidate = json.get("candidates")?.as_array()?.first()?;
    let part = candidate.get("content")?.get("parts")?.as_array()?.first()?;
    part.get("text")?.as_str().map(|t| t.to_string())
}

/// Parses Anthropic's reply with `serde_json::from_str` and picks the
/// string at `content[0].text`; a parse error becomes its message. Its
/// result is named `anthropic_reply`.
#[verifier::external_body]
pub fn anthropic_reply_of(body: &str) -> (r: Result<Option<String>, String>)
    ensures
        match (r, anthropic_reply(body@)) {
            (Ok(Some(t)), Ok(Some(u))) => t@ == u,
            (Ok(None), Ok(None)) => true,
            (Err(e), Err(f)) => e@ == f,
            _ => false,
        },
{
    match serde_json::from_str::<serde_json::Value>(body) {
        Ok(json) => Ok(json.get("content").and_then(|c| c.as_array()).and_then(|a| a.first())
            .and_then(|c| c.get("text")).and_then(|t| t.as_str()).map(|t| t.to_string())),
        Err(e) => Err(e.to_string()),
    }
}

/// Parses a line of Ollama's stream with `serde_json::from_str` and picks
/// the string at `message.content` and the flag at `done`. Its result is
/// named `ollama_event`.
#[verifier::external_body]
fn ollama_event_of(line: &str) -> (r: Option<(Option<String>, Option<bool>)>)
    ensures
        match (r, ollama_event(line@)) {
            (Some((t, d)), Some((u, e))) => d == e && match (t, u) {
                (Some(t), Some(u)) => t@ == u,
                (None, None) => true,
                _ => false,
            },
            (None, None) => true,
            _ => false,
        },
{
    let json: serde_json::Value = serde_json::from_str(line).ok()?;
    let text = json.get("message").and_then(|m| m.get("content")).and_then(|c| c.as_str());
    Some((text.map(|t| t.to_string()), json.get("done").and_then(|d| d.as_bool())))
}

/// The text an event payload of `b`'s stream carries.
pub open spec fn event_delta(b: AiBackend, payload: Seq<char>) -> Option<Seq<char>> {
    if b == AiBackend::Gemini {
        gemini_delta(payload)
    } else {
        completion_delta(payload)
    }
}

/// The texts of the events of the stream lines `ls[i..]` of backend `b`, in
/// order: lines that are not data lines are passed over; for every backend
/// but Gemini a `[DONE]` payload ends the stream; an event without text
/// adds nothing.
pub open spec fn stream_texts(b: AiBackend, ls: Seq<Seq<char>>, i: int) -> Seq<Seq<char>>
    decreases ls.len() - i,
{
    if i < 0 || i >= ls.len() {
        Seq::empty()
    } else {
        match stream_payload(ls[i]) {
            None => stream_texts(b, ls, i + 1),
            Some(d) => if b != AiBackend::Gemini && d == "[DONE]"@ {
                Seq::empty()
            } else {
                match event_delta(b, d) {
                    Some(t) => seq![t] + stream_texts(b, ls, i + 1),
                    None => stream_texts(b, ls, i + 1),
                }
            },
        }
    }
}

/// The texts one after the other.
pub open spec fn joined_texts(ts: Seq<Seq<char>>) -> Seq<char>
    decreases ts.len(),
{
    if ts.len() == 0 {
        Seq::empty()
    } else {
        joined_texts(ts.drop_last()) + ts.last()
    }
}

/// The texts of a streamed answer of `b` with body `body`, and the whole
/// answer they make: the event texts of its lines (`str::lines`) up to the
/// end of the stream (see `stream_texts`), and their concatenation.
pub fn collect_stream(backend: &AiBackend, body: &str) -> (r: (Vec<String>, String))
    ensures
        crate::editor::buffer::text_of(r.0@) == stream_texts(
            *backend,
            crate::editor::buffer::lines_of(body@),
            0,
        ),
        r.1@ == joined_texts(crate::editor::buffer::text_of(r.0@)),
{
    let lines = crate::editor::buffer::split_lines(body);
    let ghost ls = crate::editor::buffer::text_of(lines@);
    let mut texts: Vec<String> = Vec::new();
    let mut full = String::new();
    let mut i: usize = 0;
    while i < lines.len()
        invariant_except_break
            ls == crate::editor::buffer::text_of(lines@),
            i <= lines@.len(),
            crate::editor::buffer::text_of(texts@) + stream_texts(*backend, ls, i as int)
                == stream_texts(*backend, ls, 0),
            full@ == joined_texts(crate::editor::buffer::text_of(texts@)),
        ensures
            crate::editor::buffer::text_of(texts@) == stream_texts(*backend, ls, 0),
            full@ == joined_texts(crate::editor::buffer::text_of(texts@)),
        decreases lines@.len() - i,
    {
        let ghost t0 = crate::editor::buffer::text_of(texts@);
        assert(lines@[i as int]@ == ls[i as int]);
        match stream_data(lines[i].as_str()) {
            None => {},
            Some(d) => {
                if *backend != AiBackend::Gemini && stream_ends(d.as_str()) {
                    assert(t0 + Seq::<Seq<char>>::empty() =~= t0);
                    break;
                }
                let t = if *backend == AiBackend::Gemini {
                    gemini_delta_of(d.as_str())
                } else {
                    completion_delta_of(d.as_str())
                };
                match t {
                    Some(t) => {
                        full.append(t.as_str());
                        texts.push(t);
                        proof {
                            let t1 = crate::editor::buffer::text_of(texts@);
                            assert(t1 =~= t0.push(t@));
                            assert(t1.drop_last() =~= t0);
                            assert(t0 + (seq![t@] + stream_texts(*backend, ls, i + 1)) =~= t1
                                + stream_texts(*backend, ls, i + 1));
                        }
                    },
                    None => {},
                }
            },
        }
        i = i + 1;
    }
    proof {
        let t0 = crate::editor::buffer::text_of(texts@);
        if i >= lines.len() {
            assert(t0 + Seq::<Seq<char>>::empty() =~= t0);
        }
    }
    (texts, full)
}

/// Where reading Ollama's stream stands after one more line: the answer so
/// far, the text to pass on, if any, and whether the stream has ended.
pub open spec fn ollama_next(full: Seq<char>, line: Seq<char>) -> (Seq<char>, Option<Seq<char>>, bool) {
    match ollama_event(line) {
        None => (full, None, false),
        Some((t, d)) => (
            match t {
                Some(t) => full + t,
                None => full,
            },
            t,
            d == Some(true),
        ),
    }
}

/// Reads one line of Ollama's stream into the answer `full` so far; returns
/// the text to pass on and whether the stream has ended (see `ollama_next`).
pub fn ollama_step(full: &mut String, line: &str) -> (r: (Option<String>, bool))
    ensures
        final(full)@ == ollama_next(old(full)@, line@).0,
        match (r.0, ollama_next(old(full)@, line@).1) {
            (Some(t), Some(u)) => t@ == u,
            (None, None) => true,
            _ => false,
        },
        r.1 == ollama_next(old(full)@, line@).2,
{
    match ollama_event_of(line) {
        None => (None, false),
        Some((t, d)) => {
            let done = match d {
                Some(b) => b,
                None => false,
            };
            match t {
                Some(t) => {
                    full.append(t.as_str());
                    (Some(t), done)
                },
                None => (None, done),
            }
        },
    }
}

/// The text `serde_json` finds at `response` of Ollama's answer `body` to
/// a completion request; `None` when the body is not JSON or has no such
/// text.
pub uninterp spec fn generated_text(body: Seq<char>) -> Option<Seq<char>>;

/// Parses the answer to a completion request with `serde_json::from_str`
/// and picks the string at `response`. Its result is named `generated_text`.
#[verifier::external_body]
pub fn generated_text_of(body: &str) -> (r: Option<String>)
    ensures
        match r {
            Some(t) => generated_text(body@) == Some(t@),
            None => generated_text(body@) is None,
        },
{
    let json: serde_json::Value = serde_json::from_str(body).ok()?;
    json.get("response")?.as_str().map(|t| t.to_string())
}

} // verus!
