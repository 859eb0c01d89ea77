use aether::ai::{parse_ollama_models, AiAssistant, AiBackend, AiConfig, AiMessage};
use aether::chat::{anthropic_reply_of, collect_stream, generated_text_of, ollama_step, stream_data, stream_ends};
use aether::highlight::SyntaxHighlighter;
use aether::cli::{find_theme_index, parse_args, CliCommand};
use aether::config::{join_path, Config};
use aether::icons::{file_icon, file_picker_icon};
use aether::path::{extension_of, file_name_of, path_parent};
use aether::syntax::get_file_extension;
use aether::text::{is_whitespace, trim};
use aether::theme::{build_custom_theme, darken, lighten, parse_hex_color, Color, CustomThemeDef, Theme};
use aether::updater::{is_up_to_date, status_update, UpdateState};
use aether::app::screens::parse_usize;
use aether::app::listing::{compare_names, listing_order, shown_in_tree};

fn strings(v: &[&str]) -> Vec<String> {
    v.iter().map(|s| s.to_string()).collect()
}

#[test]
fn whitespace_agrees_with_std() {
    for u in 0u32..0x3100 {
        if let Some(c) = char::from_u32(u) {
            assert_eq!(is_whitespace(c), c.is_whitespace(), "{:x}", u);
        }
    }
}

#[test]
fn trim_agrees_with_std() {
    for s in ["", "  a b  ", "\t\nx\u{3000}", "none", " \u{85}y\u{a0} ", "   "] {
        assert_eq!(trim(s), s.trim());
    }
}

#[test]
fn parse_usize_agrees_with_std() {
    for s in ["", "0", "42", "+7", "-1", "12a", "+", "18446744073709551615", "18446744073709551616", "007"] {
        assert_eq!(parse_usize(s), s.parse::<usize>().ok(), "{}", s);
    }
}

#[test]
fn path_parts() {
    assert_eq!(file_name_of("/a/b/c.txt"), Some("c.txt"));
    assert_eq!(file_name_of("/a/b/"), Some("b"));
    assert_eq!(file_name_of("/"), None);
    assert_eq!(extension_of("x/archive.tar.gz"), Some("gz"));
    assert_eq!(extension_of(".bashrc"), None);
    assert_eq!(extension_of("noext"), None);
}

#[test]
fn extensions_and_icons() {
    assert_eq!(get_file_extension("Rust"), "rs");
    assert_eq!(get_file_extension("Plain Text"), "txt");
    assert_eq!(file_icon("main.rs"), "\u{e7a8} ");
    assert_eq!(file_picker_icon("x.unknownext"), file_picker_icon("y.otherext"));
}

#[test]
fn hex_colors() {
    assert_eq!(parse_hex_color("#ff8000"), Some(Color::Rgb(255, 128, 0)));
    assert_eq!(parse_hex_color("##0a0B0c"), Some(Color::Rgb(10, 11, 12)));
    assert_eq!(parse_hex_color("ff8000"), Some(Color::Rgb(255, 128, 0)));
    assert_eq!(parse_hex_color("#ff80"), None);
    assert_eq!(parse_hex_color("#gg0000"), None);
}

#[test]
fn darken_and_lighten_saturate() {
    assert_eq!(darken(Color::Rgb(10, 100, 200), 50), Color::Rgb(0, 50, 150));
    assert_eq!(lighten(Color::Rgb(10, 100, 230), 50), Color::Rgb(60, 150, 255));
}

#[test]
fn builtin_themes() {
    let ts = Theme::builtins();
    assert_eq!(ts.len(), 11);
    assert_eq!(Theme::builtin_count(), 11);
    assert_eq!(ts[0].name, "Aether Dark");
    let names: Vec<String> = ts.iter().map(|t| t.name.clone()).collect();
    assert_eq!(find_theme_index(&names, "aether dark"), Some(0));
    assert_eq!(find_theme_index(&names, "nope"), None);
}

fn theme_def(bg: &str) -> CustomThemeDef {
    CustomThemeDef {
        name: "Mine".to_string(),
        bg: bg.to_string(),
        fg: "#e0e0e0".to_string(),
        accent: "#ff0000".to_string(),
        accent_dim: None,
        gutter_fg: None,
        border: Some("#00ff00".to_string()),
        keyword: None,
        string: None,
        comment: None,
        function: None,
        type_color: None,
        number: None,
        error: None,
    }
}

#[test]
fn custom_themes_need_valid_base_colors() {
    let t = build_custom_theme(theme_def("#101010")).unwrap();
    assert_eq!(t.name, "Mine");
    assert_eq!(t.bg, Color::Rgb(16, 16, 16));
    assert_eq!(t.border, Color::Rgb(0, 255, 0));
    assert!(build_custom_theme(theme_def("nothex")).is_none());
}

#[test]
fn command_line_arguments() {
    match parse_args(&strings(&["aether", "--help"])) {
        CliCommand::Help => {}
        _ => panic!("expected help"),
    }
    match parse_args(&strings(&["aether", "-v"])) {
        CliCommand::Version => {}
        _ => panic!("expected version"),
    }
    match parse_args(&strings(&["aether", "--setup", "--theme", "Ember", "a.txt", "b.txt"])) {
        CliCommand::Run(o) => {
            assert!(o.force_setup);
            assert_eq!(o.theme_override.as_deref(), Some("Ember"));
            assert_eq!(o.files_to_open, strings(&["a.txt", "b.txt"]));
        }
        _ => panic!("expected run"),
    }
}

#[test]
fn updater_reports() {
    let s = status_update(UpdateState::CheckingNetwork);
    assert_eq!((s.status.as_str(), s.progress, s.completed), ("Checking network...", 10, false));
    let s = status_update(UpdateState::Failed("No internet connection".to_string()));
    assert_eq!(s.status, "No internet connection. Press Enter to return.");
    let s = status_update(UpdateState::Failed("boom".to_string()));
    assert_eq!(s.status, "Update failed: boom. Press Enter to return.");
    assert!(s.completed);
}

#[test]
fn version_comparison() {
    assert!(is_up_to_date(" 1.2.0\n", "1.2.0"));
    assert!(is_up_to_date("", "1.2.0"));
    assert!(is_up_to_date("1.1.9", "1.2.0"));
    assert!(!is_up_to_date("1.3.0", "1.2.0"));
    assert!(!is_up_to_date("1.2.0.1", "1.2.0"));
}

#[test]
fn ai_configuration() {
    let c = AiConfig { enabled: true, backend: AiBackend::OpenAI, model_name: "m".to_string(), endpoint: String::new(), api_key: Some(String::new()) };
    assert!(c.is_online());
    assert!(!c.is_local());
    assert!(c.needs_api_key());
    assert!(!c.has_valid_api_key());
    let a = AiAssistant::new(c);
    assert!(!a.is_available());
    let prompt = a.system_prompt_for(Some("/proj"));
    assert!(prompt.contains("/proj"));
    assert!(prompt.starts_with(&a.system_prompt_for(None)));
}

#[test]
fn ollama_model_list() {
    let out = "NAME            ID      SIZE\nllama3:latest   abc     4GB\n\ncodellama:7b    def     3GB\n";
    assert_eq!(parse_ollama_models(out), strings(&["llama3:latest", "codellama:7b"]));
    assert!(parse_ollama_models("").is_empty());
}

#[test]
fn configuration_paths() {
    assert_eq!(join_path("/home/u/.config", "aether"), "/home/u/.config/aether");
    assert_eq!(join_path("/home/u/.config/", "aether"), "/home/u/.config/aether");
    assert_eq!(Config::config_path_in("/c"), "/c/aether/config.toml");
    assert!(Config::config_path().ends_with("aether/config.toml"));
    let c = Config::with_username("u".to_string());
    assert_eq!(c.edit_mode, "aether");
    assert!(c.first_run);
}

#[test]
fn listings_show_directories_first_then_by_name() {
    let names = strings(&["b.txt", "src", "a.txt", "Zed", "docs", "é", "a.txt"]);
    let dirs = vec![false, true, false, false, true, false, false];
    let order = listing_order(&names, &dirs);
    assert_eq!(order, vec![4, 1, 3, 2, 6, 0, 5]);
    let mut by_std: Vec<usize> = (0..names.len()).collect();
    by_std.sort_by(|&a, &b| dirs[b].cmp(&dirs[a]).then(names[a].cmp(&names[b])));
    assert_eq!(order, by_std);
    assert_eq!(listing_order(&Vec::new(), &Vec::new()), Vec::<usize>::new());
}

#[test]
fn name_comparison_agrees_with_std() {
    let words = ["", "a", "ab", "b", "B", "é", "e", "aé", "ab\u{1F600}", "abc"];
    for x in words {
        for y in words {
            let expected: i8 = match x.cmp(y) {
                std::cmp::Ordering::Less => -1,
                std::cmp::Ordering::Equal => 0,
                std::cmp::Ordering::Greater => 1,
            };
            assert_eq!(compare_names(x, y), expected, "{} {}", x, y);
        }
    }
}

#[test]
fn the_file_tree_hides_dot_files_and_build_folders() {
    assert!(!shown_in_tree(".git"));
    assert!(!shown_in_tree("target"));
    assert!(!shown_in_tree("node_modules"));
    assert!(shown_in_tree("src"));
    assert!(shown_in_tree("targets"));
    assert!(shown_in_tree(""));
}

fn config(backend: AiBackend, model: &str, key: Option<&str>) -> AiConfig {
    AiConfig {
        enabled: true,
        backend,
        model_name: model.to_string(),
        endpoint: "http://localhost:11434".to_string(),
        api_key: key.map(|k| k.to_string()),
    }
}

fn chat_messages() -> Vec<AiMessage> {
    vec![
        AiMessage { role: "user".to_string(), content: "hi".to_string() },
        AiMessage { role: "assistant".to_string(), content: "hello".to_string() },
    ]
}

fn pairs(plan: &aether::chat::ChatPlan) -> Vec<(String, String)> {
    plan.messages.iter().map(|m| (m.role.clone(), m.text.clone())).collect()
}

#[test]
fn chat_requests_for_each_backend() {
    let msgs = chat_messages();
    let p = AiAssistant::new(config(AiBackend::Ollama, "llama3", None)).plan_chat(&msgs, "SYS").ok().unwrap();
    assert_eq!(p.url, "http://localhost:11434/api/chat");
    assert_eq!(p.model, "llama3");
    assert_eq!(p.api_key, "");
    assert_eq!(
        pairs(&p),
        vec![
            ("system".to_string(), "SYS".to_string()),
            ("user".to_string(), "hi".to_string()),
            ("assistant".to_string(), "hello".to_string())
        ]
    );
    let p = AiAssistant::new(config(AiBackend::OpenAI, "", Some("k1"))).plan_chat(&msgs, "SYS").ok().unwrap();
    assert_eq!(p.url, "https://api.openai.com/v1/chat/completions");
    assert_eq!(p.model, "gpt-4o");
    assert_eq!(p.api_key, "k1");
    let p = AiAssistant::new(config(AiBackend::Grok, "", Some("k"))).plan_chat(&msgs, "SYS").ok().unwrap();
    assert_eq!(p.model, "grok-3-mini-fast");
    assert_eq!(p.url, "https://api.x.ai/v1/chat/completions");
    let p = AiAssistant::new(config(AiBackend::Gemini, "", Some("k2"))).plan_chat(&msgs, "SYS").ok().unwrap();
    assert_eq!(
        p.url,
        "https://generativelanguage.googleapis.com/v1beta/models/gemini-2.0-flash:streamGenerateContent?alt=sse&key=k2"
    );
    assert_eq!(
        pairs(&p),
        vec![
            ("user".to_string(), "SYS".to_string()),
            ("user".to_string(), "hi".to_string()),
            ("model".to_string(), "hello".to_string())
        ]
    );
    let p = AiAssistant::new(config(AiBackend::Anthropic, "m", Some("k3"))).plan_chat(&msgs, "SYS").ok().unwrap();
    assert_eq!(p.url, "https://api.anthropic.com/v1/messages");
    assert_eq!(p.system, "SYS");
    assert_eq!(
        pairs(&p),
        vec![("user".to_string(), "hi".to_string()), ("assistant".to_string(), "hello".to_string())]
    );
}

#[test]
fn chat_requests_that_cannot_be_made() {
    let msgs = chat_messages();
    let mut off = config(AiBackend::Ollama, "m", None);
    off.enabled = false;
    assert_eq!(AiAssistant::new(off).plan_chat(&msgs, "S").err(), Some("AI is disabled or unavailable".to_string()));
    assert_eq!(
        AiAssistant::new(config(AiBackend::OpenAI, "m", None)).plan_chat(&msgs, "S").err(),
        Some("AI is disabled or unavailable".to_string())
    );
    assert_eq!(
        AiAssistant::new(config(AiBackend::LlamaCpp, "m", None)).plan_chat(&msgs, "S").err(),
        Some("Unsupported backend".to_string())
    );
    assert_eq!(
        AiAssistant::new(config(AiBackend::Anthropic, "", Some("k"))).plan_chat(&msgs, "S").err(),
        Some("Anthropic model not configured".to_string())
    );
}

#[test]
fn event_stream_lines() {
    assert_eq!(stream_data("data: {\"a\":1}"), Some("{\"a\":1}".to_string()));
    assert_eq!(stream_data("data: data: x"), Some("x".to_string()));
    assert_eq!(stream_data("data: "), Some(String::new()));
    assert_eq!(stream_data("data:x"), None);
    assert_eq!(stream_data(": ping"), None);
    assert_eq!(stream_data(""), None);
    for line in ["data: data: x", "data: [DONE]", "data: é"] {
        assert_eq!(stream_data(line).unwrap(), line.trim_start_matches("data: "));
    }
    assert!(stream_ends("[DONE]"));
    assert!(!stream_ends("[DONE] "));
}

#[test]
fn api_key_probes() {
    assert!(AiConfig::verify_api_key(&AiBackend::OpenAI, "", "").is_none());
    assert!(AiConfig::verify_api_key(&AiBackend::Ollama, "k", "").is_none());
    let p = AiConfig::verify_api_key(&AiBackend::OpenAI, "k", "").unwrap();
    assert_eq!(p.url, "https://api.openai.com/v1/models");
    assert!(!p.post);
    assert_eq!(p.headers, vec![("Authorization".to_string(), "Bearer k".to_string())]);
    let p = AiConfig::verify_api_key(&AiBackend::Gemini, "g", "").unwrap();
    assert_eq!(p.url, "https://generativelanguage.googleapis.com/v1/models?key=g");
    assert!(p.headers.is_empty());
    let p = AiConfig::verify_api_key(&AiBackend::Anthropic, "a", "").unwrap();
    assert!(p.post);
    assert_eq!(p.headers[0], ("x-api-key".to_string(), "a".to_string()));
    assert!(p.body.contains("\"max_tokens\":1"));
    let p = AiConfig::verify_api_key(&AiBackend::Grok, "x", "").unwrap();
    assert_eq!(p.url, "https://api.x.ai");
    assert!(AiConfig::key_accepted(&AiBackend::OpenAI, 200));
    assert!(!AiConfig::key_accepted(&AiBackend::OpenAI, 400));
    assert!(AiConfig::key_accepted(&AiBackend::Anthropic, 400));
    assert!(!AiConfig::key_accepted(&AiBackend::Anthropic, 401));
}

#[test]
fn completion_requests_go_to_ollama_only() {
    let q = AiAssistant::new(config(AiBackend::Ollama, "codellama", None)).complete("fn main").unwrap();
    assert_eq!(q.url, "http://localhost:11434/api/generate");
    assert_eq!(q.model, "codellama");
    assert_eq!(q.prompt, "fn main");
    assert!(AiAssistant::new(config(AiBackend::OpenAI, "m", Some("k"))).complete("x").is_none());
    let mut off = config(AiBackend::Ollama, "m", None);
    off.enabled = false;
    assert!(AiAssistant::new(off).complete("x").is_none());
}

#[test]
fn the_ocean_depth_example_theme() {
    let def = CustomThemeDef {
        name: "Ocean Depth".to_string(),
        bg: "#0f172a".to_string(),
        fg: "#f8fafc".to_string(),
        accent: "#38bdf8".to_string(),
        accent_dim: Some("#0369a1".to_string()),
        gutter_fg: None,
        border: Some("#1e293b".to_string()),
        keyword: Some("#38bdf8".to_string()),
        string: Some("#7dd3fc".to_string()),
        comment: Some("#475569".to_string()),
        function: Some("#0ea5e9".to_string()),
        type_color: None,
        number: None,
        error: None,
    };
    let t = build_custom_theme(def).unwrap();
    assert_eq!(t.name, "Ocean Depth");
    assert_eq!(t.bg, Color::Rgb(0x0f, 0x17, 0x2a));
    assert_eq!(t.accent_dim, Color::Rgb(0x03, 0x69, 0xa1));
    assert_eq!(t.comment, Color::Rgb(0x47, 0x55, 0x69));
    // Fields left out take their documented defaults.
    assert_eq!(t.type_color, t.accent_dim);
    assert_eq!(t.gutter_fg, darken(Color::Rgb(0xf8, 0xfa, 0xfc), 60));
    assert_eq!(t.number, lighten(Color::Rgb(0x38, 0xbd, 0xf8), 30));
    assert_eq!(t.error, Color::Rgb(255, 80, 80));
    // Secondary colours come from the background and foreground.
    assert_eq!(t.tab_bg, darken(t.bg, 5));
    assert_eq!(t.selection_bg, lighten(t.bg, 20));
    assert_eq!(t.success, t.string);
}

#[test]
fn only_six_hex_digits_make_a_colour() {
    assert_eq!(parse_hex_color("#+f+f+f"), None);
    assert_eq!(parse_hex_color("#aéabc"), None);
    assert_eq!(parse_hex_color("#ééé"), None);
    assert_eq!(parse_hex_color("#12345"), None);
    assert_eq!(parse_hex_color("#1234567"), None);
    assert_eq!(parse_hex_color("##A0b0C0"), Some(Color::Rgb(0xa0, 0xb0, 0xc0)));
    let mut def = theme_def("#101010");
    def.keyword = Some("#aéabc".to_string());
    let t = build_custom_theme(def).unwrap();
    assert_eq!(t.keyword, t.accent);
    let mut def = theme_def("#101010");
    def.fg = "#aéabc".to_string();
    assert!(build_custom_theme(def).is_none());
}

#[test]
fn parents_agree_with_std() {
    let cases = [
        "", "/", "//", "a", "a/", "a/b", "/a", "/a/b/", "a//b", "a/./b", "a/.", "a/./", "./a", ".", "./",
        "..", "../a", "/..", "/./a", "//a", "a/b/..", ".a", "a/.b", "/a/./.", "x/./y/.//", "./.",
    ];
    for c in cases {
        let expected = std::path::Path::new(c).parent().map(|p| p.to_string_lossy().into_owned());
        assert_eq!(path_parent(c), expected, "{}", c);
    }
}

#[test]
fn streamed_answers_are_collected() {
    let body = "data: {\"choices\":[{\"delta\":{\"content\":\"Hel\"}}]}\n\n: ping\ndata: {\"choices\":[{\"delta\":{}}]}\ndata: {\"choices\":[{\"delta\":{\"content\":\"lo\"}}]}\ndata: [DONE]\ndata: {\"choices\":[{\"delta\":{\"content\":\"!\"}}]}\n";
    let (texts, full) = collect_stream(&AiBackend::OpenAI, body);
    assert_eq!(texts, strings(&["Hel", "lo"]));
    assert_eq!(full, "Hello");
    let gemini = "data: {\"candidates\":[{\"content\":{\"parts\":[{\"text\":\"a\"}]}}]}\ndata: [DONE]\ndata: {\"candidates\":[{\"content\":{\"parts\":[{\"text\":\"b\"}]}}]}\n";
    let (texts, full) = collect_stream(&AiBackend::Gemini, gemini);
    assert_eq!(texts, strings(&["a", "b"]));
    assert_eq!(full, "ab");
    assert_eq!(collect_stream(&AiBackend::Grok, "not json\n"), (Vec::new(), String::new()));
}

#[test]
fn ollama_lines_and_one_shot_replies() {
    let mut full = String::new();
    assert_eq!(ollama_step(&mut full, "{\"message\":{\"content\":\"Hi\"},\"done\":false}"), (Some("Hi".to_string()), false));
    assert_eq!(ollama_step(&mut full, "garbage"), (None, false));
    assert_eq!(ollama_step(&mut full, "{\"message\":{\"content\":\" there\"},\"done\":true}"), (Some(" there".to_string()), true));
    assert_eq!(full, "Hi there");
    assert_eq!(anthropic_reply_of("{\"content\":[{\"type\":\"text\",\"text\":\"yes\"}]}"), Ok(Some("yes".to_string())));
    assert_eq!(anthropic_reply_of("{\"content\":[]}"), Ok(None));
    assert!(anthropic_reply_of("{oops").is_err());
    assert_eq!(generated_text_of("{\"response\":\"42\"}"), Some("42".to_string()));
    assert_eq!(generated_text_of("{}"), None);
}

#[test]
fn lines_are_highlighted_with_syntect() {
    let h = SyntaxHighlighter::new();
    let line = "fn main() { let x = 1; }";
    let runs = h.highlight_line(line, "rs", Color::Rgb(1, 2, 3));
    assert!(runs.len() > 1);
    let text: String = runs.iter().map(|r| r.text.as_str()).collect();
    assert_eq!(text, line);
    assert!(runs.iter().all(|r| !r.text.ends_with('\n')));
    let plain = h.highlight_line("just text\n", "nosuchext", Color::Rgb(1, 2, 3));
    let text: String = plain.iter().map(|r| r.text.as_str()).collect();
    assert_eq!(text, "just text");
}

#[test]
fn configuration_directories_from_the_environment() {
    assert_eq!(Config::config_dir_from(Some("/home/u/.config")), "/home/u/.config/aether");
    assert_eq!(Config::config_dir_from(None), "./aether");
    assert_eq!(Config::config_path_from(Some("/c/")), "/c/aether/config.toml");
    assert_eq!(Config::config_path_from(None), "./aether/config.toml");
}
