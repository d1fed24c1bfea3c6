use locallm::chat::ChatError;
use locallm::chat::Model;
use locallm::chat::model_names;
use locallm::config::Config;
use locallm::config::default_ollama_url;
use locallm::config::default_show_gpu_stats;
use locallm::exchange::classify_http_failure;
use locallm::stats::GpuStats;
use locallm::text::blank;
use locallm::text::contains_str;
use locallm::text::trim;
use locallm::text::usize_to_dec;

#[test]
fn trim_strips_both_ends() {
    assert_eq!(trim("  hello world \t\r\n"), "hello world");
    assert_eq!(trim("unchanged"), "unchanged");
    assert_eq!(trim(""), "");
    assert_eq!(trim(" \t "), "");
    assert_eq!(trim("a b"), "a b");
}

#[test]
fn blank_means_whitespace_only() {
    assert!(blank(""));
    assert!(blank("  \t\r\n"));
    assert!(!blank(" x "));
}

#[test]
fn contains_finds_substrings() {
    assert!(contains_str("model 'm1' not found", "not found"));
    assert!(contains_str("abc", ""));
    assert!(contains_str("abc", "abc"));
    assert!(!contains_str("abc", "abcd"));
    assert!(!contains_str("model missing", "not found"));
}

#[test]
fn decimal_rendering_is_exact() {
    assert_eq!(usize_to_dec(0), "0");
    assert_eq!(usize_to_dec(7), "7");
    assert_eq!(usize_to_dec(42), "42");
    assert_eq!(usize_to_dec(100), "100");
    assert_eq!(usize_to_dec(1234567), "1234567");
}

#[test]
fn classify_names_the_missing_model() {
    let e = classify_http_failure(404, "{\"error\":\"model 'm1' not found\"}", "m1");
    assert!(matches!(e, ChatError::ModelNotFound(m) if m == "m1"));
}

#[test]
fn classify_carries_status_and_body_otherwise() {
    let e = classify_http_failure(500, "boom", "m1");
    match e {
        ChatError::Transport(d) => assert_eq!(d, "HTTP 500: boom"),
        _ => panic!("expected a transport error"),
    }
}

#[test]
fn error_messages_read_as_expected() {
    assert_eq!(
        ChatError::Transport("timed out".to_string()).message(),
        "HTTP error: timed out"
    );
    assert_eq!(
        ChatError::NotRunning("http://127.0.0.1:11434".to_string()).message(),
        "Ollama not running at http://127.0.0.1:11434"
    );
    assert_eq!(
        ChatError::ModelNotFound("m1".to_string()).message(),
        "Model not found: m1"
    );
}

#[test]
fn config_defaults_match_the_documented_values() {
    let c = Config::default();
    assert_eq!(c.ollama_url, "http://127.0.0.1:11434");
    assert_eq!(c.default_model, None);
    assert_eq!(c.system_prompt, None);
    assert!(!c.auto_copy);
    assert!(c.show_gpu_stats);
    assert_eq!(default_ollama_url(), "http://127.0.0.1:11434");
    assert!(default_show_gpu_stats());
}

#[test]
fn model_names_keep_server_order() {
    let models = vec![
        Model {
            name: "m1".to_string(),
            size: 10,
            digest: "d1".to_string(),
            details: None,
        },
        Model {
            name: "m2".to_string(),
            size: 20,
            digest: "d2".to_string(),
            details: None,
        },
    ];
    assert_eq!(model_names(&models), vec!["m1".to_string(), "m2".to_string()]);
}

#[test]
fn gpu_stats_default_is_zeroed() {
    let s = GpuStats::default();
    assert_eq!(s.vram_used_mb, 0);
    assert_eq!(s.vram_total_mb, 0);
    assert_eq!(s.gpu_usage_percent, 0);
    assert!(s.temperature_c.is_none());
    assert!(s.gpu_name.is_none());
}
