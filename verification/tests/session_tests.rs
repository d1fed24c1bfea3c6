use locallm::chat::ChatError;
use locallm::config::Config;
use locallm::session::Session;
use locallm::session::SessionState;
use locallm::session::reconcile;

fn connected_session_with_model() -> Session {
    let cfg = Config::default();
    let mut s = Session::new(&cfg);
    s.connection_checked(true);
    s.models_loaded(Ok(vec!["m1".to_string(), "m2".to_string()]));
    s
}

#[test]
fn reconcile_prefers_the_configured_default() {
    let available = vec!["a".to_string(), "b".to_string()];
    let r = reconcile(&available, &Some("b".to_string()));
    assert_eq!(r.as_deref(), Some("b"));
}

#[test]
fn reconcile_falls_back_to_the_first_available() {
    let available = vec!["a".to_string(), "b".to_string()];
    let r = reconcile(&available, &Some("z".to_string()));
    assert_eq!(r.as_deref(), Some("a"));
}

#[test]
fn reconcile_of_an_empty_listing_is_none() {
    let available: Vec<String> = Vec::new();
    let r = reconcile(&available, &Some("a".to_string()));
    assert_eq!(r, None);
}

#[test]
fn submit_is_rejected_while_generating() {
    let mut s = connected_session_with_model();
    let first = s.submit("hello");
    assert!(first.is_some());
    assert_eq!(s.state, SessionState::Generating);
    let len_before = s.history.len();
    let second = s.submit("again");
    assert!(second.is_none());
    assert_eq!(s.state, SessionState::Generating);
    assert_eq!(s.history.len(), len_before);
}

#[test]
fn submit_is_rejected_without_a_model() {
    let cfg = Config::default();
    let mut s = Session::new(&cfg);
    s.connection_checked(true);
    let req = s.submit("hello");
    assert!(req.is_none());
    assert_eq!(s.state, SessionState::Connected);
    assert!(s.history.is_empty());
    assert_eq!(s.status_message, "No model selected");
}

#[test]
fn submit_is_rejected_on_whitespace_input() {
    let mut s = connected_session_with_model();
    let status_before = s.status_message.clone();
    let req = s.submit("   \t \n ");
    assert!(req.is_none());
    assert_eq!(s.state, SessionState::Connected);
    assert!(s.history.is_empty());
    assert_eq!(s.status_message, status_before);
}

#[test]
fn submit_trims_the_user_turn() {
    let mut s = connected_session_with_model();
    let req = s.submit("  hi there  ").expect("accepted");
    assert_eq!(s.history.len(), 1);
    assert_eq!(s.history[0].role, "user");
    assert_eq!(s.history[0].content, "hi there");
    assert_eq!(req.model, "m1");
    assert_eq!(s.status_message, "Generating...");
}

#[test]
fn submit_sends_system_prompt_history_and_user_turn_in_order() {
    let mut cfg = Config::default();
    cfg.system_prompt = Some("be brief".to_string());
    cfg.default_model = Some("m1".to_string());
    let mut s = Session::new(&cfg);
    s.connection_checked(true);
    s.models_loaded(Ok(vec!["m1".to_string()]));
    s.submit("one").expect("accepted");
    s.response_complete(Ok("two".to_string()));
    let req = s.submit("three").expect("accepted");
    // two prior turns, the system prompt, and the new user turn
    assert_eq!(req.messages.len(), 2 + 1 + 1);
    let roles: Vec<&str> = req.messages.iter().map(|m| m.role.as_str()).collect();
    assert_eq!(roles, vec!["system", "user", "assistant", "user"]);
    let contents: Vec<&str> = req.messages.iter().map(|m| m.content.as_str()).collect();
    assert_eq!(contents, vec!["be brief", "one", "two", "three"]);
}

#[test]
fn submit_without_system_prompt_sends_history_only() {
    let mut s = connected_session_with_model();
    let req = s.submit("one").expect("accepted");
    assert_eq!(req.messages.len(), 1);
    assert_eq!(req.messages[0].role, "user");
    assert_eq!(req.messages[0].content, "one");
}

#[test]
fn refresh_reselects_first_when_default_absent() {
    let mut cfg = Config::default();
    cfg.default_model = Some("m3".to_string());
    let mut s = Session::new(&cfg);
    s.connection_checked(true);
    s.models_loaded(Ok(vec!["m1".to_string(), "m2".to_string()]));
    assert_eq!(s.selected_model.as_deref(), Some("m1"));
    assert_eq!(s.status_message, "2 models available");
}

#[test]
fn refresh_keeps_the_configured_default_when_listed() {
    let mut cfg = Config::default();
    cfg.default_model = Some("m2".to_string());
    let mut s = Session::new(&cfg);
    s.models_loaded(Ok(vec!["m1".to_string(), "m2".to_string()]));
    assert_eq!(s.selected_model.as_deref(), Some("m2"));
}

#[test]
fn refresh_preserves_a_still_listed_selection() {
    let mut s = connected_session_with_model();
    s.select_model("m2".to_string());
    s.models_loaded(Ok(vec!["m2".to_string(), "m1".to_string()]));
    assert_eq!(s.selected_model.as_deref(), Some("m2"));
}

#[test]
fn refresh_rederives_when_the_selection_vanished() {
    let mut s = connected_session_with_model();
    s.select_model("m2".to_string());
    s.models_loaded(Ok(vec!["m9".to_string()]));
    assert_eq!(s.selected_model.as_deref(), Some("m9"));
    assert_eq!(s.status_message, "1 models available");
}

#[test]
fn refresh_of_an_empty_listing_reports() {
    let cfg = Config::default();
    let mut s = Session::new(&cfg);
    s.models_loaded(Ok(Vec::new()));
    assert_eq!(s.selected_model, None);
    assert_eq!(s.status_message, "No models found. Run: ollama pull <model>");
}

#[test]
fn failed_refresh_leaves_the_registry_untouched() {
    let mut s = connected_session_with_model();
    let models_before = s.available_models.clone();
    s.models_loaded(Err("connection refused".to_string()));
    assert_eq!(s.available_models, models_before);
    assert_eq!(s.selected_model.as_deref(), Some("m1"));
    assert_eq!(s.status_message, "Failed to load models: connection refused");
}

#[test]
fn select_model_ignores_unknown_names() {
    let mut s = connected_session_with_model();
    s.select_model("m2".to_string());
    assert_eq!(s.selected_model.as_deref(), Some("m2"));
    s.select_model("nope".to_string());
    assert_eq!(s.selected_model.as_deref(), Some("m2"));
}

#[test]
fn response_complete_appends_the_assistant_turn() {
    let mut s = connected_session_with_model();
    s.submit("hello").expect("accepted");
    s.response_complete(Ok("world".to_string()));
    assert_eq!(s.state, SessionState::Connected);
    assert_eq!(s.history.len(), 2);
    assert_eq!(s.history[1].role, "assistant");
    assert_eq!(s.history[1].content, "world");
    assert_eq!(s.status_message, "Ready");
}

#[test]
fn response_complete_discards_an_empty_message() {
    let mut s = connected_session_with_model();
    s.submit("hello").expect("accepted");
    s.response_complete(Ok(String::new()));
    assert_eq!(s.state, SessionState::Connected);
    assert_eq!(s.history.len(), 1);
    assert_eq!(s.status_message, "Ready");
}

#[test]
fn response_complete_reports_a_failure() {
    let mut s = connected_session_with_model();
    s.submit("hello").expect("accepted");
    s.response_complete(Err(ChatError::ModelNotFound("m1".to_string())));
    assert_eq!(s.state, SessionState::Connected);
    assert_eq!(s.history.len(), 1);
    assert_eq!(s.status_message, "Error: Model not found: m1");
}

#[test]
fn failed_probe_disconnects() {
    let cfg = Config::default();
    let mut s = Session::new(&cfg);
    assert_eq!(s.state, SessionState::Disconnected);
    assert_eq!(s.status_message, "Connecting to Ollama...");
    let load = s.connection_checked(false);
    assert!(!load);
    assert_eq!(s.state, SessionState::Disconnected);
    assert_eq!(s.status_message, "Ollama not running");
    let load = s.connection_checked(true);
    assert!(load);
    assert_eq!(s.state, SessionState::Connected);
    assert_eq!(s.status_message, "Connected to Ollama");
}

#[test]
fn clear_history_empties_the_conversation() {
    let mut s = connected_session_with_model();
    s.submit("hello").expect("accepted");
    s.response_complete(Ok("world".to_string()));
    s.clear_history();
    assert!(s.history.is_empty());
    assert_eq!(s.status_message, "Chat cleared");
    assert_eq!(s.selected_model.as_deref(), Some("m1"));
}
