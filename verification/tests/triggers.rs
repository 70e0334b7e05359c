use arpx::triggers::contains_substring;
use arpx::triggers::logs_potential_pull;
use arpx::triggers::LogData;
use arpx::triggers::LogTriggerCfg;

fn log_data(message: &str) -> LogData {
    LogData { message: message.to_string(), snippets: Vec::new() }
}

#[test]
fn substring_search_finds_inner_matches() {
    assert!(contains_substring("Access denied for user", "denied"));
    assert!(contains_substring("abc", "abc"));
    assert!(contains_substring("abc", ""));
    assert!(!contains_substring("abc", "abcd"));
    assert!(!contains_substring("abab", "aab"));
}

#[test]
fn matching_line_fires_every_action_with_its_snippet() {
    let actions = vec!["restart".to_string(), "alert".to_string()];
    let trigger = LogTriggerCfg { includes_string: "denied".to_string() };
    let output = logs_potential_pull(&actions, &trigger, &log_data("Access denied for user"));
    assert_eq!(output.exec_actions, actions);
    assert_eq!(output.snippets.len(), 2);
    assert_eq!(output.snippets[0], ("restart".to_string(), "denied".to_string()));
    assert_eq!(output.snippets[1], ("alert".to_string(), "denied".to_string()));
}

#[test]
fn non_matching_line_fires_nothing() {
    let actions = vec!["restart".to_string()];
    let trigger = LogTriggerCfg { includes_string: "denied".to_string() };
    let output = logs_potential_pull(&actions, &trigger, &log_data("all is well"));
    assert!(output.exec_actions.is_empty());
    assert!(output.snippets.is_empty());
}

#[test]
fn empty_trigger_string_never_fires() {
    let actions = vec!["restart".to_string()];
    let trigger = LogTriggerCfg { includes_string: String::new() };
    let output = logs_potential_pull(&actions, &trigger, &log_data("anything"));
    assert!(output.exec_actions.is_empty());
}
