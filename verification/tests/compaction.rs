use context_engine::compaction::{policy_trim, sliding_window};
use context_engine::fences::strip_json_fences;
use context_engine::infer::{InferResponse, StopReason, TokenUsage};
use context_engine::message::{CompactionPolicy, Content, Message, Role};
use context_engine::rules::{
    CompactionRule, TelemetryConfig, TelemetryLevel, TelemetryRule, TelemetryVerbosity, Trigger,
};
use context_engine::summarize::{ExtractConfig, SummarizeConfig};

fn msg(text: &str) -> Message {
    Message::new(Role::User, Content::text(text))
}

fn msg_with_policy(text: &str, policy: CompactionPolicy) -> Message {
    let mut m = Message::new(Role::User, Content::text(text));
    m.meta.policy = policy;
    m
}

fn make_text_response(text: &str) -> InferResponse {
    InferResponse {
        content: Content::text(text),
        tool_calls: vec![],
        stop_reason: StopReason::EndTurn,
        usage: TokenUsage { input_tokens: 10, output_tokens: 5 },
        model: "test".to_string(),
        cost: None,
    }
}

#[test]
fn sliding_window_keeps_recent() {
    let messages: Vec<Message> = (0..10).map(|i| msg(&format!("msg {i}"))).collect();
    let result = sliding_window(&messages, 3);

    assert_eq!(result.len(), 3);
    assert_eq!(result[0].text_content(), "msg 7");
    assert_eq!(result[1].text_content(), "msg 8");
    assert_eq!(result[2].text_content(), "msg 9");
}

#[test]
fn sliding_window_preserves_pinned() {
    let mut messages: Vec<Message> = (0..10).map(|i| msg(&format!("msg {i}"))).collect();
    messages[0].meta.policy = CompactionPolicy::Pinned;
    messages[5].meta.policy = CompactionPolicy::Pinned;

    let result = sliding_window(&messages, 3);

    assert_eq!(result.len(), 5, "pinned(2) + kept non-pinned(3) = 5");
    let texts: Vec<String> = result.iter().map(|m| m.text_content()).collect();
    assert!(texts.contains(&"msg 0".to_string()), "pinned at 0 must survive");
    assert!(texts.contains(&"msg 5".to_string()), "pinned at 5 must survive");
    assert!(texts.contains(&"msg 7".to_string()));
    assert!(texts.contains(&"msg 8".to_string()));
    assert!(texts.contains(&"msg 9".to_string()));
}

#[test]
fn policy_trim_removes_discard_first() {
    let messages = vec![
        msg_with_policy("discard-a", CompactionPolicy::DiscardWhenDone),
        msg_with_policy("discard-b", CompactionPolicy::DiscardWhenDone),
        msg_with_policy("compress-a", CompactionPolicy::CompressFirst),
        msg_with_policy("normal-a", CompactionPolicy::Normal),
        msg_with_policy("normal-b", CompactionPolicy::Normal),
        msg_with_policy("pinned", CompactionPolicy::Pinned),
    ];

    let result = policy_trim(&messages, 3);

    assert_eq!(result.len(), 3);
    let texts: Vec<String> = result.iter().map(|m| m.text_content()).collect();
    assert!(!texts.contains(&"discard-a".to_string()));
    assert!(!texts.contains(&"discard-b".to_string()));
    assert!(texts.contains(&"pinned".to_string()));
}

#[test]
fn policy_trim_then_compress_first() {
    let messages = vec![
        msg_with_policy("discard-a", CompactionPolicy::DiscardWhenDone),
        msg_with_policy("compress-a", CompactionPolicy::CompressFirst),
        msg_with_policy("compress-b", CompactionPolicy::CompressFirst),
        msg_with_policy("normal-a", CompactionPolicy::Normal),
        msg_with_policy("normal-b", CompactionPolicy::Normal),
    ];

    let result = policy_trim(&messages, 2);

    assert_eq!(result.len(), 2);
    let texts: Vec<String> = result.iter().map(|m| m.text_content()).collect();
    assert!(texts.contains(&"normal-a".to_string()));
    assert!(texts.contains(&"normal-b".to_string()));
    assert!(!texts.contains(&"discard-a".to_string()));
    assert!(!texts.contains(&"compress-a".to_string()));
    assert!(!texts.contains(&"compress-b".to_string()));
}

#[test]
fn policy_trim_preserves_pinned() {
    let messages = vec![
        msg_with_policy("pinned-a", CompactionPolicy::Pinned),
        msg_with_policy("normal-a", CompactionPolicy::Normal),
        msg_with_policy("pinned-b", CompactionPolicy::Pinned),
        msg_with_policy("normal-b", CompactionPolicy::Normal),
        msg_with_policy("normal-c", CompactionPolicy::Normal),
    ];

    let result = policy_trim(&messages, 0);

    assert_eq!(result.len(), 2, "only the 2 pinned messages survive");
    let texts: Vec<String> = result.iter().map(|m| m.text_content()).collect();
    assert!(texts.contains(&"pinned-a".to_string()));
    assert!(texts.contains(&"pinned-b".to_string()));
}

#[test]
fn test_strip_json_fences_with_json_tag() {
    let input = "```json\n{\"a\": 1}\n```";
    assert_eq!(strip_json_fences(input), "{\"a\": 1}");
}

#[test]
fn test_strip_json_fences_without_tag() {
    let input = "```\n{\"a\": 1}\n```";
    assert_eq!(strip_json_fences(input), "{\"a\": 1}");
}

#[test]
fn test_strip_json_fences_no_fences() {
    let input = "{\"a\": 1}";
    assert_eq!(strip_json_fences(input), "{\"a\": 1}");
}

#[test]
fn test_build_summarize_request_default() {
    let messages = vec![msg("hello")];
    let config = SummarizeConfig::default();
    let request = config.build_request(&messages);
    assert_eq!(request.max_tokens, Some(2048));
}

#[test]
fn test_build_summarize_request_custom_model() {
    let messages = vec![msg("hello")];
    let config = SummarizeConfig { model: Some("custom-model".into()), ..SummarizeConfig::default() };
    let request = config.build_request(&messages);
    assert_eq!(request.model.as_deref(), Some("custom-model"));
}

#[test]
fn test_parse_summarize_response_empty() {
    let response = make_text_response("");
    let config = SummarizeConfig::default();
    let result = config.parse_response(response);
    assert!(result.is_err());
}

#[test]
fn test_parse_summarize_response_success() {
    let response = make_text_response("Summary text");
    let config = SummarizeConfig { output_policy: CompactionPolicy::Normal, ..SummarizeConfig::default() };
    let result = config.parse_response(response).unwrap();
    assert_eq!(result.text_content(), "Summary text");
    assert_eq!(result.meta.policy, CompactionPolicy::Normal);
    assert_eq!(result.role, Role::Assistant);
}

#[test]
fn test_build_extract_request_schema_substitution() {
    let messages = vec![msg("hello")];
    let schema: serde_json::Value = serde_json::from_str("{\"type\": \"object\"}").unwrap();
    let config = ExtractConfig::default();
    let request = config.build_request(&messages, &schema);
    let system = request.system.unwrap();
    assert!(system.contains("\"type\": \"object\""), "system prompt should contain schema: {system}");
}

#[test]
fn test_parse_extract_response_valid_json() {
    let response = make_text_response("{\"key\": \"value\"}");
    let result = ExtractConfig::default().parse_response(&response).unwrap();
    assert_eq!(result["key"], "value");
}

#[test]
fn test_parse_extract_response_with_fences() {
    let response = make_text_response("```json\n{\"key\": \"value\"}\n```");
    let result = ExtractConfig::default().parse_response(&response).unwrap();
    assert_eq!(result["key"], "value");
}

#[test]
fn test_parse_extract_response_invalid() {
    let response = make_text_response("not json");
    let result = ExtractConfig::default().parse_response(&response);
    assert!(result.is_err());
}

#[test]
fn test_compaction_rule_custom_priority() {
    let rule = CompactionRule::sliding_window(10).with_priority(99).into_rule();
    assert_eq!(rule.priority, 99);
}

#[test]
fn telemetry_rule_default_config() {
    let rule = TelemetryRule::default();
    assert_eq!(rule.config.verbosity, TelemetryVerbosity::Operations);
    assert_eq!(rule.config.level, TelemetryLevel::Info);
}

#[test]
fn telemetry_rule_custom_config() {
    let rule = TelemetryRule::with_config(TelemetryConfig {
        verbosity: TelemetryVerbosity::Full,
        level: TelemetryLevel::Debug,
    });
    assert_eq!(rule.config.verbosity, TelemetryVerbosity::Full);
    assert_eq!(rule.config.level, TelemetryLevel::Debug);
}

#[test]
fn into_rule_produces_after_any() {
    let rule = TelemetryRule::default().into_rule();
    assert_eq!(rule.name, "telemetry");
    assert_eq!(rule.priority, 0);
    assert_eq!(rule.trigger, Trigger::AfterAny);
}

#[test]
fn into_rule_with_priority() {
    let rule = TelemetryRule::default().into_rule_with_priority(-10);
    assert_eq!(rule.priority, -10);
}
